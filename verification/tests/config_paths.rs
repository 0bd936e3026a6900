use quasar_telemetry::config::config_candidates;

#[test]
fn candidates_with_both_roots() {
    let candidates = config_candidates(
        &Some("/etc/quasar/Param.toml".to_string()),
        &Some("/src/project".to_string()),
    );
    assert_eq!(
        candidates,
        vec![
            "/etc/quasar/Param.toml".to_string(),
            "/etc/quasar/Param.toml/Param.toml".to_string(),
            "/src/project/Param.toml".to_string(),
            "Param.toml".to_string(),
        ]
    );
}

#[test]
fn candidates_without_roots_fall_back_to_working_directory() {
    let candidates = config_candidates(&None, &None);
    assert_eq!(candidates, vec!["Param.toml".to_string()]);
}

#[test]
fn candidates_with_environment_root_only() {
    let candidates = config_candidates(&Some("/opt/cfg".to_string()), &None);
    assert_eq!(
        candidates,
        vec![
            "/opt/cfg".to_string(),
            "/opt/cfg/Param.toml".to_string(),
            "Param.toml".to_string(),
        ]
    );
}
