use quasar_telemetry::camera::{
    api_check, camera_plan, check_enumeration, collect_param_requests, parse_param_kind,
    stringify_err, APIError, CameraSettings, Group, ParamKind, ParamName, ParamRequest, Parameter,
};

#[test]
fn stringify_err_formats_source_and_hex_code() {
    let e = APIError { code: 0x1A3, is_thirdparty_err: 1 };
    assert_eq!(stringify_err(e), "错误来源：`第三方相机SDK`， 错误码：1A3");
    let e = APIError { code: 0, is_thirdparty_err: 0 };
    assert_eq!(stringify_err(e), "错误来源：`相机API`， 错误码：0");
    let e = APIError { code: 0xDEADBEEF, is_thirdparty_err: 0 };
    assert_eq!(stringify_err(e), "错误来源：`相机API`， 错误码：DEADBEEF");
}

#[test]
fn api_check_judges_by_code() {
    assert!(api_check(APIError { code: 0, is_thirdparty_err: 0 }, "初始化").is_ok());
    let err = api_check(APIError { code: 0x10, is_thirdparty_err: 1 }, "相机SDK初始化失败")
        .unwrap_err();
    assert_eq!(err, "相机SDK初始化失败；错误来源：`第三方相机SDK`， 错误码：10");
}

#[test]
fn check_enumeration_branches() {
    let ok = APIError { code: 0, is_thirdparty_err: 0 };
    let bad = APIError { code: 0x2, is_thirdparty_err: 0 };
    assert!(check_enumeration(ok, 2, 2).is_ok());
    assert_eq!(
        check_enumeration(bad, 2, 2).unwrap_err(),
        "枚举设备失败；错误来源：`相机API`， 错误码：2"
    );
    assert_eq!(check_enumeration(ok, 0, 2).unwrap_err(), "未发现设备");
    assert_eq!(check_enumeration(ok, 1, 2).unwrap_err(), "发现设备数量与配置不符");
}

#[test]
fn camera_plan_skips_manual_values_in_auto_modes() {
    let cfg = CameraSettings {
        exposure_auto: true,
        gain_auto: true,
        exposure_time_us: 4000,
        gain_milli_db: 16_250,
        width: 1280,
        height: 1024,
    };
    assert_eq!(
        camera_plan(&cfg),
        vec![
            ParamRequest::SetEnum { name: ParamName::ExposureAuto, choice: 2 },
            ParamRequest::SetEnum { name: ParamName::GainAuto, choice: 2 },
            ParamRequest::SetInt { name: ParamName::Width, value: 1280 },
            ParamRequest::SetInt { name: ParamName::Height, value: 1024 },
        ]
    );
}

#[test]
fn camera_plan_sets_manual_values() {
    let cfg = CameraSettings {
        exposure_auto: false,
        gain_auto: false,
        exposure_time_us: 4000,
        gain_milli_db: 16_250,
        width: 640,
        height: 480,
    };
    assert_eq!(
        camera_plan(&cfg),
        vec![
            ParamRequest::SetEnum { name: ParamName::ExposureAuto, choice: 0 },
            ParamRequest::SetMilli { name: ParamName::ExposureTime, milli: 4_000_000 },
            ParamRequest::SetEnum { name: ParamName::GainAuto, choice: 0 },
            ParamRequest::SetMilli { name: ParamName::Gain, milli: 16_250 },
            ParamRequest::SetInt { name: ParamName::Width, value: 640 },
            ParamRequest::SetInt { name: ParamName::Height, value: 480 },
        ]
    );
}

#[test]
fn sdk_names_match_vendor_identifiers() {
    assert_eq!(ParamName::ExposureAuto.sdk_name(), "ExposureAuto");
    assert_eq!(ParamName::ExposureTime.sdk_name(), "ExposureTime");
    assert_eq!(ParamName::GainAuto.sdk_name(), "GainAuto");
    assert_eq!(ParamName::Gain.sdk_name(), "Gain");
    assert_eq!(ParamName::Width.sdk_name(), "Width");
    assert_eq!(ParamName::Height.sdk_name(), "Height");
}

#[test]
fn parse_param_kind_accepts_the_five_types() {
    assert_eq!(parse_param_kind(&"integer".to_string()), Some(ParamKind::Integer));
    assert_eq!(parse_param_kind(&"float".to_string()), Some(ParamKind::Float));
    assert_eq!(parse_param_kind(&"enum".to_string()), Some(ParamKind::Enumerated));
    assert_eq!(parse_param_kind(&"bool".to_string()), Some(ParamKind::Boolean));
    assert_eq!(parse_param_kind(&"string".to_string()), Some(ParamKind::Text));
    assert_eq!(parse_param_kind(&"double".to_string()), None);
}

fn parameter(key: &str, param_ref: &str, param_type: &str) -> Parameter {
    Parameter {
        key: key.to_string(),
        param_ref: param_ref.to_string(),
        param_type: param_type.to_string(),
    }
}

#[test]
fn collect_param_requests_flattens_in_order() {
    let groups = vec![
        Group {
            group_name: "采集控制".to_string(),
            parameters: vec![
                parameter("曝光", "ExposureTime", "float"),
                parameter("曝光模式", "ExposureAuto", "enum"),
            ],
        },
        Group {
            group_name: "模拟控制".to_string(),
            parameters: vec![parameter("亮度", "Brightness", "integer")],
        },
    ];
    let queries = collect_param_requests(&groups).unwrap();
    assert_eq!(queries.len(), 3);
    assert_eq!(queries[0].name, "ExposureTime");
    assert_eq!(queries[0].kind, ParamKind::Float);
    assert_eq!(queries[1].name, "ExposureAuto");
    assert_eq!(queries[1].kind, ParamKind::Enumerated);
    assert_eq!(queries[2].name, "Brightness");
    assert_eq!(queries[2].kind, ParamKind::Integer);
}

#[test]
fn collect_param_requests_rejects_unknown_type() {
    let groups = vec![Group {
        group_name: "采集控制".to_string(),
        parameters: vec![parameter("曝光", "ExposureTime", "double")],
    }];
    assert_eq!(
        collect_param_requests(&groups).unwrap_err(),
        "Unsupported parameter type: double"
    );
}
