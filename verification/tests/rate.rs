use quasar_telemetry::rate::{decide, FPSMonitor};
use rand::RngExt;

#[test]
fn decide_exact_threshold() {
    // Target 30 against a measured 100 items per 1_000_000 microseconds:
    // forward exactly when draw / 2^32 < 0.3, i.e. draw < 1288490188.8.
    assert!(decide(30, 1_000_000, 0));
    assert!(decide(30, 1_000_000, 1_288_490_188));
    assert!(!decide(30, 1_000_000, 1_288_490_189));
    assert!(!decide(30, 1_000_000, u32::MAX));
}

#[test]
fn decide_probability_one_or_more_always_forwards() {
    // Measured 100 items over 10 seconds (10 per second) with target 30:
    // probability 3, so every draw forwards.
    assert!(decide(30, 10_000_000, u32::MAX));
    assert!(decide(30, 10_000_000, 0));
}

#[test]
fn decide_probability_zero_never_forwards() {
    // A zero-length window means an unmeasurably fast stream: never forward.
    assert!(!decide(30, 0, 0));
    // A zero target forwards nothing.
    assert!(!decide(0, 1_000_000, 0));
}

#[test]
fn decide_sweep_matches_target_share() {
    // 1000 evenly spaced draws at measured 100/s and target 30 forward
    // about 30% of items.
    let mut forwarded: u32 = 0;
    for k in 0..1000u32 {
        if decide(30, 1_000_000, k * 4_294_967) {
            forwarded += 1;
        }
    }
    assert_eq!(forwarded, 301);
}

#[test]
fn decide_random_run_matches_target_share() {
    let mut rng = rand::rng();
    let samples = 10_000u32;
    let mut forwarded: u32 = 0;
    for _ in 0..samples {
        if decide(30, 1_000_000, rng.random::<u32>()) {
            forwarded += 1;
        }
    }
    // Expect about 3000; allow 20% relative error.
    assert!(forwarded > 2400, "forwarded {forwarded} of {samples}");
    assert!(forwarded < 3600, "forwarded {forwarded} of {samples}");
}

#[test]
fn limiter_forwards_nothing_before_first_window() {
    let mut monitor = FPSMonitor::new(30);
    assert_eq!(monitor.measured_rate_millis(), 0);
    for _ in 0..99 {
        assert!(!monitor.limit());
    }
}

#[test]
fn limiter_measures_after_one_window() {
    let mut monitor = FPSMonitor::new(30);
    for _ in 0..100 {
        monitor.limit();
    }
    // One window has completed; a fast loop measures a very high rate.
    assert!(monitor.measured_rate_millis() > 0);
}
