use refbox::sim_launch::{build_sim_argv, SimSpawnConfig};

fn make_test_config(verbose: u8, sunlight: bool) -> SimSpawnConfig {
    SimSpawnConfig {
        binary_port: 8001,
        json_port: 8000,
        scale: 4.0f32.to_string(),
        spacing: 1.0f32.to_string(),
        sunlight_mode: sunlight,
        verbose,
        log_location: "/tmp/logs".to_string(),
        log_max_file_size: 5_000_000,
        num_old_logs: 3,
    }
}

#[test]
fn argv_includes_required_flags() {
    let config = make_test_config(0, false);
    let argv = build_sim_argv(&config);
    assert!(argv.contains(&"--is-simulator".to_string()));
    assert!(argv.contains(&"--binary-port".to_string()));
    assert!(argv.contains(&"8001".to_string()));
}

#[test]
fn argv_repeats_verbose_per_count() {
    let config = make_test_config(3, false);
    let argv = build_sim_argv(&config);
    assert_eq!(argv.iter().filter(|a| a.as_str() == "--verbose").count(), 3);
}

#[test]
fn argv_includes_sunlight_flag_only_when_enabled() {
    let off = build_sim_argv(&make_test_config(0, false));
    let on = build_sim_argv(&make_test_config(0, true));
    assert!(!off.contains(&"--simulate-sunlight-display".to_string()));
    assert!(on.contains(&"--simulate-sunlight-display".to_string()));
}

#[test]
fn argv_lists_every_flag_with_its_value_in_order() {
    let argv = build_sim_argv(&make_test_config(2, true));
    let expected: Vec<String> = [
        "--is-simulator",
        "--binary-port",
        "8001",
        "--json-port",
        "8000",
        "--scale",
        "4",
        "--spacing",
        "1",
        "--log-location",
        "/tmp/logs",
        "--log-max-file-size",
        "5000000",
        "--num-old-logs",
        "3",
        "--verbose",
        "--verbose",
        "--simulate-sunlight-display",
    ]
    .iter()
    .map(|s| s.to_string())
    .collect();
    assert_eq!(argv, expected);
}

#[test]
fn argv_writes_zero_and_the_largest_port() {
    let mut config = make_test_config(0, false);
    config.binary_port = 0;
    config.json_port = u16::MAX;
    let argv = build_sim_argv(&config);
    assert_eq!(argv[2], "0");
    assert_eq!(argv[4], "65535");
    assert_eq!(argv.len(), 15);
}
