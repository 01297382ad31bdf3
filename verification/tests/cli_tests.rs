use tauri_webdriver::cli::{parse_cli, Args, CliOutcome, DEFAULT_NATIVE_PORT, DEFAULT_PORT};

fn args(tokens: &[&str]) -> Vec<String> {
    tokens.iter().map(|t| t.to_string()).collect()
}

fn expect_run(outcome: CliOutcome) -> Args {
    match outcome {
        CliOutcome::Run(a) => a,
        CliOutcome::Help => panic!("expected a configuration, got help"),
        CliOutcome::Error { offending } => panic!("expected a configuration, got error on {offending}"),
    }
}

fn expect_error(outcome: CliOutcome) -> String {
    match outcome {
        CliOutcome::Error { offending } => offending,
        _ => panic!("expected a rejection"),
    }
}

#[test]
fn defaults_when_no_arguments() {
    let a = expect_run(parse_cli(&args(&[])));
    assert_eq!(a.port, DEFAULT_PORT);
    assert_eq!(a.port, 4444);
    assert_eq!(a.native_port, DEFAULT_NATIVE_PORT);
    assert_eq!(a.native_port, 4445);
    assert_eq!(a.native_host, "127.0.0.1");
    assert!(a.native_driver.is_none());
}

#[test]
fn parses_every_flag() {
    let a = expect_run(parse_cli(&args(&[
        "--port",
        "5555",
        "--native-port",
        "6666",
        "--native-host",
        "0.0.0.0",
        "--native-driver",
        "/opt/driver/bin",
    ])));
    assert_eq!(a.port, 5555);
    assert_eq!(a.native_port, 6666);
    assert_eq!(a.native_host, "0.0.0.0");
    assert_eq!(a.native_driver.as_deref(), Some("/opt/driver/bin"));
}

#[test]
fn help_wins_over_everything() {
    assert!(matches!(parse_cli(&args(&["--bogus", "-h"])), CliOutcome::Help));
    assert!(matches!(parse_cli(&args(&["--help"])), CliOutcome::Help));
    assert!(matches!(parse_cli(&args(&["--port", "1", "--help"])), CliOutcome::Help));
}

#[test]
fn rejects_unknown_argument() {
    assert_eq!(expect_error(parse_cli(&args(&["--wat"]))), "--wat");
}

#[test]
fn rejects_bad_port_number() {
    assert_eq!(expect_error(parse_cli(&args(&["--port", "abc"]))), "abc");
}

#[test]
fn rejects_port_out_of_range() {
    assert_eq!(expect_error(parse_cli(&args(&["--port", "70000"]))), "70000");
}

#[test]
fn rejects_duplicate_flag() {
    assert_eq!(expect_error(parse_cli(&args(&["--port", "1", "--port", "2"]))), "--port");
}

#[test]
fn rejects_missing_value() {
    assert_eq!(expect_error(parse_cli(&args(&["--native-host"]))), "--native-host");
}
