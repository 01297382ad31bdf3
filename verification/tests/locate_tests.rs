use tauri_webdriver::locate::{resolve_driver, LocateError, FATAL_EXIT_CODE};
use tauri_webdriver::supervisor::{build_native_command, driver_binary_name, NativeDriverConfig, Platform};

#[test]
fn fatal_outcomes_exit_nonzero() {
    assert_eq!(FATAL_EXIT_CODE, 1);
}

#[test]
fn an_existing_override_wins() {
    let r = resolve_driver(
        Some("/opt/driver".to_string()),
        true,
        Err("ignored".to_string()),
        Platform::Linux,
    );
    assert_eq!(r.ok().as_deref(), Some("/opt/driver"));
}

#[test]
fn a_missing_override_is_fatal_and_names_path_and_cwd() {
    let r = resolve_driver(
        Some("/no/such/driver".to_string()),
        false,
        Ok("ignored".to_string()),
        Platform::Linux,
    );
    match r {
        Err(e @ LocateError::OverrideMissing { .. }) => {
            let message = e.message("/work/dir");
            assert!(message.contains("/no/such/driver"));
            assert!(message.contains("/work/dir"));
        },
        _ => panic!("a missing override must be fatal"),
    }
}

#[test]
fn a_failed_search_is_fatal_and_names_the_expected_binary() {
    let r = resolve_driver(
        None,
        false,
        Err("cannot find binary path".to_string()),
        Platform::Linux,
    );
    match r {
        Err(e @ LocateError::NotFoundInPath { .. }) => {
            let message = e.message("/work/dir");
            assert!(message.contains("WebKitWebDriver"));
            assert!(message.contains("cannot find binary path"));
        },
        _ => panic!("a failed search must be fatal"),
    }
}

#[test]
fn a_successful_search_resolves() {
    let r = resolve_driver(None, false, Ok("/usr/bin/WebKitWebDriver".to_string()), Platform::Linux);
    assert_eq!(r.ok().as_deref(), Some("/usr/bin/WebKitWebDriver"));
}

#[test]
fn each_platform_has_its_binary_name() {
    assert_eq!(driver_binary_name(Platform::Linux), "WebKitWebDriver");
    assert_eq!(driver_binary_name(Platform::Windows), "msedgedriver.exe");
}

#[test]
fn the_invocation_carries_the_automation_contract() {
    let config = NativeDriverConfig {
        executable: "/usr/bin/WebKitWebDriver".to_string(),
        port: 4445,
        host: "127.0.0.1".to_string(),
    };
    let c = build_native_command(config, Platform::Linux);
    assert_eq!(c.program, "/usr/bin/WebKitWebDriver");
    assert_eq!(c.env.len(), 2);
    assert_eq!(c.env[0], ("TAURI_AUTOMATION".to_string(), "true".to_string()));
    assert_eq!(c.env[1], ("TAURI_WEBVIEW_AUTOMATION".to_string(), "true".to_string()));
    assert_eq!(c.args, vec!["--port=4445", "--host=127.0.0.1"]);
    assert!(!c.suppress_window);
}

#[test]
fn windows_spawns_suppress_console_windows() {
    let config = NativeDriverConfig {
        executable: "msedgedriver.exe".to_string(),
        port: 9999,
        host: "localhost".to_string(),
    };
    let c = build_native_command(config, Platform::Windows);
    assert_eq!(c.args, vec!["--port=9999", "--host=localhost"]);
    assert!(c.suppress_window);
}
