use tauri_webdriver::route::{
    classify, command_end, parse_method, split_path, target_of, Method, RemoteEnd, Route,
    RouteTarget,
};

#[test]
fn splits_paths_on_slashes() {
    assert_eq!(split_path("/session/1/url"), vec!["", "session", "1", "url"]);
    assert_eq!(split_path("/session"), vec!["", "session"]);
    assert_eq!(split_path(""), vec![""]);
    assert_eq!(split_path("//"), vec!["", "", ""]);
    assert_eq!(split_path("a/b"), vec!["a", "b"]);
}

#[test]
fn reads_methods() {
    assert_eq!(parse_method("GET"), Some(Method::Get));
    assert_eq!(parse_method("POST"), Some(Method::Post));
    assert_eq!(parse_method("DELETE"), Some(Method::Delete));
    assert_eq!(parse_method("PATCH"), None);
}

#[test]
fn classifies_session_lifecycle_commands() {
    let segs = split_path("/session");
    assert!(matches!(classify(Method::Post, &segs), Route::NewSession));
    assert!(matches!(classify(Method::Get, &segs), Route::Malformed));

    let segs = split_path("/session/7");
    match classify(Method::Delete, &segs) {
        Route::DeleteSession { id_text } => assert_eq!(id_text, "7"),
        _ => panic!("expected a delete-session classification"),
    }
    assert!(matches!(classify(Method::Post, &segs), Route::Malformed));
}

#[test]
fn classifies_session_commands() {
    let segs = split_path("/session/7/element/active");
    match classify(Method::Post, &segs) {
        Route::SessionCommand { id_text, first } => {
            assert_eq!(id_text, "7");
            assert_eq!(first, "element");
        },
        _ => panic!("expected a session command"),
    }
}

#[test]
fn rejects_foreign_paths() {
    assert!(matches!(classify(Method::Get, &split_path("/status")), Route::Malformed));
    assert!(matches!(classify(Method::Get, &split_path("session/1/url")), Route::Malformed));
    assert!(matches!(classify(Method::Get, &split_path("")), Route::Malformed));
}

#[test]
fn routing_targets_follow_the_table() {
    let new_session = classify(Method::Post, &split_path("/session"));
    assert_eq!(target_of(&new_session), Some(RouteTarget::Both));

    let delete = classify(Method::Delete, &split_path("/session/3"));
    assert_eq!(target_of(&delete), Some(RouteTarget::Both));

    let actions = classify(Method::Post, &split_path("/session/3/actions"));
    assert_eq!(target_of(&actions), Some(RouteTarget::NativeOnly));

    let release = classify(Method::Delete, &split_path("/session/3/actions"));
    assert_eq!(target_of(&release), Some(RouteTarget::NativeOnly));

    let url = classify(Method::Post, &split_path("/session/3/url"));
    assert_eq!(target_of(&url), Some(RouteTarget::PluginOnly));

    let malformed = classify(Method::Get, &split_path("/status"));
    assert_eq!(target_of(&malformed), None);
}

#[test]
fn routing_is_deterministic_across_repeated_calls() {
    for _ in 0..3 {
        let a = classify(Method::Post, &split_path("/session/9/actions"));
        let b = classify(Method::Post, &split_path("/session/9/actions"));
        assert_eq!(target_of(&a), target_of(&b));
        assert_eq!(target_of(&a), Some(RouteTarget::NativeOnly));
        match (a, b) {
            (
                Route::SessionCommand { id_text: i1, first: f1 },
                Route::SessionCommand { id_text: i2, first: f2 },
            ) => {
                assert_eq!(i1, i2);
                assert_eq!(f1, f2);
            },
            _ => panic!("classification changed shape between calls"),
        }
    }
}

#[test]
fn command_end_table() {
    assert_eq!(command_end("actions"), RemoteEnd::NativeDriver);
    assert_eq!(command_end("url"), RemoteEnd::Plugin);
    assert_eq!(command_end("element"), RemoteEnd::Plugin);
}
