use tauri_webdriver::payload::{extract_session_id, find_from};

#[test]
fn finds_first_occurrences() {
    assert_eq!(find_from("abcabc", "bc", 0), Some(1));
    assert_eq!(find_from("abcabc", "bc", 2), Some(4));
    assert_eq!(find_from("abcabc", "bd", 0), None);
    assert_eq!(find_from("abc", "", 1), Some(1));
    assert_eq!(find_from("abc", "abcd", 0), None);
}

#[test]
fn reads_the_downstream_session_id() {
    let body = r#"{"value":{"sessionId":"7f2a-11","capabilities":{}}}"#;
    assert_eq!(extract_session_id(body).as_deref(), Some("7f2a-11"));
}

#[test]
fn reads_only_the_first_session_id() {
    let body = r#"{"sessionId":"one","sessionId":"two"}"#;
    assert_eq!(extract_session_id(body).as_deref(), Some("one"));
}

#[test]
fn yields_nothing_without_a_session_id() {
    assert_eq!(extract_session_id(r#"{"value":null}"#), None);
    assert_eq!(extract_session_id(""), None);
    assert_eq!(extract_session_id(r#"{"sessionId":"unterminated"#), None);
}

#[test]
fn an_empty_session_id_is_still_an_id() {
    assert_eq!(extract_session_id(r#"{"sessionId":""}"#).as_deref(), Some(""));
}
