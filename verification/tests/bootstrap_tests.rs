use playit_manager::bootstrap::{extract_session_id, login_request, session_cookie_value};

#[test]
fn session_id_from_plain_cookie() {
    let id = extract_session_id("__session=abc123; Path=/; HttpOnly");
    assert_eq!(id.as_deref(), Some("abc123"));
}

#[test]
fn session_id_from_single_segment() {
    let id = extract_session_id("__session=xyz");
    assert_eq!(id.as_deref(), Some("xyz"));
}

#[test]
fn session_id_stops_at_second_equals() {
    let id = extract_session_id("__session=abc=def; Path=/");
    assert_eq!(id.as_deref(), Some("abc"));
}

#[test]
fn session_id_missing_equals_is_none() {
    assert_eq!(extract_session_id("nonsense; Path=/"), None);
    assert_eq!(extract_session_id(""), None);
}

#[test]
fn empty_session_value_is_empty_string() {
    let id = extract_session_id("__session=; Path=/");
    assert_eq!(id.as_deref(), Some(""));
}

#[test]
fn cookie_value_carries_the_id() {
    assert_eq!(session_cookie_value("abc123"), "__session=abc123");
}

#[test]
fn login_request_is_exact() {
    let req = login_request("user@example.net", "hunter2");
    assert_eq!(req.url, "https://playit.gg/login?_data=routes%2Flogin");
    assert_eq!(req.body, "_action=login&email=user@example.net&password=hunter2");
}
