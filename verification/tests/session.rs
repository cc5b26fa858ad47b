use main_web::session::{session_key, session_redis_url, session_user_json, SESSION_COOKIE_NAME};

#[test]
fn redis_url_without_password() {
    assert_eq!(session_redis_url("127.0.0.1", 6379, 0, None), "redis://127.0.0.1:6379/0");
    assert_eq!(session_redis_url("redis", 1, 2, None), "redis://redis:1/2");
}

#[test]
fn redis_url_with_password() {
    assert_eq!(
        session_redis_url("127.0.0.1", 65535, 15, Some("s3cret")),
        "redis://:s3cret@127.0.0.1:65535/15"
    );
}

#[test]
fn session_key_uses_the_session_driver_prefix() {
    assert_eq!(session_key("abc"), "vrs-abc");
    assert_eq!(SESSION_COOKIE_NAME, "sweetrpg_session");
}

#[test]
fn user_entry_is_extracted_from_session_data() {
    let raw = r#"{"user":"{\"sub\":\"1\",\"name\":\"Alice\",\"roles\":[]}","other":"x"}"#;
    assert_eq!(
        session_user_json(raw, 1_000).as_deref(),
        Some(r#"{"sub":"1","name":"Alice","roles":[]}"#)
    );
}

#[test]
fn malformed_or_userless_session_reads_as_logged_out() {
    assert_eq!(session_user_json("not json", 0), None);
    assert_eq!(session_user_json(r#"{"user": 3}"#, 0), None);
    assert_eq!(session_user_json(r#"{"other":"x"}"#, 0), None);
    assert_eq!(session_user_json("[]", 0), None);
}

#[test]
fn expired_session_reads_as_logged_out() {
    let raw = r#"{"user":"{}","expires_at":"1000"}"#;
    assert_eq!(session_user_json(raw, 999).as_deref(), Some("{}"));
    assert_eq!(session_user_json(raw, 1000), None);
    assert_eq!(session_user_json(raw, 5000), None);
}

#[test]
fn unreadable_expiry_reads_as_logged_out() {
    assert_eq!(session_user_json(r#"{"user":"{}","expires_at":"soon"}"#, 0), None);
    assert_eq!(session_user_json(r#"{"user":"{}","expires_at":""}"#, 0), None);
}
