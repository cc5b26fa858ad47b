use main_web::config::{otlp_traces_endpoint, Config, ConfigEnv};
use main_web::text::parse_u16;

fn env() -> ConfigEnv {
    ConfigEnv {
        port: None,
        shared_url: None,
        otlp_endpoint: None,
        log_level: None,
        admin_api_url: None,
        shared_session_redis_host: None,
        shared_session_redis_port: None,
        shared_session_redis_db: None,
        shared_session_redis_pass: None,
        sentry_dsn: None,
        env: None,
    }
}

#[test]
fn unset_environment_gives_the_defaults() {
    let c = Config::from_vars(env());
    assert_eq!(c.port, 8080);
    assert_eq!(c.shared_url, "http://localhost:8081");
    assert_eq!(c.log_level, "info");
    assert_eq!(c.shared_session_redis_port, 6379);
    assert_eq!(c.shared_session_redis_db, 0);
    assert_eq!(c.env, "dev");
    assert!(c.admin_api_url.is_none());
    assert!(c.shared_session_redis_host.is_none());
    assert!(c.otlp_endpoint.is_none());
}

#[test]
fn set_values_are_taken_and_empty_secrets_count_as_unset() {
    let mut e = env();
    e.port = Some("9000".to_string());
    e.shared_session_redis_host = Some(String::new());
    e.shared_session_redis_pass = Some(String::new());
    e.sentry_dsn = Some("https://key@sentry".to_string());
    e.otlp_endpoint = Some(String::new());
    e.shared_session_redis_db = Some("2".to_string());
    let c = Config::from_vars(e);
    assert_eq!(c.port, 9000);
    assert!(c.shared_session_redis_host.is_none());
    assert!(c.shared_session_redis_pass.is_none());
    assert_eq!(c.sentry_dsn.as_deref(), Some("https://key@sentry"));
    assert_eq!(c.otlp_endpoint.as_deref(), Some(""));
    assert_eq!(c.shared_session_redis_db, 2);
}

#[test]
fn unparsable_numbers_fall_back() {
    let mut e = env();
    e.port = Some("80a".to_string());
    e.shared_session_redis_port = Some("70000".to_string());
    let c = Config::from_vars(e);
    assert_eq!(c.port, 8080);
    assert_eq!(c.shared_session_redis_port, 6379);
}

#[test]
fn u16_parsing_matches_std() {
    for s in ["0", "65535", "65536", "+7", "+", "-1", "", " 1", "007", "99999999999", "12x"] {
        assert_eq!(parse_u16(s), s.parse::<u16>().ok(), "{s}");
    }
}

#[test]
fn traces_endpoint_appends_the_otlp_path() {
    assert_eq!(otlp_traces_endpoint("http://collector:4318"), "http://collector:4318/v1/traces");
}
