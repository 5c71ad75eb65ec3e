use kuren::config::{Config, ConfigError};
use kuren::grpc::{step_error, authorization_value, ensure_token, refresh_failed, refresh_succeeded, token_expired, uses_tls, SessionError, TokenStep};
use kuren::commands::logout;

fn config_with(access: Option<&str>, refresh: Option<&str>, expires: Option<i64>) -> Config {
    Config {
        server_url: None,
        access_token: access.map(|s| s.to_string()),
        refresh_token: refresh.map(|s| s.to_string()),
        token_expires_at: expires,
        handle: Some("bot".to_string()),
    }
}

#[test]
fn default_config_is_empty() {
    let c = Config::default();
    assert!(c.server_url.is_none());
    assert!(c.access_token.is_none());
    assert!(c.refresh_token.is_none());
    assert!(c.token_expires_at.is_none());
    assert!(c.handle.is_none());
}

#[test]
fn server_url_defaults_to_kuren() {
    let c = Config::default();
    assert_eq!(c.server_url(), "https://kya.kuren.ai");
    let mut d = Config::default();
    d.server_url = Some("http://localhost:50051".to_string());
    assert_eq!(d.server_url(), "http://localhost:50051");
}

#[test]
fn clear_tokens_logs_out() {
    let mut c = config_with(Some("a"), Some("r"), Some(100));
    assert!(c.is_logged_in());
    c.clear_tokens();
    assert!(!c.is_logged_in());
    assert!(c.access_token.is_none());
    assert!(c.refresh_token.is_none());
    assert!(c.token_expires_at.is_none());
    assert_eq!(c.handle.as_deref(), Some("bot"));
}

#[test]
fn logged_in_with_either_token() {
    assert!(config_with(Some("a"), None, None).is_logged_in());
    assert!(config_with(None, Some("r"), None).is_logged_in());
    assert!(!config_with(None, None, Some(5)).is_logged_in());
}

#[test]
fn dir_and_path_from_home() {
    assert_eq!(Config::dir_from_home(Some("/home/alice".to_string())).unwrap(), "/home/alice/.kuren");
    assert_eq!(Config::dir_from_home(Some("/home/alice/".to_string())).unwrap(), "/home/alice/.kuren");
    assert_eq!(Config::path_from_home(Some("/root".to_string())).unwrap(), "/root/.kuren/config.toml");
    assert_eq!(Config::path_from_home(Some("".to_string())).unwrap(), ".kuren/config.toml");
    assert_eq!(Config::dir_from_home(None).unwrap_err(), ConfigError::NoHomeDirectory);
    assert_eq!(ConfigError::NoHomeDirectory.message(), "Could not find home directory");
}

#[test]
fn path_ends_with_config_file() {
    if let Ok(p) = Config::path() {
        assert!(p.ends_with("/.kuren/config.toml"));
        assert!(p.starts_with(&Config::dir().unwrap()));
    }
}

#[test]
fn fresh_token_is_used() {
    let c = config_with(Some("acc"), Some("ref"), Some(1000));
    match ensure_token(&c, 969) {
        TokenStep::Use(t) => assert_eq!(t, "acc"),
        other => panic!("unexpected {:?}", other),
    }
}

#[test]
fn token_within_margin_is_refreshed() {
    let c = config_with(Some("acc"), Some("ref"), Some(1000));
    match ensure_token(&c, 970) {
        TokenStep::Refresh(r) => assert_eq!(r, "ref"),
        other => panic!("unexpected {:?}", other),
    }
}

#[test]
fn token_without_expiry_is_used() {
    let c = config_with(Some("acc"), None, None);
    match ensure_token(&c, i64::MAX) {
        TokenStep::Use(t) => assert_eq!(t, "acc"),
        other => panic!("unexpected {:?}", other),
    }
}

#[test]
fn expired_without_refresh_needs_login() {
    let c = config_with(Some("acc"), None, Some(10));
    assert!(matches!(ensure_token(&c, 100), TokenStep::NotLoggedIn));
    let d = config_with(None, None, None);
    assert!(matches!(ensure_token(&d, 0), TokenStep::NotLoggedIn));
}

#[test]
fn missing_access_token_uses_refresh() {
    let c = config_with(None, Some("ref"), None);
    match ensure_token(&c, 0) {
        TokenStep::Refresh(r) => assert_eq!(r, "ref"),
        other => panic!("unexpected {:?}", other),
    }
}

#[test]
fn token_expired_at_extremes() {
    assert!(token_expired(i64::MIN, 0));
    assert!(!token_expired(i64::MAX, 0));
    assert!(token_expired(30, 0));
    assert!(!token_expired(31, 0));
}

#[test]
fn refresh_success_records_tokens_and_is_reused() {
    let mut c = config_with(Some("old"), Some("oldr"), Some(10));
    let t = refresh_succeeded(&mut c, 1000, "new".to_string(), "newr".to_string(), 900);
    assert_eq!(t, "new");
    assert_eq!(c.access_token.as_deref(), Some("new"));
    assert_eq!(c.refresh_token.as_deref(), Some("newr"));
    assert_eq!(c.token_expires_at, Some(1900));
    match ensure_token(&c, 1869) {
        TokenStep::Use(t) => assert_eq!(t, "new"),
        other => panic!("unexpected {:?}", other),
    }
}

#[test]
fn refresh_failure_clears_session() {
    let mut c = config_with(Some("old"), Some("oldr"), Some(10));
    let e = refresh_failed(&mut c);
    assert_eq!(e, SessionError::SessionExpired);
    assert!(!c.is_logged_in());
    assert_eq!(e.message(), "Session expired. Run 'kuren login' to re-authenticate.");
    assert_eq!(SessionError::NotLoggedIn.message(), "Not logged in. Run 'kuren login' first.");
}

#[test]
fn record_tokens_sets_expiry() {
    let mut c = Config::default();
    c.record_tokens(100, "a".to_string(), "r".to_string(), 900);
    assert_eq!(c.token_expires_at, Some(1000));
    assert!(c.is_logged_in());
}

#[test]
fn bearer_header() {
    assert_eq!(authorization_value("tok123"), "Bearer tok123");
    assert_eq!(authorization_value(""), "Bearer ");
}

#[test]
fn tls_only_for_https() {
    assert!(uses_tls("https://kya.kuren.ai"));
    assert!(!uses_tls("http://localhost:8080"));
    assert!(!uses_tls("https:/"));
}

#[test]
fn logout_clears_only_a_session() {
    let mut c = config_with(Some("a"), Some("r"), Some(1));
    assert!(logout::run(&mut c));
    assert!(!c.is_logged_in());
    assert_eq!(logout::outcome_line(true), "Logged out successfully.");
    let mut d = config_with(None, None, None);
    assert!(!logout::run(&mut d));
    assert_eq!(logout::outcome_line(false), "Not logged in.");
}

#[test]
fn only_a_missing_session_stops_the_command() {
    assert_eq!(step_error(&TokenStep::NotLoggedIn), Some(SessionError::NotLoggedIn));
    assert_eq!(step_error(&TokenStep::Use("a".to_string())), None);
    assert_eq!(step_error(&TokenStep::Refresh("r".to_string())), None);
}
