use mailmule::config::{AppConfig, Config, ConfigError, ConfigKey, Settings, DEFAULT_TIMEOUT_MS};
use mailmule::{AuthError, ServerError};

fn settings() -> Settings {
    Settings {
        socket_addr: Some("127.0.0.1:8000".into()),
        public_url: None,
        database_url: Some("postgres://localhost/newsletter".into()),
        api_url: None,
        api_token: None,
        sender_email: Some("news@example.com".into()),
        timeout_ms: None,
    }
}

#[test]
fn defaults_apply() {
    let c = Config::load(settings()).unwrap();
    assert_eq!(c.email_client.api_url, "https://api.postmarkapp.com");
    assert_eq!(c.email_client.api_token, "POSTMARK_API_TEST");
    assert_eq!(c.email_client.timeout_ms, 10000);
    assert_eq!(DEFAULT_TIMEOUT_MS, 10000);
    assert_eq!(c.email_client.sender_email.as_str(), "news@example.com");
    assert_eq!(c.app.base_url(), "http://127.0.0.1:8000");
}

#[test]
fn given_settings_win() {
    let mut s = settings();
    s.api_url = Some("http://mock".into());
    s.api_token = Some("SECRET-REDACTED".into());
    s.timeout_ms = Some(250);
    s.public_url = Some("https://news.example.com/".into());
    let c = Config::load(s).unwrap();
    assert_eq!(c.email_client.api_url, "http://mock");
    assert_eq!(c.email_client.api_token, "SECRET-REDACTED");
    assert_eq!(c.email_client.timeout_ms, 250);
    assert_eq!(c.app.base_url(), "https://news.example.com/");
}

#[test]
fn missing_and_invalid_settings() {
    let mut s = settings();
    s.socket_addr = None;
    assert!(matches!(Config::load(s), Err(ConfigError::Missing(ConfigKey::SocketAddr))));
    let mut s = settings();
    s.database_url = None;
    assert!(matches!(Config::load(s), Err(ConfigError::Missing(ConfigKey::DatabaseUrl))));
    let mut s = settings();
    s.sender_email = None;
    assert!(matches!(Config::load(s), Err(ConfigError::Missing(ConfigKey::SenderEmail))));
    let mut s = settings();
    s.sender_email = Some("news".into());
    assert!(matches!(Config::load(s), Err(ConfigError::InvalidSenderEmail)));
}

#[test]
fn base_url_from_socket() {
    let a = AppConfig { socket_addr: "0.0.0.0:3000".into(), public_url: None };
    assert_eq!(a.base_url(), "http://0.0.0.0:3000");
}

#[test]
fn server_errors() {
    let e = ServerError::unexpected("boom".into());
    assert_eq!(e.status(), 500);
    assert_eq!(e.message(), "boom");
    let a = ServerError::Auth(AuthError::UserNotFound);
    assert_eq!(a.status(), 401);
    assert_eq!(a.message(), "No such user is found");
    assert_eq!(AuthError::IncorrectPassword.message(), "Password does not match");
}

#[test]
fn urls_that_do_not_parse_are_refused() {
    let mut s = settings();
    s.api_url = Some("not a url".into());
    assert!(matches!(Config::load(s), Err(ConfigError::InvalidUrl(ConfigKey::ApiUrl))));
    let mut s = settings();
    s.public_url = Some("not a url".into());
    assert!(matches!(Config::load(s), Err(ConfigError::InvalidUrl(ConfigKey::PublicUrl))));
    // The public URL is checked before the database URL is looked for.
    let mut s = settings();
    s.public_url = Some("::".into());
    s.database_url = None;
    assert!(matches!(Config::load(s), Err(ConfigError::InvalidUrl(ConfigKey::PublicUrl))));
}
