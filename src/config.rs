//! The service's configuration: the settings that were read, with defaults
//! applied and the sender address validated.
use vstd::prelude::*;
use crate::email::{is_valid_email, EmailAdderess};

verus! {

/// Where the service listens, and the URL it is reached at from outside.
pub struct AppConfig {
    /// `host:port`.
    pub socket_addr: String,
    pub public_url: Option<String>,
}

pub struct DatabaseConfig {
    pub url: String,
}

/// How to reach the email provider.
pub struct EmailClientConfig {
    pub api_url: String,
    pub api_token: String,
    pub sender_email: EmailAdderess,
    pub timeout_ms: u64,
}

pub struct Config {
    pub app: AppConfig,
    pub database: DatabaseConfig,
    pub email_client: EmailClientConfig,
}

/// The settings as read from the configuration file and the environment;
/// `None` where a key is not set.
pub struct Settings {
    pub socket_addr: Option<String>,
    pub public_url: Option<String>,
    pub database_url: Option<String>,
    pub api_url: Option<String>,
    pub api_token: Option<String>,
    pub sender_email: Option<String>,
    pub timeout_ms: Option<u64>,
}

/// A required setting.
#[derive(Debug, Clone, Copy, PartialEq, Eq, Structural)]
pub enum ConfigKey {
    SocketAddr,
    PublicUrl,
    DatabaseUrl,
    ApiUrl,
    SenderEmail,
}

#[derive(Debug, Clone, Copy, PartialEq, Eq, Structural)]
pub enum ConfigError {
    /// A required setting is not set.
    Missing(ConfigKey),
    /// A setting that holds a URL does not parse as one.
    InvalidUrl(ConfigKey),
    /// The sender address is not a valid email address.
    InvalidSenderEmail,
}

pub open spec fn default_api_url() -> Seq<char> {
    "https://api.postmarkapp.com"@
}

pub open spec fn default_api_token() -> Seq<char> {
    "POSTMARK_API_TEST"@
}

pub const DEFAULT_TIMEOUT_MS: u64 = 10000;

/// The text of a setting, or `default` where it is not set.
pub open spec fn or_default(v: Option<String>, default: Seq<char>) -> Seq<char> {
    match v {
        Some(s) => s@,
        None => default,
    }
}

/// Whether `s` parses as an absolute URL.
pub uninterp spec fn parses_as_url(s: Seq<char>) -> bool;

/// Relies on reqwest's `Url::parse` (the url crate): whether the text parses
/// as a URL, which depends on the text alone.
#[verifier::external_body]
fn url_parses(s: &str) -> (r: bool)
    ensures
        r == parses_as_url(s@),
{
    reqwest::Url::parse(s).is_ok()
}

/// What loading `s` fails with, if anything: the first setting that is
/// missing or does not parse, in the order socket address, public URL,
/// database URL, API URL (after its default), sender address.
pub open spec fn load_error(s: Settings) -> Option<ConfigError> {
    if s.socket_addr is None {
        Some(ConfigError::Missing(ConfigKey::SocketAddr))
    } else if s.public_url matches Some(u) && !parses_as_url(u@) {
        Some(ConfigError::InvalidUrl(ConfigKey::PublicUrl))
    } else if s.database_url is None {
        Some(ConfigError::Missing(ConfigKey::DatabaseUrl))
    } else if !parses_as_url(or_default(s.api_url, default_api_url())) {
        Some(ConfigError::InvalidUrl(ConfigKey::ApiUrl))
    } else if s.sender_email is None {
        Some(ConfigError::Missing(ConfigKey::SenderEmail))
    } else if !is_valid_email(s.sender_email->0@) {
        Some(ConfigError::InvalidSenderEmail)
    } else {
        None
    }
}

/// A setting, or the default text.
fn take_or(v: Option<String>, default: &str) -> (r: String)
    ensures
        r@ == or_default(v, default@),
{
    match v {
        Some(s) => s,
        None => String::from_str(default),
    }
}

impl Config {
    /// Builds the configuration from the settings that were read: the API URL,
    /// the API token and the timeout take their defaults where they are not set.
    pub fn load(settings: Settings) -> (r: Result<Config, ConfigError>)
        ensures
            r is Err <==> load_error(settings) is Some,
            r matches Err(e) ==> load_error(settings) == Some(e),
            r matches Ok(c) ==> {
                &&& c.app.socket_addr@ == settings.socket_addr->0@
                &&& c.app.public_url matches Some(u) ==> settings.public_url matches Some(p) && u@ == p@
                &&& c.app.public_url is None ==> settings.public_url is None
                &&& c.database.url@ == settings.database_url->0@
                &&& c.email_client.api_url@ == or_default(settings.api_url, default_api_url())
                &&& c.email_client.api_token@ == or_default(settings.api_token, default_api_token())
                &&& c.email_client.sender_email@ == settings.sender_email->0@
                &&& c.email_client.timeout_ms == match settings.timeout_ms {
                    Some(t) => t,
                    None => DEFAULT_TIMEOUT_MS,
                }
            },
    {
        let ghost given = settings;
        let Settings {
            socket_addr,
            public_url,
            database_url,
            api_url,
            api_token,
            sender_email,
            timeout_ms,
        } = settings;
        let socket_addr = match socket_addr {
            Some(s) => s,
            None => return Err(ConfigError::Missing(ConfigKey::SocketAddr)),
        };
        if let Some(u) = &public_url {
            if !url_parses(u.as_str()) {
                return Err(ConfigError::InvalidUrl(ConfigKey::PublicUrl));
            }
        }
        let database_url = match database_url {
            Some(s) => s,
            None => return Err(ConfigError::Missing(ConfigKey::DatabaseUrl)),
        };
        let api_url = take_or(api_url, "https://api.postmarkapp.com");
        if !url_parses(api_url.as_str()) {
            return Err(ConfigError::InvalidUrl(ConfigKey::ApiUrl));
        }
        let sender_email = match sender_email {
            Some(s) => match EmailAdderess::new(s) {
                Ok(e) => e,
                Err(_) => return Err(ConfigError::InvalidSenderEmail),
            },
            None => return Err(ConfigError::Missing(ConfigKey::SenderEmail)),
        };
        let api_token = take_or(api_token, "POSTMARK_API_TEST");
        let timeout_ms = match timeout_ms {
            Some(t) => t,
            None => DEFAULT_TIMEOUT_MS,
        };
        Ok(
            Config {
                app: AppConfig { socket_addr, public_url },
                database: DatabaseConfig { url: database_url },
                email_client: EmailClientConfig { api_url, api_token, sender_email, timeout_ms },
            },
        )
    }
}

/// The URL the service is reached at: the public URL where one is set, else
/// `http://` and the socket address.
pub open spec fn base_url_of(public_url: Option<Seq<char>>, socket_addr: Seq<char>) -> Seq<char> {
    match public_url {
        Some(u) => u,
        None => "http://"@ + socket_addr,
    }
}

impl AppConfig {
    pub fn base_url(&self) -> (r: String)
        ensures
            r@ == base_url_of(
                match self.public_url {
                    Some(u) => Some(u@),
                    None => None,
                },
                self.socket_addr@,
            ),
    {
        match &self.public_url {
            Some(u) => u.clone(),
            None => {
                let mut r = String::from_str("http://");
                r.append(self.socket_addr.as_str());
                r
            },
        }
    }
}

} // verus!
