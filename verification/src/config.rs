use vstd::prelude::*;

use crate::text::{parse_u16, parse_u16_spec};

verus! {

broadcast use vstd::string::group_string_axioms;

pub const DEFAULT_PORT: u16 = 8080;
pub const DEFAULT_SHARED_URL: &'static str = "http://localhost:8081";
pub const DEFAULT_LOG_LEVEL: &'static str = "info";
pub const DEFAULT_REDIS_PORT: u16 = 6379;
pub const DEFAULT_REDIS_DB: u16 = 0;
pub const DEFAULT_ENV: &'static str = "dev";

/// Runtime configuration, read from the environment once at startup.
pub struct Config {
    pub port: u16,
    pub shared_url: String,
    pub otlp_endpoint: Option<String>,
    pub log_level: String,
    /// Base URL for `admin-api` (banner messages). Unset by default - the admin client stays
    /// disabled (no network calls, always returns no banners) until this is set.
    pub admin_api_url: Option<String>,
    /// Host of the shared session Redis instance `auth-web` owns - this app only ever reads
    /// it. Unset by default - session reads stay disabled (every visitor reads as
    /// logged-out) until this is set.
    pub shared_session_redis_host: Option<String>,
    pub shared_session_redis_port: u16,
    /// Logical DB index on the shared Redis instance; must match `auth-web`'s own.
    pub shared_session_redis_db: u16,
    /// Password for the shared session Redis instance, unset for an unauthenticated one.
    pub shared_session_redis_pass: Option<String>,
    /// Sentry error-reporting DSN; reporting is a no-op until this is set.
    pub sentry_dsn: Option<String>,
    pub env: String,
}

/// The raw values of the environment variables the configuration is read from, each
/// `None` when the variable is unset (or not valid Unicode).
pub struct ConfigEnv {
    pub port: Option<String>,
    pub shared_url: Option<String>,
    pub otlp_endpoint: Option<String>,
    pub log_level: Option<String>,
    pub admin_api_url: Option<String>,
    pub shared_session_redis_host: Option<String>,
    pub shared_session_redis_port: Option<String>,
    pub shared_session_redis_db: Option<String>,
    pub shared_session_redis_pass: Option<String>,
    pub sentry_dsn: Option<String>,
    pub env: Option<String>,
}

/// A numeric variable: its value when it parses as a `u16`, else `default`.
pub open spec fn number_or(v: Option<String>, default: u16) -> u16 {
    match v {
        Some(s) => match parse_u16_spec(s@) {
            Some(n) => n,
            None => default,
        },
        None => default,
    }
}

/// A text variable: its value, or `default` (given by its characters) when unset.
pub open spec fn text_or(v: Option<String>, default: Seq<char>) -> Seq<char> {
    match v {
        Some(s) => s@,
        None => default,
    }
}

/// An optional variable that counts as unset when empty.
pub open spec fn non_empty(v: Option<String>) -> Option<String> {
    match v {
        Some(s) => if s@.len() > 0 {
            Some(s)
        } else {
            None
        },
        None => None,
    }
}

fn number_var(v: Option<String>, default: u16) -> (res: u16)
    ensures
        res == number_or(v, default),
{
    match v {
        Some(s) => match parse_u16(s.as_str()) {
            Some(n) => n,
            None => default,
        },
        None => default,
    }
}

fn text_var(v: Option<String>, default: &str) -> (res: String)
    ensures
        res@ == text_or(v, default@),
{
    match v {
        Some(s) => s,
        None => default.to_owned(),
    }
}

fn non_empty_var(v: Option<String>) -> (res: Option<String>)
    ensures
        res == non_empty(v),
{
    match v {
        Some(s) => if s.as_str().is_empty() {
            None
        } else {
            Some(s)
        },
        None => None,
    }
}

impl Config {
    /// The configuration the given environment values describe; unparsable numbers and
    /// unset values take their defaults, and empty Redis host/password or Sentry DSN count
    /// as unset.
    pub fn from_vars(vars: ConfigEnv) -> (res: Config)
        ensures
            res.port == number_or(vars.port, DEFAULT_PORT),
            res.shared_url@ == text_or(vars.shared_url, DEFAULT_SHARED_URL@),
            res.otlp_endpoint == vars.otlp_endpoint,
            res.log_level@ == text_or(vars.log_level, DEFAULT_LOG_LEVEL@),
            res.admin_api_url == vars.admin_api_url,
            res.shared_session_redis_host == non_empty(vars.shared_session_redis_host),
            res.shared_session_redis_port == number_or(
                vars.shared_session_redis_port,
                DEFAULT_REDIS_PORT,
            ),
            res.shared_session_redis_db == number_or(vars.shared_session_redis_db, DEFAULT_REDIS_DB),
            res.shared_session_redis_pass == non_empty(vars.shared_session_redis_pass),
            res.sentry_dsn == non_empty(vars.sentry_dsn),
            res.env@ == text_or(vars.env, DEFAULT_ENV@),
    {
        Config {
            port: number_var(vars.port, DEFAULT_PORT),
            shared_url: text_var(vars.shared_url, DEFAULT_SHARED_URL),
            otlp_endpoint: vars.otlp_endpoint,
            log_level: text_var(vars.log_level, DEFAULT_LOG_LEVEL),
            admin_api_url: vars.admin_api_url,
            shared_session_redis_host: non_empty_var(vars.shared_session_redis_host),
            shared_session_redis_port: number_var(vars.shared_session_redis_port, DEFAULT_REDIS_PORT),
            shared_session_redis_db: number_var(vars.shared_session_redis_db, DEFAULT_REDIS_DB),
            shared_session_redis_pass: non_empty_var(vars.shared_session_redis_pass),
            sentry_dsn: non_empty_var(vars.sentry_dsn),
            env: text_var(vars.env, DEFAULT_ENV),
        }
    }
}

/// The OTLP/HTTP endpoint spans are exported to, under the configured collector base URL.
pub fn otlp_traces_endpoint(endpoint: &str) -> (res: String)
    ensures
        res@ == endpoint@ + "/v1/traces"@,
{
    crate::text::join2(endpoint, "/v1/traces")
}

} // verus!
