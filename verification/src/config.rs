//! Process configuration. The shell reads the environment and a raw
//! configuration document; this module decides defaults and validates,
//! so the rest of the code takes plain values.

pub mod validate;

use crate::text::str_eq;
use vstd::prelude::*;

verus! {

/// Output format for application logs.
#[derive(Clone, Copy, Debug, PartialEq, Eq, Structural)]
pub enum LogFormat {
    Text,
    Json,
}

/// The server's startup settings.
#[derive(Clone, Debug, PartialEq, Eq)]
pub struct Config {
    /// Address the HTTP server binds. Pinned to loopback by the service
    /// unit so the reverse proxy is the only way in.
    pub bind_addr: String,
    /// SQLite file path. Its parent directory is created on open.
    pub database_path: String,
    /// ISO 639-1 code of the pivot language every Term is translated to.
    /// App-wide, not stored per Term.
    pub pivot_lang: String,
    pub log_format: LogFormat,
}

/// The value a setting takes: the one supplied, else the default.
pub open spec fn setting_or(supplied: Option<String>, default: Seq<char>) -> Seq<char> {
    match supplied {
        Some(s) => s@,
        None => default,
    }
}

fn value_or(supplied: Option<String>, default: &str) -> (s: String)
    ensures
        s@ == setting_or(supplied, default@),
{
    match supplied {
        Some(s) => s,
        None => String::from_str(default),
    }
}

impl Config {
    /// The configuration from the values of `BIND_ADDR`, `DATABASE_PATH`,
    /// `PIVOT_LANG` and `LOG_FORMAT` (each `None` when unset): unset settings
    /// take their defaults, and logs are JSON only when `LOG_FORMAT` is
    /// exactly `json`.
    pub fn from_values(
        bind_addr: Option<String>,
        database_path: Option<String>,
        pivot_lang: Option<String>,
        log_format: Option<String>,
    ) -> (c: Config)
        ensures
            c.bind_addr@ == setting_or(bind_addr, "127.0.0.1:8081"@),
            c.database_path@ == setting_or(database_path, "./data/flashcards.db"@),
            c.pivot_lang@ == setting_or(pivot_lang, "en"@),
            c.log_format == (if log_format matches Some(f) && f@ == "json"@ {
                LogFormat::Json
            } else {
                LogFormat::Text
            }),
    {
        let format = match &log_format {
            Some(f) => if str_eq(f.as_str(), "json") {
                LogFormat::Json
            } else {
                LogFormat::Text
            },
            None => LogFormat::Text,
        };
        Config {
            bind_addr: value_or(bind_addr, "127.0.0.1:8081"),
            database_path: value_or(database_path, "./data/flashcards.db"),
            pivot_lang: value_or(pivot_lang, "en"),
            log_format: format,
        }
    }
}

/// The `logging` section of a raw configuration document.
#[derive(Clone, Debug, PartialEq, Eq)]
pub struct RawLoggingConfig {
    pub format: String,
    pub level: String,
}

/// A configuration document as read, before validation. `A` carries the
/// scheduling-algorithm defaults, which validation passes through untouched.
#[derive(Clone, Debug, PartialEq)]
pub struct RawConfig<A> {
    pub database_url: String,
    pub migrations_path: String,
    pub host: String,
    pub port: u16,
    pub session_inactivity_timeout_minutes: i64,
    pub cookie_lifetime_days: i64,
    pub question_count_min: u32,
    pub question_count_max: u32,
    pub incorrect_distractor_count: u32,
    pub supported_languages: Vec<String>,
    pub algorithm_defaults: A,
    pub logging: RawLoggingConfig,
}

} // verus!
