//! Pure validation of raw configuration input into a well-formed [`Config`].

use super::{RawConfig, RawLoggingConfig};
use crate::text::{is_blank, is_blank_chars, str_eq};
use vstd::prelude::*;

verus! {

/// A validated configuration. `A` carries the scheduling-algorithm
/// defaults, passed through from the raw document.
#[derive(Clone, Debug, PartialEq)]
pub struct Config<A> {
    pub database_url: String,
    pub migrations_path: String,
    pub host: String,
    pub port: u16,
    pub session_inactivity_timeout_minutes: i64,
    pub cookie_lifetime_days: i64,
    pub question_count_min: u32,
    pub question_count_max: u32,
    pub incorrect_distractor_count: u32,
    pub supported_languages: Vec<String>,
    pub algorithm_defaults: A,
    pub logging: LoggingConfig,
}

/// Output format for application logs.
#[derive(Clone, Copy, Debug, PartialEq, Eq, Structural)]
pub enum LogFormat {
    Text,
    Json,
}

/// The validated `logging` section.
#[derive(Clone, Debug, PartialEq, Eq)]
pub struct LoggingConfig {
    pub format: LogFormat,
    /// A log filter directive, e.g. `"info"` or `"server=debug"`. Its
    /// grammar is checked at startup by the logging library, not here.
    pub level: String,
}

/// Why a raw configuration was rejected.
#[derive(Clone, Copy, Debug, PartialEq, Eq, Structural)]
pub enum ConfigError {
    EmptyDatabaseUrl,
    EmptyMigrationsPath,
    EmptySupportedLanguages,
    QuestionCountMinTooLow,
    QuestionCountMinExceedsMax,
    IncorrectDistractorCountTooLow,
    NonPositiveSessionTimeout,
    NonPositiveCookieLifetime,
    InvalidLogFormat,
    EmptyLogLevel,
}

/// The message of each configuration error.
pub open spec fn config_error_message(e: ConfigError) -> Seq<char> {
    match e {
        ConfigError::EmptyDatabaseUrl => "database_url must not be empty"@,
        ConfigError::EmptyMigrationsPath => "migrations_path must not be empty"@,
        ConfigError::EmptySupportedLanguages => "supported_languages must not be empty"@,
        ConfigError::QuestionCountMinTooLow => "question_count_min must be at least 1"@,
        ConfigError::QuestionCountMinExceedsMax => "question_count_min must not exceed question_count_max"@,
        ConfigError::IncorrectDistractorCountTooLow => "incorrect_distractor_count must be at least 1"@,
        ConfigError::NonPositiveSessionTimeout => "session_inactivity_timeout_minutes must be positive"@,
        ConfigError::NonPositiveCookieLifetime => "cookie_lifetime_days must be positive"@,
        ConfigError::InvalidLogFormat => "logging.format must be \"text\" or \"json\""@,
        ConfigError::EmptyLogLevel => "logging.level must not be empty"@,
    }
}

impl ConfigError {
    /// The human-readable message.
    pub fn to_string(&self) -> (s: String)
        ensures
            s@ == config_error_message(*self),
    {
        match self {
            ConfigError::EmptyDatabaseUrl => String::from_str("database_url must not be empty"),
            ConfigError::EmptyMigrationsPath => String::from_str("migrations_path must not be empty"),
            ConfigError::EmptySupportedLanguages => String::from_str(
                "supported_languages must not be empty",
            ),
            ConfigError::QuestionCountMinTooLow => String::from_str(
                "question_count_min must be at least 1",
            ),
            ConfigError::QuestionCountMinExceedsMax => String::from_str(
                "question_count_min must not exceed question_count_max",
            ),
            ConfigError::IncorrectDistractorCountTooLow => String::from_str(
                "incorrect_distractor_count must be at least 1",
            ),
            ConfigError::NonPositiveSessionTimeout => String::from_str(
                "session_inactivity_timeout_minutes must be positive",
            ),
            ConfigError::NonPositiveCookieLifetime => String::from_str(
                "cookie_lifetime_days must be positive",
            ),
            ConfigError::InvalidLogFormat => String::from_str(
                "logging.format must be \"text\" or \"json\"",
            ),
            ConfigError::EmptyLogLevel => String::from_str("logging.level must not be empty"),
        }
    }
}

/// The log format a raw `logging.format` names, if any.
pub open spec fn log_format_named(raw: Seq<char>) -> Option<LogFormat> {
    if raw == "text"@ {
        Some(LogFormat::Text)
    } else if raw == "json"@ {
        Some(LogFormat::Json)
    } else {
        None
    }
}

/// The first problem with a raw `logging` section, if any.
pub open spec fn logging_error(raw: RawLoggingConfig) -> Option<ConfigError> {
    if log_format_named(raw.format@) is None {
        Some(ConfigError::InvalidLogFormat)
    } else if is_blank_chars(raw.level@) {
        Some(ConfigError::EmptyLogLevel)
    } else {
        None
    }
}

/// The first problem with a raw configuration, checked in a fixed order,
/// if any.
pub open spec fn config_error<A>(raw: RawConfig<A>) -> Option<ConfigError> {
    if is_blank_chars(raw.database_url@) {
        Some(ConfigError::EmptyDatabaseUrl)
    } else if is_blank_chars(raw.migrations_path@) {
        Some(ConfigError::EmptyMigrationsPath)
    } else if raw.supported_languages@.len() == 0 {
        Some(ConfigError::EmptySupportedLanguages)
    } else if raw.question_count_min < 1 {
        Some(ConfigError::QuestionCountMinTooLow)
    } else if raw.question_count_min > raw.question_count_max {
        Some(ConfigError::QuestionCountMinExceedsMax)
    } else if raw.incorrect_distractor_count < 1 {
        Some(ConfigError::IncorrectDistractorCountTooLow)
    } else if raw.session_inactivity_timeout_minutes <= 0 {
        Some(ConfigError::NonPositiveSessionTimeout)
    } else if raw.cookie_lifetime_days <= 0 {
        Some(ConfigError::NonPositiveCookieLifetime)
    } else {
        logging_error(raw.logging)
    }
}

/// Validates a [`RawConfig`] and converts it into a [`Config`]. Pure: no
/// I/O, no clock reads, deterministic for a given input. Every field is
/// carried over unchanged; the logging format is resolved to its variant.
pub fn validate<A>(raw: RawConfig<A>) -> (r: Result<Config<A>, ConfigError>)
    ensures
        match r {
            Ok(c) => {
                &&& config_error(raw) is None
                &&& c.database_url == raw.database_url
                &&& c.migrations_path == raw.migrations_path
                &&& c.host == raw.host
                &&& c.port == raw.port
                &&& c.session_inactivity_timeout_minutes == raw.session_inactivity_timeout_minutes
                &&& c.cookie_lifetime_days == raw.cookie_lifetime_days
                &&& c.question_count_min == raw.question_count_min
                &&& c.question_count_max == raw.question_count_max
                &&& c.incorrect_distractor_count == raw.incorrect_distractor_count
                &&& c.supported_languages == raw.supported_languages
                &&& c.algorithm_defaults == raw.algorithm_defaults
                &&& Some(c.logging.format) == log_format_named(raw.logging.format@)
                &&& c.logging.level == raw.logging.level
            },
            Err(e) => config_error(raw) == Some(e),
        },
{
    if is_blank(raw.database_url.as_str()) {
        return Err(ConfigError::EmptyDatabaseUrl);
    }
    if is_blank(raw.migrations_path.as_str()) {
        return Err(ConfigError::EmptyMigrationsPath);
    }
    if raw.supported_languages.len() == 0 {
        return Err(ConfigError::EmptySupportedLanguages);
    }
    if raw.question_count_min < 1 {
        return Err(ConfigError::QuestionCountMinTooLow);
    }
    if raw.question_count_min > raw.question_count_max {
        return Err(ConfigError::QuestionCountMinExceedsMax);
    }
    if raw.incorrect_distractor_count < 1 {
        return Err(ConfigError::IncorrectDistractorCountTooLow);
    }
    if raw.session_inactivity_timeout_minutes <= 0 {
        return Err(ConfigError::NonPositiveSessionTimeout);
    }
    if raw.cookie_lifetime_days <= 0 {
        return Err(ConfigError::NonPositiveCookieLifetime);
    }
    let logging = match validate_logging(raw.logging) {
        Ok(logging) => logging,
        Err(e) => {
            return Err(e);
        },
    };
    Ok(
        Config {
            database_url: raw.database_url,
            migrations_path: raw.migrations_path,
            host: raw.host,
            port: raw.port,
            session_inactivity_timeout_minutes: raw.session_inactivity_timeout_minutes,
            cookie_lifetime_days: raw.cookie_lifetime_days,
            question_count_min: raw.question_count_min,
            question_count_max: raw.question_count_max,
            incorrect_distractor_count: raw.incorrect_distractor_count,
            supported_languages: raw.supported_languages,
            algorithm_defaults: raw.algorithm_defaults,
            logging,
        },
    )
}

/// Validates the `logging` section: the format must be `text` or `json`
/// and the level must not be blank.
pub fn validate_logging(raw: RawLoggingConfig) -> (r: Result<LoggingConfig, ConfigError>)
    ensures
        match r {
            Ok(c) => logging_error(raw) is None && Some(c.format) == log_format_named(raw.format@)
                && c.level == raw.level,
            Err(e) => logging_error(raw) == Some(e),
        },
{
    let format = if str_eq(raw.format.as_str(), "text") {
        LogFormat::Text
    } else if str_eq(raw.format.as_str(), "json") {
        LogFormat::Json
    } else {
        return Err(ConfigError::InvalidLogFormat);
    };
    if is_blank(raw.level.as_str()) {
        return Err(ConfigError::EmptyLogLevel);
    }
    Ok(LoggingConfig { format, level: raw.level })
}

} // verus!
