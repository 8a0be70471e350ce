use flashcards::config::validate::{validate, validate_logging, ConfigError, LogFormat};
use flashcards::config::{Config, LogFormat as ServerLogFormat, RawConfig, RawLoggingConfig};

#[derive(Debug, Clone, PartialEq)]
struct AlgorithmDefaults {
    correct_streak_threshold: u32,
    incorrect_boost_threshold: u32,
    deprioritize_duration_days: f64,
    prioritize_duration_days: f64,
    min_interval_before_retest_days: f64,
    incorrect_weight: f64,
    time_decay_factor: f64,
    base_priority: f64,
}

fn valid_raw() -> RawConfig<AlgorithmDefaults> {
    RawConfig {
        database_url: "sqlite://data/flashcards.db".to_string(),
        migrations_path: "migrations".to_string(),
        host: "0.0.0.0".to_string(),
        port: 8080,
        session_inactivity_timeout_minutes: 30,
        cookie_lifetime_days: 365,
        question_count_min: 10,
        question_count_max: 20,
        incorrect_distractor_count: 4,
        supported_languages: vec!["en".to_string(), "es".to_string()],
        algorithm_defaults: AlgorithmDefaults {
            correct_streak_threshold: 5,
            incorrect_boost_threshold: 2,
            deprioritize_duration_days: 3.0,
            prioritize_duration_days: 2.0,
            min_interval_before_retest_days: 1.0,
            incorrect_weight: 3.0,
            time_decay_factor: 0.5,
            base_priority: 0.0,
        },
        logging: RawLoggingConfig {
            format: "text".to_string(),
            level: "info".to_string(),
        },
    }
}

#[test]
fn accepts_a_fully_populated_valid_config() {
    let result = validate(valid_raw());

    assert!(result.is_ok());
}

#[test]
fn a_valid_config_carries_every_field_over() {
    let config = validate(valid_raw()).unwrap();

    assert_eq!(config.database_url, "sqlite://data/flashcards.db");
    assert_eq!(config.migrations_path, "migrations");
    assert_eq!(config.host, "0.0.0.0");
    assert_eq!(config.port, 8080);
    assert_eq!(config.cookie_lifetime_days, 365);
    assert_eq!(config.question_count_min, 10);
    assert_eq!(config.question_count_max, 20);
    assert_eq!(config.supported_languages, vec!["en", "es"]);
    assert_eq!(config.algorithm_defaults, valid_raw().algorithm_defaults);
    assert_eq!(config.logging.format, LogFormat::Text);
    assert_eq!(config.logging.level, "info");
}

#[test]
fn rejects_empty_database_url() {
    let raw = RawConfig { database_url: "   ".to_string(), ..valid_raw() };

    assert_eq!(validate(raw), Err(ConfigError::EmptyDatabaseUrl));
}

#[test]
fn rejects_empty_migrations_path() {
    let raw = RawConfig { migrations_path: "".to_string(), ..valid_raw() };

    assert_eq!(validate(raw), Err(ConfigError::EmptyMigrationsPath));
}

#[test]
fn rejects_question_count_min_below_one() {
    let raw = RawConfig { question_count_min: 0, ..valid_raw() };

    assert_eq!(validate(raw), Err(ConfigError::QuestionCountMinTooLow));
}

#[test]
fn rejects_question_count_min_above_max() {
    let raw = RawConfig { question_count_min: 25, question_count_max: 20, ..valid_raw() };

    assert_eq!(validate(raw), Err(ConfigError::QuestionCountMinExceedsMax));
}

#[test]
fn rejects_incorrect_distractor_count_below_one() {
    let raw = RawConfig { incorrect_distractor_count: 0, ..valid_raw() };

    assert_eq!(validate(raw), Err(ConfigError::IncorrectDistractorCountTooLow));
}

#[test]
fn rejects_empty_supported_languages() {
    let raw = RawConfig { supported_languages: vec![], ..valid_raw() };

    assert_eq!(validate(raw), Err(ConfigError::EmptySupportedLanguages));
}

#[test]
fn rejects_non_positive_session_timeout() {
    let raw = RawConfig { session_inactivity_timeout_minutes: 0, ..valid_raw() };

    assert_eq!(validate(raw), Err(ConfigError::NonPositiveSessionTimeout));
}

#[test]
fn rejects_non_positive_cookie_lifetime() {
    let raw = RawConfig { cookie_lifetime_days: -1, ..valid_raw() };

    assert_eq!(validate(raw), Err(ConfigError::NonPositiveCookieLifetime));
}

#[test]
fn rejects_unknown_log_format() {
    let raw = RawConfig {
        logging: RawLoggingConfig { format: "xml".to_string(), level: "info".to_string() },
        ..valid_raw()
    };

    assert_eq!(validate(raw), Err(ConfigError::InvalidLogFormat));
}

#[test]
fn rejects_empty_log_level() {
    let raw = RawConfig {
        logging: RawLoggingConfig { format: "text".to_string(), level: "   ".to_string() },
        ..valid_raw()
    };

    assert_eq!(validate(raw), Err(ConfigError::EmptyLogLevel));
}

#[test]
fn accepts_json_log_format() {
    let raw = RawConfig {
        logging: RawLoggingConfig { format: "json".to_string(), level: "debug".to_string() },
        ..valid_raw()
    };

    let result = validate(raw).expect("valid config should be accepted");
    assert_eq!(result.logging.format, LogFormat::Json);
    assert_eq!(result.logging.level, "debug");
}

#[test]
fn the_first_failing_check_is_reported() {
    let raw = RawConfig {
        database_url: "".to_string(),
        migrations_path: "".to_string(),
        question_count_min: 0,
        ..valid_raw()
    };

    assert_eq!(validate(raw), Err(ConfigError::EmptyDatabaseUrl));
}

#[test]
fn log_format_names_are_case_sensitive() {
    let raw = RawLoggingConfig { format: "JSON".to_string(), level: "info".to_string() };

    assert_eq!(validate_logging(raw), Err(ConfigError::InvalidLogFormat));
}

#[test]
fn config_error_messages_match_the_documented_text() {
    assert_eq!(ConfigError::EmptyDatabaseUrl.to_string(), "database_url must not be empty");
    assert_eq!(
        ConfigError::QuestionCountMinExceedsMax.to_string(),
        "question_count_min must not exceed question_count_max"
    );
    assert_eq!(
        ConfigError::InvalidLogFormat.to_string(),
        "logging.format must be \"text\" or \"json\""
    );
}

#[test]
fn unset_settings_take_their_defaults() {
    let config = Config::from_values(None, None, None, None);

    assert_eq!(config.bind_addr, "127.0.0.1:8081");
    assert_eq!(config.database_path, "./data/flashcards.db");
    assert_eq!(config.pivot_lang, "en");
    assert_eq!(config.log_format, ServerLogFormat::Text);
}

#[test]
fn supplied_settings_override_the_defaults() {
    let config = Config::from_values(
        Some("0.0.0.0:9000".to_string()),
        Some("/tmp/x.db".to_string()),
        Some("de".to_string()),
        Some("json".to_string()),
    );

    assert_eq!(config.bind_addr, "0.0.0.0:9000");
    assert_eq!(config.database_path, "/tmp/x.db");
    assert_eq!(config.pivot_lang, "de");
    assert_eq!(config.log_format, ServerLogFormat::Json);
    assert_eq!(
        Config::from_values(None, None, None, Some("Json".to_string())).log_format,
        ServerLogFormat::Text
    );
}
