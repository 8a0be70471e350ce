use flashcards::identity::{learner_cookie, parse_learner_id, CookieSameSite, LEARNER_COOKIE_NAME};
use flashcards::learners::LearnerId;

#[test]
fn parses_a_valid_numeric_cookie_value() {
    assert_eq!(parse_learner_id("42"), Some(LearnerId(42)));
}

#[test]
fn identity_rejects_a_non_numeric_cookie_value() {
    assert_eq!(parse_learner_id("not-a-number"), None);
}

#[test]
fn rejects_an_empty_cookie_value() {
    assert_eq!(parse_learner_id(""), None);
}

#[test]
fn surrounding_whitespace_is_ignored() {
    assert_eq!(parse_learner_id("  7 "), Some(LearnerId(7)));
    assert_eq!(parse_learner_id("+7"), Some(LearnerId(7)));
}

#[test]
fn out_of_range_values_are_rejected() {
    assert_eq!(parse_learner_id("9223372036854775807"), Some(LearnerId(i64::MAX)));
    assert_eq!(parse_learner_id("-9223372036854775808"), Some(LearnerId(i64::MIN)));
    assert_eq!(parse_learner_id("9223372036854775808"), None);
}

#[test]
fn cookie_name_is_learner_id() {
    assert_eq!(LEARNER_COOKIE_NAME, "learner_id");
}

#[test]
fn learner_cookie_is_host_only_http_only_and_lax_with_explicit_expiry() {
    let cookie = learner_cookie(LearnerId(42), 365);

    assert_eq!(cookie.name, LEARNER_COOKIE_NAME);
    assert_eq!(cookie.value, "42");
    assert_eq!(cookie.path, Some("/"));
    assert_eq!(cookie.domain, None);
    assert_eq!(cookie.http_only, Some(true));
    assert_eq!(cookie.same_site, Some(CookieSameSite::Lax));
    assert_eq!(cookie.max_age_days, Some(365));
}

#[test]
fn the_cookie_key_names_the_cookie_and_its_path_only() {
    let key = flashcards::identity::learner_cookie_key();

    assert_eq!(key.name, "learner_id");
    assert_eq!(key.value, "");
    assert_eq!(key.path, Some("/"));
    assert_eq!(key.http_only, None);
    assert_eq!(key.same_site, None);
    assert_eq!(key.max_age_days, None);
}
