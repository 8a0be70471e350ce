use flashcards::http::cookies::{
    clear_learner_cookie_header, learner_cookie_header, learner_cookie_value,
    parse_learner_cookie, parse_learner_cookie_presence, SECONDS_PER_DAY,
};
use flashcards::learners::LearnerId;

#[test]
fn learner_cookie_header_is_host_only_http_only_and_lax_with_explicit_expiry() {
    let value = learner_cookie_header(LearnerId(42), 365);

    assert!(value.starts_with("learner_id=42;"));
    assert!(value.contains("HttpOnly"));
    assert!(value.contains("SameSite=Lax"));
    assert!(value.contains("Path=/"));
    assert!(value.contains(&format!("Max-Age={}", 365 * SECONDS_PER_DAY)));
    assert!(!value.contains("Domain="));
}

#[test]
fn learner_cookie_header_has_the_exact_template() {
    assert_eq!(
        learner_cookie_header(LearnerId(7), 1),
        "learner_id=7; Path=/; HttpOnly; SameSite=Lax; Max-Age=86400"
    );
}

#[test]
fn clear_header_expires_immediately() {
    let value = clear_learner_cookie_header();

    assert!(value.starts_with("learner_id=;"));
    assert!(value.contains("Max-Age=0"));
}

#[test]
fn parses_the_learner_cookie_out_of_a_multi_cookie_header() {
    assert_eq!(
        parse_learner_cookie("theme=dark; learner_id=42; other=1"),
        Some(LearnerId(42))
    );
}

#[test]
fn returns_none_when_the_learner_cookie_is_absent() {
    assert_eq!(parse_learner_cookie("theme=dark"), None);
    assert_eq!(parse_learner_cookie(""), None);
}

#[test]
fn cookies_rejects_a_non_numeric_cookie_value() {
    assert_eq!(parse_learner_cookie("learner_id=not-a-number"), None);
}

#[test]
fn presence_distinguishes_a_malformed_cookie_from_a_missing_one() {
    assert_eq!(parse_learner_cookie_presence("theme=dark"), None);
    assert_eq!(parse_learner_cookie_presence("learner_id=abc"), Some(None));
    assert_eq!(
        parse_learner_cookie_presence("learner_id=-5"),
        Some(Some(LearnerId(-5)))
    );
}

#[test]
fn the_first_learner_cookie_wins_and_values_are_trimmed() {
    assert_eq!(
        learner_cookie_value("a=1;  learner_id = 9 ; learner_id=10"),
        Some("9")
    );
    assert_eq!(learner_cookie_value("learner_id"), None);
    assert_eq!(learner_cookie_value("learner_id=a=b"), Some("a=b"));
}

#[test]
fn a_header_the_server_set_reads_back_as_the_same_learner() {
    let header = learner_cookie_header(LearnerId(1234), 30);

    assert_eq!(parse_learner_cookie(&header), Some(LearnerId(1234)));
}
