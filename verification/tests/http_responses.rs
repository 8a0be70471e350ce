use flashcards::vocabulary_entries::{VocabularyEntry, VocabularyEntryId};
use flashcards::categories::{CategoryId, CategorySort};
use flashcards::http::categories::{list_sort, ListCategoriesQuery};
use flashcards::http::practice_sessions::{check_session_request, CreatePracticeSessionRequest};
use flashcards::practice_sessions::QuestionCount;
use flashcards::translation_direction::TranslationDirection;
use flashcards::envelope::{
    error, success, success_without_data, ErrorDetail, ErrorStatus, SuccessStatus,
};
use flashcards::http::{categories, learners, practice_sessions, session, vocabulary_entries};
use flashcards::instant::Timestamp;
use flashcards::learners::LearnerId;
use flashcards::practice_sessions::QuestionCountError;
use flashcards::routes::health::{database_unavailable_error, healthy};

fn now() -> Timestamp {
    Timestamp { unix_nanos: 1_786_470_976_000_000_000 }
}

#[test]
fn success_wraps_data_with_the_timestamp() {
    let envelope = success(vec![1, 2, 3], now());

    assert_eq!(envelope.status, SuccessStatus::Success);
    assert_eq!(envelope.data, Some(vec![1, 2, 3]));
    assert_eq!(envelope.meta.timestamp, now());
}

#[test]
fn success_without_data_has_no_payload() {
    let envelope = success_without_data(now());

    assert_eq!(envelope.status, SuccessStatus::Success);
    assert_eq!(envelope.data, None);
    assert_eq!(envelope.meta.timestamp, now());
}

#[test]
fn error_envelope_carries_code_message_and_details() {
    let details = vec![ErrorDetail { field: "name".to_string(), reason: "Cannot be empty".to_string() }];
    let envelope = error("VALIDATION_ERROR", "Category name cannot be empty.", details.clone(), now());

    assert_eq!(envelope.status, ErrorStatus::Error);
    assert_eq!(envelope.error.code, "VALIDATION_ERROR");
    assert_eq!(envelope.error.message, "Category name cannot be empty.");
    assert_eq!(envelope.error.details, details);
    assert_eq!(envelope.meta.timestamp, now());
}

#[test]
fn categories_validation_error_returns_400_with_correct_error_code() {
    let error = categories::validation_error(now());

    assert_eq!(error.status_code, 400);
    assert_eq!(error.envelope.error.code, "VALIDATION_ERROR");
    assert_eq!(error.envelope.error.message, "Category name cannot be empty.");
    assert_eq!(error.envelope.error.details.len(), 1);
    assert_eq!(error.envelope.error.details[0].field, "name");
    assert_eq!(error.envelope.error.details[0].reason, "Cannot be empty");
}

#[test]
fn categories_not_found_error_returns_404_with_correct_error_code() {
    let error = categories::not_found_error(now());

    assert_eq!(error.status_code, 404);
    assert_eq!(error.envelope.error.code, "CATEGORY_NOT_FOUND");
    assert_eq!(error.envelope.error.message, "That category no longer exists.");
    assert_eq!(error.envelope.error.details.len(), 1);
    assert_eq!(error.envelope.error.details[0].field, "id");
    assert_eq!(error.envelope.error.details[0].reason, "Not found");
}

#[test]
fn categories_conflict_error_returns_409_with_correct_error_code() {
    let error = categories::conflict_error(now());

    assert_eq!(error.status_code, 409);
    assert_eq!(error.envelope.error.code, "CATEGORY_NAME_CONFLICT");
    assert_eq!(error.envelope.error.message, "A category with this name already exists.");
    assert_eq!(error.envelope.error.details.len(), 1);
    assert_eq!(error.envelope.error.details[0].field, "name");
    assert_eq!(error.envelope.error.details[0].reason, "Already in use");
}

#[test]
fn a_category_request_name_is_trimmed_or_rejected() {
    let name = categories::requested_name("  Animals  ", now()).unwrap();
    assert_eq!(name.display, "Animals");
    assert_eq!(name.normalized, "animals");

    let rejected = categories::requested_name("   ", now()).unwrap_err();
    assert_eq!(rejected, categories::validation_error(now()));
}

#[test]
fn category_listing_defaults_to_creation_order() {

    assert_eq!(list_sort(&ListCategoriesQuery { sort: None }), CategorySort::CreatedAt);
    assert_eq!(
        list_sort(&ListCategoriesQuery { sort: Some(CategorySort::Alphabetical) }),
        CategorySort::Alphabetical
    );
}

#[test]
fn learners_validation_error_returns_400_with_correct_error_code() {
    let error = learners::validation_error(now());

    assert_eq!(error.status_code, 400);
    assert_eq!(error.envelope.error.code, "VALIDATION_ERROR");
    assert_eq!(error.envelope.error.message, "Learner name cannot be empty.");
    assert_eq!(error.envelope.error.details.len(), 1);
    assert_eq!(error.envelope.error.details[0].field, "name");
    assert_eq!(error.envelope.error.details[0].reason, "Cannot be empty");
}

#[test]
fn learners_not_found_error_returns_404_with_correct_error_code() {
    let error = learners::not_found_error(now());

    assert_eq!(error.status_code, 404);
    assert_eq!(error.envelope.error.code, "LEARNER_NOT_FOUND");
    assert_eq!(error.envelope.error.message, "That learner profile no longer exists.");
    assert_eq!(error.envelope.error.details.len(), 1);
    assert_eq!(error.envelope.error.details[0].field, "id");
    assert_eq!(error.envelope.error.details[0].reason, "Not found");
}

#[test]
fn learners_conflict_error_returns_409_with_correct_error_code() {
    let error = learners::conflict_error(now());

    assert_eq!(error.status_code, 409);
    assert_eq!(error.envelope.error.code, "LEARNER_NAME_CONFLICT");
    assert_eq!(error.envelope.error.message, "A learner with this name already exists.");
    assert_eq!(error.envelope.error.details.len(), 1);
    assert_eq!(error.envelope.error.details[0].field, "name");
    assert_eq!(error.envelope.error.details[0].reason, "Already in use");
}

#[test]
fn deleting_the_current_learner_clears_the_cookie() {
    assert!(learners::deleted_learner_was_current(Some("learner_id=7"), LearnerId(7)));
    assert!(!learners::deleted_learner_was_current(Some("learner_id=8"), LearnerId(7)));
    assert!(!learners::deleted_learner_was_current(Some("learner_id=x"), LearnerId(7)));
    assert!(!learners::deleted_learner_was_current(None, LearnerId(7)));
}

#[test]
fn no_current_learner_error_returns_400() {
    let error = practice_sessions::no_current_learner_error(now());

    assert_eq!(error.status_code, 400);
    assert_eq!(error.envelope.error.code, "LEARNER_NOT_SELECTED");
}

#[test]
fn question_count_error_returns_400() {
    let error =
        practice_sessions::question_count_error(QuestionCountError::OutOfRange { min: 10, max: 20 }, now());

    assert_eq!(error.status_code, 400);
    assert_eq!(error.envelope.error.code, "VALIDATION_ERROR");
    assert_eq!(error.envelope.error.details[0].field, "question_count");
    assert_eq!(error.envelope.error.details[0].reason, "Must be between 10 and 20");
}

#[test]
fn no_eligible_questions_error_returns_409() {
    let error = practice_sessions::no_eligible_questions_error(now());

    assert_eq!(error.status_code, 409);
    assert_eq!(error.envelope.error.code, "NO_ELIGIBLE_QUESTIONS");
    assert!(error.envelope.error.details.is_empty());
}

#[test]
fn practice_sessions_not_found_error_returns_404() {
    let error = practice_sessions::not_found_error(now());

    assert_eq!(error.status_code, 404);
    assert_eq!(error.envelope.error.code, "PRACTICE_SESSION_NOT_FOUND");
}

#[test]
fn a_session_request_needs_a_learner_then_a_count_in_bounds() {

    let request = CreatePracticeSessionRequest {
        category_id: CategoryId(1),
        direction: TranslationDirection::SourceToTarget,
        question_count: 5,
    };

    let no_learner = check_session_request(None, &request, 10, 20, now()).unwrap_err();
    assert_eq!(no_learner.envelope.error.code, "LEARNER_NOT_SELECTED");

    let out_of_range = check_session_request(Some(LearnerId(3)), &request, 10, 20, now()).unwrap_err();
    assert_eq!(out_of_range.envelope.error.details[0].reason, "Must be between 10 and 20");

    let ok = check_session_request(Some(LearnerId(3)), &request, 1, 20, now()).unwrap();
    assert_eq!(ok, (LearnerId(3), QuestionCount(5)));

    assert!(practice_sessions::require_questions(1, now()).is_ok());
    assert_eq!(
        practice_sessions::require_questions(0, now()).unwrap_err(),
        practice_sessions::no_eligible_questions_error(now())
    );
}

#[test]
fn learner_cookie_from_request_returns_none_when_no_cookie_header() {
    assert_eq!(session::learner_cookie_from_request(None), None);
}

#[test]
fn learner_cookie_from_request_returns_none_when_learner_id_cookie_absent() {
    assert_eq!(session::learner_cookie_from_request(Some("theme=dark; other=value")), None);
}

#[test]
fn learner_cookie_from_request_returns_some_none_for_non_numeric_value() {
    assert_eq!(
        session::learner_cookie_from_request(Some("learner_id=not-a-number")),
        Some(None)
    );
}

#[test]
fn learner_cookie_from_request_parses_valid_numeric_id() {
    assert_eq!(
        session::learner_cookie_from_request(Some("theme=dark; learner_id=42; other=1")),
        Some(Some(LearnerId(42)))
    );
}

#[test]
fn a_stale_or_malformed_cookie_is_cleared() {
    assert_eq!(session::learner_to_look_up(Some(Some(LearnerId(4)))), Some(LearnerId(4)));
    assert_eq!(session::learner_to_look_up(Some(None)), None);
    assert!(session::clears_stale_cookie(Some(None), false));
    assert!(session::clears_stale_cookie(Some(Some(LearnerId(4))), false));
    assert!(!session::clears_stale_cookie(Some(Some(LearnerId(4))), true));
    assert!(!session::clears_stale_cookie(None, false));

    let error = session::select_not_found_error(now());
    assert_eq!(error.status_code, 404);
    assert_eq!(error.envelope.error.details[0].field, "learner_id");
}

#[test]
fn validation_error_returns_400() {
    let error = vocabulary_entries::validation_error("source_text", "Cannot be empty", now());

    assert_eq!(error.status_code, 400);
    assert_eq!(error.envelope.error.code, "VALIDATION_ERROR");
    assert_eq!(error.envelope.error.details[0].field, "source_text");
}

#[test]
fn vocabulary_entries_not_found_error_returns_404() {
    let error = vocabulary_entries::not_found_error(now());

    assert_eq!(error.status_code, 404);
    assert_eq!(error.envelope.error.code, "VOCABULARY_ENTRY_NOT_FOUND");
}

#[test]
fn conflict_error_returns_409() {
    let error = vocabulary_entries::conflict_error(now());

    assert_eq!(error.status_code, 409);
    assert_eq!(error.envelope.error.code, "VOCABULARY_ENTRY_CONFLICT");
}

#[test]
fn bulk_errors_name_the_row() {
    let error = vocabulary_entries::bulk_validation_error(3, "source_text", "Cannot be empty", now());
    assert_eq!(error.envelope.error.details[0].field, "entries[3].source_text");
    assert_eq!(error.envelope.error.message, "Invalid vocabulary entry in bulk import.");

    let unknown = vocabulary_entries::unknown_category_error(2, now());
    assert_eq!(unknown.envelope.error.code, "UNKNOWN_CATEGORY");
    assert_eq!(unknown.envelope.error.details[0].field, "entries[2].category_name");

    let duplicate = vocabulary_entries::bulk_conflict_error(Some(1), now());
    assert_eq!(duplicate.status_code, 409);
    assert_eq!(duplicate.envelope.error.details[0].field, "entries[1].target_text");
    let stored = vocabulary_entries::bulk_conflict_error(None, now());
    assert_eq!(stored.envelope.error.details[0].field, "target_text");

    let immutable = vocabulary_entries::immutable_language_error("target_language", now());
    assert_eq!(immutable.envelope.error.details[0].reason, "Languages are immutable");
}

#[test]
fn health_payloads() {
    assert_eq!(healthy().status, "ok");
    let error = database_unavailable_error(now());
    assert_eq!(error.status_code, 500);
    assert_eq!(error.envelope.error.code, "DATABASE_UNAVAILABLE");
    assert!(error.envelope.error.details.is_empty());
}

fn entry_in(id: i64, category_ids: Vec<CategoryId>) -> VocabularyEntry {
    VocabularyEntry {
        id: VocabularyEntryId(id),
        source_language: "es".to_string(),
        source_text: "manzana".to_string(),
        target_language: "en".to_string(),
        target_text: "apple".to_string(),
        category_ids,
        created_at: now(),
        updated_at: now(),
    }
}

#[test]
fn deleting_a_category_that_would_orphan_an_entry_conflicts() {
    let entries = vec![entry_in(1, vec![CategoryId(7)])];

    let orphaned = categories::orphaned_entries(&entries, CategoryId(7));
    assert_eq!(orphaned, vec![VocabularyEntryId(1)]);

    let error = categories::check_category_deletion(&orphaned, now()).unwrap_err();
    assert_eq!(error.status_code, 409);
    assert_eq!(error.envelope.error.code, "CATEGORY_WOULD_ORPHAN_ENTRY");
}

#[test]
fn deleting_a_category_with_another_membership_present_succeeds() {
    let entries = vec![
        entry_in(1, vec![CategoryId(7), CategoryId(8)]),
        entry_in(2, vec![CategoryId(8)]),
    ];

    let orphaned = categories::orphaned_entries(&entries, CategoryId(7));
    assert!(orphaned.is_empty());
    assert_eq!(categories::check_category_deletion(&orphaned, now()), Ok(()));
}
