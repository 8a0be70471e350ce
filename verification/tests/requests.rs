use flashcards::categories::CategoryId;
use flashcards::http::error::AppError;
use flashcards::http::handlers::{normalize_due_before, plan_import, plan_term, practice_card};
use flashcards::http::vocabulary_entries::{
    bulk_identities, list_filter, validate_bulk_rows, validate_create_request,
    validate_edit_request, BulkVocabularyEntryRow, CreateVocabularyEntryRequest,
    EditVocabularyEntryRequest, ListVocabularyEntriesQuery,
};
use flashcards::instant::Timestamp;
use flashcards::model::{NewTerm, PromptSide};
use flashcards::scheduler::Leitner;
use flashcards::terms::{card_id, term_id};

fn uuid_text(bytes: [u8; 16]) -> String {
    uuid::Uuid::from_bytes(bytes).to_string()
}

fn now() -> Timestamp {
    Timestamp { unix_nanos: 1_786_470_976_000_000_000 }
}

fn supported() -> Vec<String> {
    vec!["en".to_string(), "es".to_string()]
}

fn new_term(lang: &str, foreign: &str, pivot: &str) -> NewTerm {
    NewTerm {
        foreign_lang: lang.to_string(),
        foreign_text: foreign.to_string(),
        pivot_text: pivot.to_string(),
        notes: None,
    }
}

#[test]
fn app_errors_map_to_status_and_message() {
    assert_eq!(AppError::BadRequest("bad".to_string()).status_code(), 400);
    assert_eq!(AppError::BadRequest("bad".to_string()).to_string(), "bad");
    assert_eq!(AppError::NotFound("term not found").status_code(), 404);
    assert_eq!(AppError::NotFound("term not found").to_string(), "term not found");
    assert_eq!(AppError::Internal.status_code(), 500);
    assert_eq!(AppError::Internal.to_string(), "internal error");
}

#[test]
fn due_before_is_rewritten_in_utc() {
    assert_eq!(normalize_due_before(None), Ok(None));
    assert_eq!(
        normalize_due_before(Some("2026-08-11T19:56:16+02:00")),
        Ok(Some("2026-08-11T17:56:16+00:00".to_string()))
    );
    assert_eq!(
        normalize_due_before(Some("2026-08-11T17:56:16Z")),
        Ok(Some("2026-08-11T17:56:16+00:00".to_string()))
    );
}

#[test]
fn an_unparseable_due_before_is_a_bad_request() {
    match normalize_due_before(Some("yesterday")) {
        Err(AppError::BadRequest(message)) => {
            assert!(message.starts_with("due_before is not an ISO-8601 timestamp: "));
            assert!(message.len() > "due_before is not an ISO-8601 timestamp: ".len());
        }
        other => panic!("expected a bad request, got {other:?}"),
    }
}

#[test]
fn planning_a_term_derives_its_id_and_two_cards_in_box_1() {
    let term = new_term("es", "perro", "dog");
    let plan = plan_term(&term, &Leitner, now()).unwrap();

    assert_eq!(plan.id, uuid_text(term_id(&term)));
    assert_eq!(plan.cards[0].prompt_side, PromptSide::Foreign);
    assert_eq!(plan.cards[1].prompt_side, PromptSide::Pivot);
    assert_eq!(plan.cards[0].id, uuid_text(card_id(&plan.id, PromptSide::Foreign)));
    assert_eq!(plan.cards[1].id, uuid_text(card_id(&plan.id, PromptSide::Pivot)));
    for card in &plan.cards {
        assert_eq!(card.schedule.state, "{\"box\":1}");
        assert_eq!(card.schedule.due_at, now());
    }
}

#[test]
fn re_planning_the_same_term_gives_the_same_ids() {
    let first = plan_term(&new_term("es", "perro", "dog"), &Leitner, now()).unwrap();
    let mut with_notes = new_term(" es ", "perro", "dog ");
    with_notes.notes = Some("a note".to_string());
    let second = plan_term(&with_notes, &Leitner, now()).unwrap();

    assert_eq!(first.id, second.id);
    assert_eq!(first.cards[0].id, second.cards[0].id);
}

#[test]
fn planning_a_blank_term_is_a_bad_request_naming_the_field() {
    assert_eq!(
        plan_term(&new_term("es", "  ", "dog"), &Leitner, now()).unwrap_err(),
        AppError::BadRequest("foreign_text must not be empty".to_string())
    );
}

#[test]
fn planning_an_import_is_all_or_nothing() {
    let good = vec![new_term("es", "perro", "dog"), new_term("es", "gato", "cat")];
    let plans = plan_import(&good, &Leitner, now()).unwrap();
    assert_eq!(plans.len(), 2);
    assert_eq!(plans[1].id, uuid_text(term_id(&good[1])));

    let bad = vec![new_term("es", "perro", "dog"), new_term("es", "gato", "")];
    assert_eq!(
        plan_import(&bad, &Leitner, now()).unwrap_err(),
        AppError::BadRequest("element 1: pivot_text must not be empty".to_string())
    );
    assert!(plan_import(&[], &Leitner, now()).unwrap().is_empty());
}

fn create_request(source_language: &str, source_text: &str, category_ids: Vec<CategoryId>) -> CreateVocabularyEntryRequest {
    CreateVocabularyEntryRequest {
        source_language: source_language.to_string(),
        source_text: source_text.to_string(),
        target_language: "en".to_string(),
        target_text: " apple ".to_string(),
        category_ids,
    }
}

#[test]
fn a_create_request_is_normalized_with_its_identity() {
    let entry = validate_create_request(&create_request(" ES ", "manzana", vec![CategoryId(1)]), &supported(), now()).unwrap();

    assert_eq!(entry.source_language.normalized, "es");
    assert_eq!(entry.source_text.display, "manzana");
    assert_eq!(entry.target_text.display, "apple");
    assert_eq!(entry.normalized_identity, "es\u{1}manzana\u{1}en\u{1}apple");
}

#[test]
fn a_create_request_reports_the_first_failing_field() {
    let unsupported = validate_create_request(&create_request("fr", "", vec![]), &supported(), now()).unwrap_err();
    assert_eq!(unsupported.envelope.error.details[0].field, "source_language");
    assert_eq!(unsupported.envelope.error.details[0].reason, "Unsupported or empty language code");

    let blank = validate_create_request(&create_request("es", " ", vec![]), &supported(), now()).unwrap_err();
    assert_eq!(blank.envelope.error.details[0].field, "source_text");

    let no_category = validate_create_request(&create_request("es", "manzana", vec![]), &supported(), now()).unwrap_err();
    assert_eq!(no_category.envelope.error.details[0].field, "category_ids");
    assert_eq!(no_category.envelope.error.details[0].reason, "At least one category is required");
}

fn row(source_text: &str, category_name: &str) -> BulkVocabularyEntryRow {
    BulkVocabularyEntryRow {
        source_language: "es".to_string(),
        source_text: source_text.to_string(),
        target_language: "en".to_string(),
        target_text: "apple".to_string(),
        category_name: category_name.to_string(),
    }
}

#[test]
fn bulk_rows_are_validated_in_order() {
    let rows = validate_bulk_rows(&[row("manzana", " Fruit "), row("pera", "Fruit")], &supported(), now()).unwrap();
    assert_eq!(rows.len(), 2);
    assert_eq!(rows[0].category_normalized_name, "fruit");

    let empty = validate_bulk_rows(&[], &supported(), now()).unwrap_err();
    assert_eq!(empty.envelope.error.details[0].field, "entries[0].entries");
    assert_eq!(empty.envelope.error.details[0].reason, "At least one row is required");

    let bad = validate_bulk_rows(&[row("manzana", "Fruit"), row("pera", " "), row("", "")], &supported(), now()).unwrap_err();
    assert_eq!(bad.envelope.error.details[0].field, "entries[1].category_name");
}

#[test]
fn a_batch_holding_the_same_pair_twice_conflicts_at_the_repeat() {
    let rows = validate_bulk_rows(
        &[row("manzana", "Fruit"), row("pera", "Fruit"), row("manzana", "Snacks")],
        &supported(),
        now(),
    )
    .unwrap();
    let error = bulk_identities(&rows, now()).unwrap_err();
    assert_eq!(error.status_code, 409);
    assert_eq!(error.envelope.error.details[0].field, "entries[2].target_text");

    let distinct = validate_bulk_rows(&[row("manzana", "Fruit"), row("pera", "Fruit")], &supported(), now()).unwrap();
    let ids = bulk_identities(&distinct, now()).unwrap();
    assert_eq!(ids, vec!["es\u{1}manzana\u{1}en\u{1}apple", "es\u{1}pera\u{1}en\u{1}apple"]);
}

fn edit(source_language: Option<&str>) -> EditVocabularyEntryRequest {
    EditVocabularyEntryRequest {
        source_text: " naranja ".to_string(),
        target_text: "orange".to_string(),
        category_ids: vec![CategoryId(2)],
        source_language: source_language.map(|s| s.to_string()),
        target_language: None,
    }
}

#[test]
fn an_edit_keeps_the_stored_languages() {
    let edited = validate_edit_request(&edit(Some(" ES ")), "es", "en", now()).unwrap();
    assert_eq!(edited.source_text.display, "naranja");
    assert_eq!(edited.normalized_identity, "es\u{1}naranja\u{1}en\u{1}orange");

    let changed = validate_edit_request(&edit(Some("fr")), "es", "en", now()).unwrap_err();
    assert_eq!(changed.envelope.error.message, "Vocabulary entry languages cannot be changed after creation.");
    assert_eq!(changed.envelope.error.details[0].field, "source_language");

    let mut blank = edit(None);
    blank.target_text = "  ".to_string();
    let error = validate_edit_request(&blank, "es", "en", now()).unwrap_err();
    assert_eq!(error.envelope.error.details[0].field, "target_text");
}

#[test]
fn listing_filters_lowercase_language_codes() {
    let filter = list_filter(&ListVocabularyEntriesQuery {
        category_id: Some(CategoryId(3)),
        source_language: Some("ES".to_string()),
        target_language: None,
    });

    assert_eq!(filter.category_id, Some(CategoryId(3)));
    assert_eq!(filter.source_language.as_deref(), Some("es"));
    assert_eq!(filter.target_language, None);
}

#[test]
fn a_practice_card_resolves_its_sides_and_box() {
    let card = practice_card(
        "card-1".to_string(),
        "term-1".to_string(),
        PromptSide::Pivot,
        "perro",
        "dog",
        Some("el perro (m)".to_string()),
        "2026-08-11T17:56:16+00:00".to_string(),
        "{\"box\":3}",
    )
    .unwrap();

    assert_eq!(card.prompt, "dog");
    assert_eq!(card.answer, "perro");
    assert_eq!(card.box_number, 3);
    assert_eq!(card.notes.as_deref(), Some("el perro (m)"));

    assert!(practice_card(
        "card-1".to_string(),
        "term-1".to_string(),
        PromptSide::Foreign,
        "perro",
        "dog",
        None,
        "t".to_string(),
        "not json",
    )
    .is_none());
}

#[test]
fn leitner_reads_the_box_of_a_state_pinned_into_range() {
    assert_eq!(Leitner.box_of("{\"box\":2}"), Some(2));
    assert_eq!(Leitner.box_of("{\"box\":0}"), Some(1));
    assert_eq!(Leitner.box_of("{\"box\":9}"), Some(5));
    assert_eq!(Leitner.box_of("{\"box\":300}"), None);
    assert_eq!(Leitner.box_of("[]"), None);
}
