use flashcards::categories::CategoryId;
use flashcards::instant::Timestamp;
use flashcards::translation_direction::TranslationDirection;
use flashcards::vocabulary_entries::{VocabularyEntry, VocabularyEntryId};

fn entry() -> VocabularyEntry {
    VocabularyEntry {
        id: VocabularyEntryId(1),
        source_language: "es".to_string(),
        source_text: "manzana".to_string(),
        target_language: "en".to_string(),
        target_text: "apple".to_string(),
        category_ids: vec![CategoryId(1)],
        created_at: Timestamp { unix_nanos: 0 },
        updated_at: Timestamp { unix_nanos: 0 },
    }
}

#[test]
fn source_to_target_prompts_with_source_and_answers_with_target() {
    let entry = entry();

    assert_eq!(
        TranslationDirection::SourceToTarget.prompt_text(&entry),
        "manzana"
    );
    assert_eq!(
        TranslationDirection::SourceToTarget.answer_text(&entry),
        "apple"
    );
    assert_eq!(
        TranslationDirection::SourceToTarget.answer_language(&entry),
        "en"
    );
}

#[test]
fn target_to_source_prompts_with_target_and_answers_with_source() {
    let entry = entry();

    assert_eq!(
        TranslationDirection::TargetToSource.prompt_text(&entry),
        "apple"
    );
    assert_eq!(
        TranslationDirection::TargetToSource.answer_text(&entry),
        "manzana"
    );
    assert_eq!(
        TranslationDirection::TargetToSource.answer_language(&entry),
        "es"
    );
}

#[test]
fn round_trips_through_display_and_from_str() {
    for direction in [
        TranslationDirection::SourceToTarget,
        TranslationDirection::TargetToSource,
    ] {
        let parsed: TranslationDirection = direction.to_string().parse().unwrap();
        assert_eq!(parsed, direction);
    }
}

#[test]
fn rejects_an_unrecognized_direction() {
    assert!("sideways".parse::<TranslationDirection>().is_err());
}

#[test]
fn unrecognized_direction_message_quotes_the_token() {
    let err = "sideways".parse::<TranslationDirection>().unwrap_err();
    assert_eq!(
        err.to_string(),
        "\"sideways\" is not a recognized translation direction"
    );
}
