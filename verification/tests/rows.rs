use flashcards::direction_progress::DirectionProgressId;
use flashcards::learners::LearnerId;
use flashcards::categories::CategoryId;
use flashcards::instant::Timestamp;
use flashcards::practice_sessions::repository::{public_question, SessionRow};
use flashcards::practice_sessions::{OptionSnapshot, PracticeQuestionId, PracticeSessionId, SessionStatus};
use flashcards::routes::session::current_learner_id;
use flashcards::translation_direction::TranslationDirection;
use flashcards::vocabulary_entries::VocabularyEntryId;

fn option(id: u32, text: &str, is_correct: bool, is_dont_know: bool) -> OptionSnapshot {
    OptionSnapshot { id, text: text.to_string(), is_correct, is_dont_know }
}

#[test]
fn a_stored_question_is_shown_without_correctness() {
    let options = vec![
        option(1, "orange", false, false),
        option(2, "apple", true, false),
        option(3, "Don't know", false, true),
    ];

    let question = public_question(
        PracticeQuestionId(9),
        VocabularyEntryId(4),
        "target_to_source",
        2,
        "apple".to_string(),
        &options,
    )
    .unwrap();

    assert_eq!(question.id, PracticeQuestionId(9));
    assert_eq!(question.direction, TranslationDirection::TargetToSource);
    assert_eq!(question.ordinal, 2);
    assert_eq!(question.options.len(), 3);
    assert_eq!(question.options[1].text, "apple");
    assert!(question.options[2].is_dont_know);
}

#[test]
fn a_stored_question_with_an_unknown_direction_is_corrupt() {
    let error = public_question(
        PracticeQuestionId(9),
        VocabularyEntryId(4),
        "sideways",
        1,
        "apple".to_string(),
        &[],
    )
    .unwrap_err();

    assert_eq!(error, "\"sideways\" is not a recognized translation direction");
}

#[test]
fn direction_progress_ids_display_as_their_number() {
    assert_eq!(DirectionProgressId(77).to_string(), "77");
}

#[test]
fn the_cookie_jar_value_names_the_current_learner() {
    assert_eq!(current_learner_id(Some(" 12 ")), Some(LearnerId(12)));
    assert_eq!(current_learner_id(Some("abc")), None);
    assert_eq!(current_learner_id(None), None);
}

fn session_row(direction: &str, status: &str) -> SessionRow {
    let at = Timestamp { unix_nanos: 1_786_470_976_000_000_000 };
    SessionRow {
        id: PracticeSessionId(5),
        learner_id: LearnerId(2),
        category_id: CategoryId(3),
        direction: direction.to_string(),
        status: status.to_string(),
        requested_question_count: 10,
        actual_question_count: 4,
        answered_question_count: 1,
        correct_count: 1,
        started_at: at,
        completed_at: None,
        last_activity_at: at,
        created_at: at,
        updated_at: at,
    }
}

#[test]
fn a_stored_session_row_reads_back_as_a_session() {
    let session = session_row("source_to_target", "active").into_session(vec![]).unwrap();

    assert_eq!(session.id, PracticeSessionId(5));
    assert_eq!(session.direction, TranslationDirection::SourceToTarget);
    assert_eq!(session.status, SessionStatus::Active);
    assert_eq!(session.requested_question_count, 10);
    assert_eq!(session.actual_question_count, 4);
    assert!(session.questions.is_empty());
}

#[test]
fn a_stored_session_row_with_unknown_tokens_is_corrupt() {
    assert_eq!(
        session_row("up", "active").into_session(vec![]).unwrap_err(),
        "\"up\" is not a recognized translation direction"
    );
    assert_eq!(
        session_row("target_to_source", "paused").into_session(vec![]).unwrap_err(),
        "\"paused\" is not a recognized session status"
    );
}
