use chrono::Utc;
use rand::rngs::StdRng;
use rand::SeedableRng;

use flashcards::categories::CategoryId;
use flashcards::instant::{Timestamp, NANOS_PER_DAY};
use flashcards::practice_sessions::{
    build_question, find_distractor_texts, generate_session_questions, is_in_cooldown,
    validate_question_count, GenerateSessionInput, LastCorrect, OptionSnapshot,
    PracticeQuestionId, PracticeSessionId, QuestionCount, QuestionCountError, SessionStatus,
};
use flashcards::translation_direction::TranslationDirection;
use flashcards::vocabulary_entries::{VocabularyEntry, VocabularyEntryId};

const ONE_DAY_MILLIS: i64 = 86_400_000;

fn now() -> Timestamp {
    Timestamp { unix_nanos: Utc::now().timestamp_nanos_opt().unwrap() as i128 }
}

fn entry(
    id: i64,
    source_language: &str,
    source_text: &str,
    target_language: &str,
    target_text: &str,
    category_ids: Vec<CategoryId>,
) -> VocabularyEntry {
    VocabularyEntry {
        id: VocabularyEntryId(id),
        source_language: source_language.to_string(),
        source_text: source_text.to_string(),
        target_language: target_language.to_string(),
        target_text: target_text.to_string(),
        category_ids,
        created_at: now(),
        updated_at: now(),
    }
}

fn rng() -> StdRng {
    StdRng::seed_from_u64(42)
}

fn fruit() -> CategoryId {
    CategoryId(1)
}

fn snacks() -> CategoryId {
    CategoryId(2)
}

#[test]
fn accepts_a_count_within_bounds() {
    assert_eq!(validate_question_count(15, 10, 20), Ok(QuestionCount(15)));
}

#[test]
fn rejects_a_count_below_the_minimum() {
    assert_eq!(
        validate_question_count(5, 10, 20),
        Err(QuestionCountError::OutOfRange { min: 10, max: 20 })
    );
}

#[test]
fn rejects_a_count_above_the_maximum() {
    assert_eq!(
        validate_question_count(25, 10, 20),
        Err(QuestionCountError::OutOfRange { min: 10, max: 20 })
    );
}

#[test]
fn the_bounds_themselves_are_accepted() {
    assert_eq!(validate_question_count(10, 10, 20), Ok(QuestionCount(10)));
    assert_eq!(validate_question_count(20, 10, 20), Ok(QuestionCount(20)));
}

#[test]
fn question_count_error_message_names_the_bounds() {
    assert_eq!(
        QuestionCountError::OutOfRange { min: 10, max: 20 }.to_string(),
        "question count must be between 10 and 20"
    );
}

#[test]
fn no_prior_correct_answer_is_never_in_cooldown() {
    assert!(!is_in_cooldown(None, ONE_DAY_MILLIS, now()));
}

#[test]
fn recent_correct_answer_is_in_cooldown() {
    let now = now();
    let last_correct_at = Timestamp { unix_nanos: now.unix_nanos - 3_600_000_000_000 };

    assert!(is_in_cooldown(Some(last_correct_at), ONE_DAY_MILLIS, now));
}

#[test]
fn correct_answer_outside_the_interval_is_not_in_cooldown() {
    let now = now();
    let last_correct_at = Timestamp { unix_nanos: now.unix_nanos - 2 * NANOS_PER_DAY };

    assert!(!is_in_cooldown(Some(last_correct_at), ONE_DAY_MILLIS, now));
}

#[test]
fn cooldown_ends_exactly_at_the_interval() {
    let now = now();
    let last_correct_at = Timestamp { unix_nanos: now.unix_nanos - NANOS_PER_DAY };

    assert!(!is_in_cooldown(Some(last_correct_at), ONE_DAY_MILLIS, now));
}

#[test]
fn finds_distractors_from_the_selected_category_first() {
    let target = entry(1, "es", "manzana", "en", "apple", vec![fruit()]);
    let others = vec![
        target.clone(),
        entry(2, "es", "naranja", "en", "orange", vec![fruit()]),
        entry(3, "es", "platano", "en", "banana", vec![fruit()]),
        entry(4, "es", "uva", "en", "grape", vec![fruit()]),
        entry(5, "es", "pera", "en", "pear", vec![fruit()]),
        entry(6, "es", "hermano", "en", "brother", vec![snacks()]),
    ];

    let distractors = find_distractor_texts(
        &target,
        TranslationDirection::SourceToTarget,
        fruit(),
        &others,
        4,
    )
    .expect("expected four distractors");

    assert_eq!(distractors.len(), 4);
    assert!(!distractors.contains(&"brother".to_string()));
}

#[test]
fn falls_back_to_other_categories_in_the_same_language_pair() {
    let target = entry(1, "es", "manzana", "en", "apple", vec![fruit()]);
    let others = vec![
        target.clone(),
        entry(2, "es", "naranja", "en", "orange", vec![fruit()]),
        entry(3, "es", "hermano", "en", "brother", vec![snacks()]),
        entry(4, "es", "hermana", "en", "sister", vec![snacks()]),
        entry(5, "es", "perro", "en", "dog", vec![snacks()]),
    ];

    let distractors = find_distractor_texts(
        &target,
        TranslationDirection::SourceToTarget,
        fruit(),
        &others,
        4,
    )
    .expect("expected four distractors via fallback");

    assert_eq!(distractors.len(), 4);
    assert!(distractors.contains(&"brother".to_string()));
}

#[test]
fn returns_none_when_fewer_than_four_distractors_exist() {
    let target = entry(1, "es", "manzana", "en", "apple", vec![fruit()]);
    let others = vec![
        target.clone(),
        entry(2, "es", "naranja", "en", "orange", vec![fruit()]),
    ];

    assert_eq!(
        find_distractor_texts(
            &target,
            TranslationDirection::SourceToTarget,
            fruit(),
            &others,
            4,
        ),
        None
    );
}

#[test]
fn deduplicates_distractor_texts() {
    let target = entry(1, "es", "manzana", "en", "apple", vec![fruit()]);
    let others = vec![
        target.clone(),
        entry(2, "es", "naranja", "en", "orange", vec![fruit()]),
        entry(3, "fr", "orange", "en", "orange", vec![fruit()]),
        entry(4, "es", "platano", "en", "banana", vec![fruit()]),
        entry(5, "es", "uva", "en", "grape", vec![fruit()]),
        entry(6, "es", "pera", "en", "pear", vec![fruit()]),
    ];

    let distractors = find_distractor_texts(
        &target,
        TranslationDirection::SourceToTarget,
        fruit(),
        &others,
        4,
    )
    .expect("expected four distractors");

    let orange_count = distractors.iter().filter(|text| *text == "orange").count();
    assert_eq!(orange_count, 1);
}

#[test]
fn distractors_are_taken_in_the_answer_language_for_the_reverse_direction() {
    let target = entry(1, "es", "manzana", "en", "apple", vec![fruit()]);
    let others = vec![
        target.clone(),
        entry(2, "es", "naranja", "en", "orange", vec![fruit()]),
        entry(3, "es", "platano", "en", "banana", vec![fruit()]),
        entry(4, "es", "uva", "en", "grape", vec![fruit()]),
        entry(5, "es", "pera", "en", "pear", vec![fruit()]),
    ];

    let distractors = find_distractor_texts(
        &target,
        TranslationDirection::TargetToSource,
        fruit(),
        &others,
        4,
    )
    .expect("expected four distractors");

    assert_eq!(distractors, vec!["naranja", "platano", "uva", "pera"]);
}

#[test]
fn the_correct_answer_is_never_its_own_distractor() {
    let target = entry(1, "es", "manzana", "en", "apple", vec![fruit()]);
    let others = vec![
        target.clone(),
        entry(2, "fr", "pomme", "en", "apple", vec![fruit()]),
        entry(3, "es", "platano", "en", "banana", vec![fruit()]),
        entry(4, "es", "uva", "en", "grape", vec![fruit()]),
        entry(5, "es", "pera", "en", "pear", vec![fruit()]),
    ];

    assert_eq!(
        find_distractor_texts(
            &target,
            TranslationDirection::SourceToTarget,
            fruit(),
            &others,
            4,
        ),
        None
    );
}

fn eligible_pool() -> Vec<VocabularyEntry> {
    vec![
        entry(1, "es", "manzana", "en", "apple", vec![fruit()]),
        entry(2, "es", "naranja", "en", "orange", vec![fruit()]),
        entry(3, "es", "platano", "en", "banana", vec![fruit()]),
        entry(4, "es", "uva", "en", "grape", vec![fruit()]),
        entry(5, "es", "pera", "en", "pear", vec![fruit()]),
    ]
}

fn input<'a>(
    pool: &'a [VocabularyEntry],
    requested_count: u32,
    last_correct_at: &'a [LastCorrect],
) -> GenerateSessionInput<'a> {
    GenerateSessionInput {
        category_id: fruit(),
        direction: TranslationDirection::SourceToTarget,
        requested_count,
        category_entries: pool,
        all_entries: pool,
        last_correct_at,
        min_interval_before_retest_millis: ONE_DAY_MILLIS,
        incorrect_distractor_count: 4,
        now: now(),
    }
}

#[test]
fn generates_the_requested_number_of_questions_when_enough_are_eligible() {
    let pool = eligible_pool();
    let questions = generate_session_questions(input(&pool, 3, &[]), &mut rng());

    assert_eq!(questions.len(), 3);
}

#[test]
fn generates_fewer_questions_than_requested_when_that_is_all_that_is_available() {
    let pool = eligible_pool();
    let questions = generate_session_questions(input(&pool, 20, &[]), &mut rng());

    assert_eq!(questions.len(), 5);
}

#[test]
fn generates_no_questions_when_none_are_eligible() {
    let pool = vec![entry(1, "es", "manzana", "en", "apple", vec![fruit()])];
    let questions = generate_session_questions(input(&pool, 5, &[]), &mut rng());

    assert!(questions.is_empty());
}

#[test]
fn excludes_entries_within_the_retest_cooldown() {
    let pool = eligible_pool();
    let last_correct_at = vec![LastCorrect {
        vocabulary_entry_id: VocabularyEntryId(1),
        direction: TranslationDirection::SourceToTarget,
        last_correct_at: now(),
    }];

    let questions = generate_session_questions(input(&pool, 5, &last_correct_at), &mut rng());

    assert_eq!(questions.len(), 4);
    assert!(questions
        .iter()
        .all(|question| question.vocabulary_entry_id != VocabularyEntryId(1)));
}

#[test]
fn each_question_has_one_correct_option_and_a_trailing_dont_know() {
    let pool = eligible_pool();
    let questions = generate_session_questions(input(&pool, 1, &[]), &mut rng());

    let question = &questions[0];
    assert_eq!(question.options.len(), 6);
    assert_eq!(question.options.iter().filter(|o| o.is_correct).count(), 1);
    assert_eq!(
        question
            .options
            .iter()
            .filter(|o| !o.is_correct && !o.is_dont_know)
            .count(),
        4
    );
    let last = question.options.last().unwrap();
    assert!(last.is_dont_know);
    assert_eq!(last.text, "Don't know");
}

#[test]
fn build_question_prompts_in_the_direction_and_marks_the_answer() {
    let target = entry(1, "es", "manzana", "en", "apple", vec![fruit()]);
    let distractors = vec![
        "orange".to_string(),
        "banana".to_string(),
        "grape".to_string(),
        "pear".to_string(),
    ];

    let question =
        build_question(&target, TranslationDirection::SourceToTarget, distractors, &mut rng());

    assert_eq!(question.prompt_text, "manzana");
    assert_eq!(question.vocabulary_entry_id, VocabularyEntryId(1));
    assert_eq!(question.correct_text(), "apple");
    let ids: Vec<u32> = question.options.iter().map(|o| o.id).collect();
    assert_eq!(ids, vec![1, 2, 3, 4, 5, 6]);
    let mut texts: Vec<String> = question.options[..5].iter().map(|o| o.text.clone()).collect();
    texts.sort();
    assert_eq!(texts, vec!["apple", "banana", "grape", "orange", "pear"]);
}

#[test]
fn to_public_withholds_correctness() {
    let option = OptionSnapshot {
        id: 3,
        text: "apple".to_string(),
        is_correct: true,
        is_dont_know: false,
    };

    let public = option.to_public();

    assert_eq!(public.id, 3);
    assert_eq!(public.text, "apple");
    assert!(!public.is_dont_know);
}

#[test]
fn session_status_round_trips_through_its_token() {
    for status in [SessionStatus::Active, SessionStatus::Completed] {
        assert_eq!(SessionStatus::parse_token(&status.to_string()), Ok(status));
    }
    assert!(SessionStatus::parse_token("paused").is_err());
}

#[test]
fn ids_display_as_their_number() {
    assert_eq!(PracticeSessionId(12).to_string(), "12");
    assert_eq!(PracticeQuestionId(-3).to_string(), "-3");
}

#[test]
fn option_order_is_shuffled_by_the_generator() {
    let target = entry(1, "es", "manzana", "en", "apple", vec![fruit()]);
    let mut orders = Vec::new();
    for seed in 0..10 {
        let distractors = vec![
            "orange".to_string(),
            "banana".to_string(),
            "grape".to_string(),
            "pear".to_string(),
        ];
        let question = build_question(
            &target,
            TranslationDirection::SourceToTarget,
            distractors,
            &mut StdRng::seed_from_u64(seed),
        );
        let texts: Vec<String> = question.options.iter().map(|o| o.text.clone()).collect();
        orders.push(texts);
    }

    assert!(orders.iter().any(|texts| texts[..5] != orders[0][..5]));
}
