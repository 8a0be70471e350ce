use flashcards::categories::CategoryId;
use flashcards::vocabulary_entries::{
    find_duplicate_identity_index, normalized_identity, validate_category_ids, validate_language,
    validate_text, CategoryIdsError, EntryTextError, LanguageCodeError,
};

fn supported() -> Vec<String> {
    vec!["en".to_string(), "es".to_string()]
}

#[test]
fn trims_whitespace_and_preserves_text_case() {
    let text = validate_text("  manzana  ").unwrap();

    assert_eq!(text.display, "manzana");
}

#[test]
fn rejects_empty_text_after_trimming() {
    assert_eq!(validate_text("   "), Err(EntryTextError::Empty));
}

#[test]
fn normalizes_language_code_to_lowercase() {
    let code = validate_language("ES", &supported()).unwrap();

    assert_eq!(code.normalized, "es");
}

#[test]
fn rejects_unsupported_language_code() {
    assert_eq!(
        validate_language("fr", &supported()),
        Err(LanguageCodeError::Unsupported)
    );
}

#[test]
fn rejects_empty_language_code() {
    assert_eq!(
        validate_language("   ", &supported()),
        Err(LanguageCodeError::Empty)
    );
}

#[test]
fn normalized_identity_matches_across_unicode_forms() {
    let source_language = validate_language("es", &supported()).unwrap();
    let target_language = validate_language("en", &supported()).unwrap();
    let precomposed = validate_text("Jose\u{0301}").unwrap();
    let decomposed = validate_text("José").unwrap();

    let identity_a = normalized_identity(
        &source_language,
        &precomposed,
        &target_language,
        &precomposed,
    );
    let identity_b =
        normalized_identity(&source_language, &decomposed, &target_language, &decomposed);

    assert_eq!(identity_a, identity_b);
}

#[test]
fn normalized_identity_treats_case_as_meaningful() {
    let source_language = validate_language("es", &supported()).unwrap();
    let target_language = validate_language("en", &supported()).unwrap();
    let lower = validate_text("manzana").unwrap();
    let upper = validate_text("Manzana").unwrap();

    let identity_lower =
        normalized_identity(&source_language, &lower, &target_language, &lower);
    let identity_upper =
        normalized_identity(&source_language, &upper, &target_language, &upper);

    assert_ne!(identity_lower, identity_upper);
}

#[test]
fn rejects_zero_category_ids() {
    assert_eq!(validate_category_ids(&[]), Err(CategoryIdsError::Empty));
}

#[test]
fn accepts_one_or_more_category_ids() {
    assert_eq!(validate_category_ids(&[CategoryId(1)]), Ok(()));
}

#[test]
fn normalized_identity_joins_the_parts_with_the_separator() {
    let es = validate_language("es", &supported()).unwrap();
    let en = validate_language("EN", &supported()).unwrap();
    let source = validate_text(" manzana ").unwrap();
    let target = validate_text("apple").unwrap();
    assert_eq!(
        normalized_identity(&es, &source, &en, &target),
        "es\u{1}manzana\u{1}en\u{1}apple"
    );
}

#[test]
fn supported_list_is_compared_case_insensitively() {
    let supported = vec!["EN".to_string()];
    assert_eq!(validate_language(" en ", &supported).unwrap().normalized, "en");
}

#[test]
fn the_first_repeated_identity_is_found() {
    let ids: Vec<String> = ["a", "b", "c", "b", "a"].iter().map(|s| s.to_string()).collect();
    assert_eq!(find_duplicate_identity_index(&ids), Some(3));
    let unique: Vec<String> = ["a", "b"].iter().map(|s| s.to_string()).collect();
    assert_eq!(find_duplicate_identity_index(&unique), None);
}
