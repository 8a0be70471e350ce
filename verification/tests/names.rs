use flashcards::categories::{self, CategoryNameError};
use flashcards::learners::{self, LearnerNameError};

#[test]
fn categories_trims_whitespace_and_preserves_display_case() {
    let name = categories::validate_name("  Animals  ").unwrap();

    assert_eq!(name.display, "Animals");
    assert_eq!(name.normalized, "animals");
}

#[test]
fn categories_rejects_empty_name_after_trimming() {
    let result = categories::validate_name("   ");

    assert_eq!(result, Err(CategoryNameError::Empty));
}

#[test]
fn categories_normalizes_unicode_form_for_duplicate_checks() {
    let precomposed = categories::validate_name("Cafe\u{0301}").unwrap();
    let decomposed = categories::validate_name("Café").unwrap();

    assert_eq!(precomposed.normalized, decomposed.normalized);
}

#[test]
fn categories_normalizes_case_for_duplicate_checks() {
    let lower = categories::validate_name("animals").unwrap();
    let upper = categories::validate_name("ANIMALS").unwrap();

    assert_eq!(lower.normalized, upper.normalized);
}

#[test]
fn learners_trims_whitespace_and_preserves_display_case() {
    let name = learners::validate_name("  Alice  ").unwrap();

    assert_eq!(name.display, "Alice");
    assert_eq!(name.normalized, "alice");
}

#[test]
fn learners_rejects_empty_name_after_trimming() {
    let result = learners::validate_name("   ");

    assert_eq!(result, Err(LearnerNameError::Empty));
}

#[test]
fn learners_normalizes_unicode_form_for_duplicate_checks() {
    let precomposed = learners::validate_name("Jose\u{0301}").unwrap();
    let decomposed = learners::validate_name("José").unwrap();

    assert_eq!(precomposed.normalized, decomposed.normalized);
}

#[test]
fn learners_normalizes_case_for_duplicate_checks() {
    let lower = learners::validate_name("alice").unwrap();
    let upper = learners::validate_name("ALICE").unwrap();

    assert_eq!(lower.normalized, upper.normalized);
}

#[test]
fn name_ids_render_as_decimal() {
    assert_eq!(categories::CategoryId(42).to_string(), "42");
    assert_eq!(learners::LearnerId(-7).to_string(), "-7");
    assert_eq!(CategoryNameError::Empty.to_string(), "name must not be empty");
}

#[test]
fn padded_names_validate_to_the_same_name() {
    assert_eq!(
        categories::validate_name("\t Animals \u{3000}").unwrap(),
        categories::validate_name("Animals").unwrap()
    );
    assert_eq!(
        learners::validate_name("\n Alice \u{a0}").unwrap(),
        learners::validate_name("Alice").unwrap()
    );
}
