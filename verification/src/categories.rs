//! Category domain: shared organizational content available to every
//! Learner.

use crate::text::{all_white_space, lemma_trim_ignores_padding, lowercase_chars, nfc, nfc_chars, push_signed_decimal, signed_decimal_chars, to_lowercase, trim, trim_chars};
use crate::instant::Timestamp;
use vstd::prelude::*;

verus! {

/// A Category's durable identity. Newtype over the raw row ID so a caller
/// cannot pass an unrelated ID (e.g. a Learner ID) where a Category ID is
/// expected.
#[derive(Clone, Copy, Debug, PartialEq, Eq, Hash, Structural)]
pub struct CategoryId(pub i64);

impl CategoryId {
    /// The decimal text of the raw ID.
    pub fn to_string(&self) -> (s: String)
        ensures
            s@ == signed_decimal_chars(self.0 as int),
    {
        let mut s = String::new();
        push_signed_decimal(&mut s, self.0);
        assert(s@ =~= signed_decimal_chars(self.0 as int));
        s
    }
}

/// A stored Category: its durable id, display name, and when it was
/// created and last renamed.
#[derive(Clone, Debug, PartialEq, Eq)]
pub struct Category {
    pub id: CategoryId,
    pub name: String,
    pub created_at: Timestamp,
    pub updated_at: Timestamp,
}

/// A Category name that has passed validation, paired with the normalized
/// form used for case/whitespace-insensitive uniqueness checks.
#[derive(Clone, Debug, PartialEq, Eq)]
pub struct CategoryName {
    pub display: String,
    pub normalized: String,
}

/// Why a Category name was rejected.
#[derive(Clone, Copy, Debug, PartialEq, Eq, Structural)]
pub enum CategoryNameError {
    Empty,
}

impl CategoryNameError {
    /// The message: `name must not be empty`.
    pub fn to_string(&self) -> (s: String)
        ensures
            s@ == "name must not be empty"@,
    {
        String::from_str("name must not be empty")
    }
}

/// The form of a display name used for duplicate detection: Unicode NFC,
/// then lowercase.
pub open spec fn normalized_name_chars(display: Seq<char>) -> Seq<char> {
    lowercase_chars(nfc_chars(display))
}

/// Validates and normalizes a raw Category name. Trims surrounding
/// whitespace, rejects an empty result, and derives the normalized form
/// (Unicode NFC + lowercase) used for duplicate detection while preserving
/// the trimmed display casing.
pub fn validate_name(raw: &str) -> (r: Result<CategoryName, CategoryNameError>)
    ensures
        match r {
            Ok(name) => trim_chars(raw@).len() > 0 && name.display@ == trim_chars(raw@)
                && name.normalized@ == normalized_name_chars(trim_chars(raw@)),
            Err(CategoryNameError::Empty) => trim_chars(raw@).len() == 0,
        },
{
    let trimmed = trim(raw);
    if trimmed.unicode_len() == 0 {
        return Err(CategoryNameError::Empty);
    }
    let display = String::from_str(trimmed);
    let composed = nfc(display.as_str());
    let normalized = to_lowercase(composed.as_str());
    Ok(CategoryName { display, normalized })
}

/// Ordering for the Category listing.
#[derive(Clone, Copy, Debug, PartialEq, Eq, Structural)]
pub enum CategorySort {
    CreatedAt,
    Alphabetical,
}

/// Names that differ only by surrounding whitespace are the same name:
/// validation gives them the same display text and the same
/// duplicate-detection form, so they collide as Category names.
pub proof fn lemma_padded_names_match(p: Seq<char>, name: Seq<char>, q: Seq<char>)
    requires
        all_white_space(p),
        all_white_space(q),
    ensures
        trim_chars(p + name + q) == trim_chars(name),
        normalized_name_chars(trim_chars(p + name + q)) == normalized_name_chars(trim_chars(name)),
{
    lemma_trim_ignores_padding(p, name, q);
}

} // verus!
