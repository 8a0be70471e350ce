//! Vocabulary Entry domain: a language-neutral translation pair shared by
//! every Learner.

pub mod repository;

use crate::categories::CategoryId;
use crate::instant::Timestamp;
use crate::text::{
    lowercase_chars, nfc, nfc_chars, push_char, push_signed_decimal, signed_decimal_chars,
    str_eq, to_lowercase, trim, trim_chars,
};
use vstd::prelude::*;

verus! {

/// A Vocabulary Entry's durable identity. Newtype over the raw row ID so a
/// caller cannot pass an unrelated ID where a Vocabulary Entry ID is
/// expected.
#[derive(Clone, Copy, Debug, PartialEq, Eq, Hash, Structural)]
pub struct VocabularyEntryId(pub i64);

impl VocabularyEntryId {
    /// The decimal text of the raw ID.
    pub fn to_string(&self) -> (s: String)
        ensures
            s@ == signed_decimal_chars(self.0 as int),
    {
        let mut s = String::new();
        push_signed_decimal(&mut s, self.0);
        assert(s@ =~= signed_decimal_chars(self.0 as int));
        s
    }
}

/// A stored Vocabulary Entry: one translation pair and the Categories it
/// belongs to.
#[derive(Clone, Debug, PartialEq, Eq)]
pub struct VocabularyEntry {
    pub id: VocabularyEntryId,
    pub source_language: String,
    pub source_text: String,
    pub target_language: String,
    pub target_text: String,
    pub category_ids: Vec<CategoryId>,
    pub created_at: Timestamp,
    pub updated_at: Timestamp,
}

/// Vocabulary Entry text (source or target) that has passed validation:
/// trimmed and non-empty.
#[derive(Clone, Debug, PartialEq, Eq)]
pub struct EntryText {
    pub display: String,
}

/// Why Vocabulary Entry text was rejected.
#[derive(Clone, Copy, Debug, PartialEq, Eq, Structural)]
pub enum EntryTextError {
    Empty,
}

impl EntryTextError {
    /// The message: `text must not be empty`.
    pub fn to_string(&self) -> (s: String)
        ensures
            s@ == "text must not be empty"@,
    {
        String::from_str("text must not be empty")
    }
}

/// Validates and normalizes raw Vocabulary Entry text. Trims surrounding
/// whitespace and rejects an empty result. Case, punctuation, and accents
/// are preserved as meaningful content.
pub fn validate_text(raw: &str) -> (r: Result<EntryText, EntryTextError>)
    ensures
        match r {
            Ok(text) => trim_chars(raw@).len() > 0 && text.display@ == trim_chars(raw@),
            Err(EntryTextError::Empty) => trim_chars(raw@).len() == 0,
        },
{
    let trimmed = trim(raw);
    if trimmed.unicode_len() == 0 {
        return Err(EntryTextError::Empty);
    }
    Ok(EntryText { display: String::from_str(trimmed) })
}

/// A language code that has passed validation: normalized to lowercase and
/// checked against the configured supported-language list.
#[derive(Clone, Debug, PartialEq, Eq)]
pub struct LanguageCode {
    pub normalized: String,
}

/// Why a language code was rejected.
#[derive(Clone, Copy, Debug, PartialEq, Eq, Structural)]
pub enum LanguageCodeError {
    Empty,
    Unsupported,
}

impl LanguageCodeError {
    /// The message for each rejection.
    pub fn to_string(&self) -> (s: String)
        ensures
            *self == LanguageCodeError::Empty ==> s@ == "language code must not be empty"@,
            *self == LanguageCodeError::Unsupported ==> s@ == "language code is not supported"@,
    {
        match self {
            LanguageCodeError::Empty => String::from_str("language code must not be empty"),
            LanguageCodeError::Unsupported => String::from_str("language code is not supported"),
        }
    }
}

/// The normalized form of a raw language code: trimmed, then lowercased.
pub open spec fn language_key(raw: Seq<char>) -> Seq<char> {
    lowercase_chars(trim_chars(raw))
}

/// Whether `code` (already normalized) is in the supported list, compared
/// against each entry's lowercase form.
pub open spec fn is_supported_language(code: Seq<char>, supported: Seq<String>) -> bool {
    exists|i: int| 0 <= i < supported.len() && lowercase_chars((#[trigger] supported[i])@) == code
}

/// Normalizes a raw language code to lowercase and validates it against the
/// configured supported-language list.
pub fn validate_language(raw: &str, supported_languages: &[String]) -> (r: Result<
    LanguageCode,
    LanguageCodeError,
>)
    ensures
        match r {
            Ok(code) => code.normalized@ == language_key(raw@) && language_key(raw@).len() > 0
                && is_supported_language(language_key(raw@), supported_languages@),
            Err(LanguageCodeError::Empty) => language_key(raw@).len() == 0,
            Err(LanguageCodeError::Unsupported) => language_key(raw@).len() > 0
                && !is_supported_language(language_key(raw@), supported_languages@),
        },
{
    let normalized = to_lowercase(trim(raw));
    if normalized.as_str().unicode_len() == 0 {
        return Err(LanguageCodeError::Empty);
    }
    let mut i: usize = 0;
    while i < supported_languages.len()
        invariant
            i <= supported_languages@.len(),
            normalized@ == language_key(raw@),
            normalized@.len() > 0,
            forall|j: int|
                0 <= j < i ==> lowercase_chars((#[trigger] supported_languages@[j])@)
                    != normalized@,
        decreases supported_languages@.len() - i,
    {
        let candidate = to_lowercase(supported_languages[i].as_str());
        if str_eq(candidate.as_str(), normalized.as_str()) {
            assert(lowercase_chars(supported_languages@[i as int]@) == normalized@);
            return Ok(LanguageCode { normalized });
        }
        i = i + 1;
    }
    Err(LanguageCodeError::Unsupported)
}

/// The separator between the parts of a normalized identity key.
pub const IDENTITY_SEP: char = '\u{1}';

/// The normalized global-identity key of a language-and-text pair.
pub open spec fn identity_chars(
    source_language: Seq<char>,
    source_text: Seq<char>,
    target_language: Seq<char>,
    target_text: Seq<char>,
) -> Seq<char> {
    source_language + seq![IDENTITY_SEP] + nfc_chars(source_text) + seq![IDENTITY_SEP]
        + target_language + seq![IDENTITY_SEP] + nfc_chars(target_text)
}

/// Derives the normalized global-identity key used to reject duplicate
/// language-and-text pairs. Unicode NFC normalization is applied to text;
/// case, punctuation, and accents remain meaningful, so text is not
/// lowercased. Language codes are already normalized to lowercase.
pub fn normalized_identity(
    source_language: &LanguageCode,
    source_text: &EntryText,
    target_language: &LanguageCode,
    target_text: &EntryText,
) -> (s: String)
    ensures
        s@ == identity_chars(
            source_language.normalized@,
            source_text.display@,
            target_language.normalized@,
            target_text.display@,
        ),
{
    let source_nfc = nfc(source_text.display.as_str());
    let target_nfc = nfc(target_text.display.as_str());
    let mut s = String::from_str(source_language.normalized.as_str());
    push_char(&mut s, IDENTITY_SEP);
    s.append(source_nfc.as_str());
    push_char(&mut s, IDENTITY_SEP);
    s.append(target_language.normalized.as_str());
    push_char(&mut s, IDENTITY_SEP);
    s.append(target_nfc.as_str());
    s
}

/// Why a Vocabulary Entry's Category list was rejected.
#[derive(Clone, Copy, Debug, PartialEq, Eq, Structural)]
pub enum CategoryIdsError {
    Empty,
}

impl CategoryIdsError {
    /// The message: `at least one category is required`.
    pub fn to_string(&self) -> (s: String)
        ensures
            s@ == "at least one category is required"@,
    {
        String::from_str("at least one category is required")
    }
}

/// Validates that a Vocabulary Entry has at least one Category Membership.
pub fn validate_category_ids(category_ids: &[CategoryId]) -> (r: Result<(), CategoryIdsError>)
    ensures
        r is Ok <==> category_ids@.len() > 0,
{
    if category_ids.len() == 0 {
        return Err(CategoryIdsError::Empty);
    }
    Ok(())
}

/// The position of the first row in a batch whose identity key repeats an
/// earlier row's, so a batch holding the same pair twice is rejected before
/// anything is written.
pub fn find_duplicate_identity_index(identities: &[String]) -> (r: Option<usize>)
    ensures
        match r {
            Some(j) => j < identities@.len() && (exists|i: int|
                0 <= i < j && (#[trigger] identities@[i])@ == identities@[j as int]@) && forall|
                k: int,
                i: int,
            |
                0 <= i < k < j ==> (#[trigger] identities@[i])@ != (#[trigger] identities@[k])@,
            None => forall|k: int, i: int|
                0 <= i < k < identities@.len() ==> (#[trigger] identities@[i])@ != (
                #[trigger] identities@[k])@,
        },
{
    let mut j: usize = 0;
    while j < identities.len()
        invariant
            j <= identities@.len(),
            forall|k: int, i: int|
                0 <= i < k < j ==> (#[trigger] identities@[i])@ != (#[trigger] identities@[k])@,
        decreases identities@.len() - j,
    {
        let mut i: usize = 0;
        while i < j
            invariant
                i <= j < identities@.len(),
                forall|k: int, m: int|
                    0 <= m < k < j ==> (#[trigger] identities@[m])@ != (#[trigger] identities@[k])@,
                forall|m: int| 0 <= m < i ==> (#[trigger] identities@[m])@ != identities@[j as int]@,
            decreases j - i,
        {
            if str_eq(identities[i].as_str(), identities[j].as_str()) {
                assert(identities@[i as int]@ == identities@[j as int]@);
                return Some(j);
            }
            i = i + 1;
        }
        j = j + 1;
    }
    None
}

} // verus!
