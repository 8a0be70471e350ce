//! The pure parts of the Vocabulary Entry endpoints: request bodies, the
//! validation each create, bulk-import and edit request passes before the
//! store is touched (in a fixed order, reporting the first failure), the
//! listing filter, and the error responses.

use crate::categories::{normalized_name_chars, validate_name, CategoryId};
use crate::envelope::{
    is_error_response, single_detail_response, ErrorResponse, BAD_REQUEST, CONFLICT, NOT_FOUND,
};
use crate::instant::Timestamp;
use crate::text::{decimal_chars, lowercase_chars, push_decimal, str_eq, to_lowercase, trim, trim_chars};
use crate::vocabulary_entries::repository::ListFilter;
use crate::vocabulary_entries::{
    find_duplicate_identity_index, identity_chars, is_supported_language, language_key,
    normalized_identity, validate_category_ids, validate_language, validate_text, EntryText,
    LanguageCode,
};
use vstd::prelude::*;

verus! {

/// The body of `POST /api/vocabulary-entries`.
#[derive(Clone, Debug, PartialEq, Eq)]
pub struct CreateVocabularyEntryRequest {
    pub source_language: String,
    pub source_text: String,
    pub target_language: String,
    pub target_text: String,
    pub category_ids: Vec<CategoryId>,
}

/// One `source | target | category` row of a bulk import, as the client
/// parsed it.
#[derive(Clone, Debug, PartialEq, Eq)]
pub struct BulkVocabularyEntryRow {
    pub source_language: String,
    pub source_text: String,
    pub target_language: String,
    pub target_text: String,
    pub category_name: String,
}

/// The body of `POST /api/vocabulary-entries/bulk`.
#[derive(Clone, Debug, PartialEq, Eq)]
pub struct CreateVocabularyEntriesBulkRequest {
    pub entries: Vec<BulkVocabularyEntryRow>,
}

/// The query of `GET /api/vocabulary-entries`.
#[derive(Clone, Debug, PartialEq, Eq)]
pub struct ListVocabularyEntriesQuery {
    pub category_id: Option<CategoryId>,
    pub source_language: Option<String>,
    pub target_language: Option<String>,
}

/// The body of `PATCH /api/vocabulary-entries/:id`.
#[derive(Clone, Debug, PartialEq, Eq)]
pub struct EditVocabularyEntryRequest {
    pub source_text: String,
    pub target_text: String,
    pub category_ids: Vec<CategoryId>,
    /// Accepted so a client resubmitting the read payload does not need to
    /// strip fields, but a value differing from the stored language is
    /// rejected: languages are immutable after creation.
    pub source_language: Option<String>,
    pub target_language: Option<String>,
}

/// The reason given for a rejected language code.
pub open spec fn language_reason() -> Seq<char> {
    "Unsupported or empty language code"@
}

/// The reason given for blank text.
pub open spec fn empty_reason() -> Seq<char> {
    "Cannot be empty"@
}

/// The reason given for an empty Category list.
pub open spec fn categories_reason() -> Seq<char> {
    "At least one category is required"@
}

/// Whether `r` is the `400` for a single-entry request, naming `field`
/// and `reason`.
pub open spec fn is_validation_error(
    r: ErrorResponse,
    field: Seq<char>,
    reason: Seq<char>,
    now: Timestamp,
) -> bool {
    is_error_response(
        r,
        BAD_REQUEST,
        "VALIDATION_ERROR"@,
        "Invalid vocabulary entry."@,
        field,
        reason,
        now,
    )
}

/// The `400` for a single-entry request, naming the offending field.
pub fn validation_error(field: &str, reason: &str, now: Timestamp) -> (r: ErrorResponse)
    ensures
        is_validation_error(r, field@, reason@, now),
{
    single_detail_response(
        BAD_REQUEST,
        "VALIDATION_ERROR",
        "Invalid vocabulary entry.",
        field,
        reason,
        now,
    )
}

/// The field path of `field` in row `index` of a bulk import.
pub open spec fn bulk_field(index: nat, field: Seq<char>) -> Seq<char> {
    "entries["@ + decimal_chars(index) + "]."@ + field
}

fn bulk_field_text(index: usize, field: &str) -> (s: String)
    ensures
        s@ == bulk_field(index as nat, field@),
{
    let mut s = String::from_str("entries[");
    push_decimal(&mut s, index as u64);
    s.append("].");
    s.append(field);
    proof {
        reveal_strlit("entries[");
        reveal_strlit("].");
    }
    s
}

/// Whether `r` is the `400` for row `index` of a bulk import, naming
/// `field` and `reason`.
pub open spec fn is_bulk_validation_error(
    r: ErrorResponse,
    index: nat,
    field: Seq<char>,
    reason: Seq<char>,
    now: Timestamp,
) -> bool {
    is_error_response(
        r,
        BAD_REQUEST,
        "VALIDATION_ERROR"@,
        "Invalid vocabulary entry in bulk import."@,
        bulk_field(index, field),
        reason,
        now,
    )
}

/// The `400` for an invalid row of a bulk import.
pub fn bulk_validation_error(index: usize, field: &str, reason: &str, now: Timestamp) -> (r:
    ErrorResponse)
    ensures
        is_bulk_validation_error(r, index as nat, field@, reason@, now),
{
    let path = bulk_field_text(index, field);
    single_detail_response(
        BAD_REQUEST,
        "VALIDATION_ERROR",
        "Invalid vocabulary entry in bulk import.",
        path.as_str(),
        reason,
        now,
    )
}

/// The `400` for a bulk row naming a Category that does not exist.
pub fn unknown_category_error(index: usize, now: Timestamp) -> (r: ErrorResponse)
    ensures
        is_error_response(
            r,
            BAD_REQUEST,
            "UNKNOWN_CATEGORY"@,
            "Bulk import references a category that does not exist."@,
            bulk_field(index as nat, "category_name"@),
            "No category with this name exists"@,
            now,
        ),
{
    let path = bulk_field_text(index, "category_name");
    single_detail_response(
        BAD_REQUEST,
        "UNKNOWN_CATEGORY",
        "Bulk import references a category that does not exist.",
        path.as_str(),
        "No category with this name exists",
        now,
    )
}

/// Whether `r` is the `409` for a language-and-text pair that already
/// exists, naming `field`.
pub open spec fn is_conflict_error(r: ErrorResponse, field: Seq<char>, now: Timestamp) -> bool {
    is_error_response(
        r,
        CONFLICT,
        "VOCABULARY_ENTRY_CONFLICT"@,
        "A vocabulary entry with this language-and-text pair already exists."@,
        field,
        "Already in use"@,
        now,
    )
}

/// The `409` for a bulk import whose pair already exists: in row `index`
/// when the duplicate is within the batch, unplaced when the store found
/// it.
pub fn bulk_conflict_error(index: Option<usize>, now: Timestamp) -> (r: ErrorResponse)
    ensures
        is_conflict_error(
            r,
            match index {
                Some(i) => bulk_field(i as nat, "target_text"@),
                None => "target_text"@,
            },
            now,
        ),
{
    let field = match index {
        Some(i) => bulk_field_text(i, "target_text"),
        None => String::from_str("target_text"),
    };
    single_detail_response(
        CONFLICT,
        "VOCABULARY_ENTRY_CONFLICT",
        "A vocabulary entry with this language-and-text pair already exists.",
        field.as_str(),
        "Already in use",
        now,
    )
}

/// Whether `r` is the `400` for an attempt to change `field`'s language.
pub open spec fn is_immutable_language_error(r: ErrorResponse, field: Seq<char>, now: Timestamp) -> bool {
    is_error_response(
        r,
        BAD_REQUEST,
        "VALIDATION_ERROR"@,
        "Vocabulary entry languages cannot be changed after creation."@,
        field,
        "Languages are immutable"@,
        now,
    )
}

/// The `400` for an attempt to change a language after creation.
pub fn immutable_language_error(field: &str, now: Timestamp) -> (r: ErrorResponse)
    ensures
        is_immutable_language_error(r, field@, now),
{
    single_detail_response(
        BAD_REQUEST,
        "VALIDATION_ERROR",
        "Vocabulary entry languages cannot be changed after creation.",
        field,
        "Languages are immutable",
        now,
    )
}

/// The `404` for a Vocabulary Entry id that matches no row.
pub fn not_found_error(now: Timestamp) -> (r: ErrorResponse)
    ensures
        is_error_response(
            r,
            NOT_FOUND,
            "VOCABULARY_ENTRY_NOT_FOUND"@,
            "That vocabulary entry no longer exists."@,
            "id"@,
            "Not found"@,
            now,
        ),
{
    single_detail_response(
        NOT_FOUND,
        "VOCABULARY_ENTRY_NOT_FOUND",
        "That vocabulary entry no longer exists.",
        "id",
        "Not found",
        now,
    )
}

/// The `409` for a single entry whose pair already exists.
pub fn conflict_error(now: Timestamp) -> (r: ErrorResponse)
    ensures
        is_conflict_error(r, "target_text"@, now),
{
    single_detail_response(
        CONFLICT,
        "VOCABULARY_ENTRY_CONFLICT",
        "A vocabulary entry with this language-and-text pair already exists.",
        "target_text",
        "Already in use",
        now,
    )
}

/// Whether a raw language code is accepted: non-empty once normalized, and
/// supported.
pub open spec fn language_accepted(raw: Seq<char>, supported: Seq<String>) -> bool {
    language_key(raw).len() > 0 && is_supported_language(language_key(raw), supported)
}

/// The first problem with a single-entry request, as (field, reason), in
/// the order source language, target language, source text, target text,
/// Categories.
pub open spec fn entry_request_problem(
    request: CreateVocabularyEntryRequest,
    supported: Seq<String>,
) -> Option<(Seq<char>, Seq<char>)> {
    if !language_accepted(request.source_language@, supported) {
        Some(("source_language"@, language_reason()))
    } else if !language_accepted(request.target_language@, supported) {
        Some(("target_language"@, language_reason()))
    } else if trim_chars(request.source_text@).len() == 0 {
        Some(("source_text"@, empty_reason()))
    } else if trim_chars(request.target_text@).len() == 0 {
        Some(("target_text"@, empty_reason()))
    } else if request.category_ids@.len() == 0 {
        Some(("category_ids"@, categories_reason()))
    } else {
        None
    }
}

/// A single-entry request that passed validation, with its identity key.
#[derive(Clone, Debug, PartialEq, Eq)]
pub struct ValidatedEntry {
    pub source_language: LanguageCode,
    pub source_text: EntryText,
    pub target_language: LanguageCode,
    pub target_text: EntryText,
    pub normalized_identity: String,
}

/// The normalized pair and identity key a valid request stands for.
pub open spec fn entry_of(
    v: ValidatedEntry,
    source_language: Seq<char>,
    source_text: Seq<char>,
    target_language: Seq<char>,
    target_text: Seq<char>,
) -> bool {
    &&& v.source_language.normalized@ == language_key(source_language)
    &&& v.target_language.normalized@ == language_key(target_language)
    &&& v.source_text.display@ == trim_chars(source_text)
    &&& v.target_text.display@ == trim_chars(target_text)
    &&& v.normalized_identity@ == identity_chars(
        language_key(source_language),
        trim_chars(source_text),
        language_key(target_language),
        trim_chars(target_text),
    )
}

/// The four checked fields of an entry, normalized, with the identity key;
/// `Err` names the first field that fails.
fn validate_pair(
    source_language: &str,
    source_text: &str,
    target_language: &str,
    target_text: &str,
    supported: &[String],
) -> (r: Result<ValidatedEntry, (&'static str, &'static str)>)
    ensures
        match r {
            Ok(v) => {
                &&& language_accepted(source_language@, supported@)
                &&& language_accepted(target_language@, supported@)
                &&& trim_chars(source_text@).len() > 0
                &&& trim_chars(target_text@).len() > 0
                &&& entry_of(v, source_language@, source_text@, target_language@, target_text@)
            },
            Err((field, reason)) => if !language_accepted(source_language@, supported@) {
                field@ == "source_language"@ && reason@ == language_reason()
            } else if !language_accepted(target_language@, supported@) {
                field@ == "target_language"@ && reason@ == language_reason()
            } else if trim_chars(source_text@).len() == 0 {
                field@ == "source_text"@ && reason@ == empty_reason()
            } else {
                trim_chars(target_text@).len() == 0 && field@ == "target_text"@ && reason@
                    == empty_reason()
            },
        },
{
    let source_language = match validate_language(source_language, supported) {
        Ok(code) => code,
        Err(_) => {
            return Err(("source_language", "Unsupported or empty language code"));
        },
    };
    let target_language = match validate_language(target_language, supported) {
        Ok(code) => code,
        Err(_) => {
            return Err(("target_language", "Unsupported or empty language code"));
        },
    };
    let source_text = match validate_text(source_text) {
        Ok(text) => text,
        Err(_) => {
            return Err(("source_text", "Cannot be empty"));
        },
    };
    let target_text = match validate_text(target_text) {
        Ok(text) => text,
        Err(_) => {
            return Err(("target_text", "Cannot be empty"));
        },
    };
    let normalized_identity = normalized_identity(
        &source_language,
        &source_text,
        &target_language,
        &target_text,
    );
    Ok(ValidatedEntry {
        source_language,
        source_text,
        target_language,
        target_text,
        normalized_identity,
    })
}

/// Validates a single-entry create request: languages, texts, then at
/// least one Category. `Err` is the `400` naming the first failing field.
pub fn validate_create_request(
    request: &CreateVocabularyEntryRequest,
    supported: &[String],
    now: Timestamp,
) -> (r: Result<ValidatedEntry, ErrorResponse>)
    ensures
        match r {
            Ok(v) => entry_request_problem(*request, supported@) is None && entry_of(
                v,
                request.source_language@,
                request.source_text@,
                request.target_language@,
                request.target_text@,
            ),
            Err(e) => entry_request_problem(*request, supported@) matches Some((field, reason))
                && is_validation_error(e, field, reason, now),
        },
{
    let entry = match validate_pair(
        request.source_language.as_str(),
        request.source_text.as_str(),
        request.target_language.as_str(),
        request.target_text.as_str(),
        supported,
    ) {
        Ok(entry) => entry,
        Err((field, reason)) => {
            return Err(validation_error(field, reason, now));
        },
    };
    match validate_category_ids(request.category_ids.as_slice()) {
        Ok(()) => Ok(entry),
        Err(_) => Err(validation_error("category_ids", "At least one category is required", now)),
    }
}

/// A bulk row that passed validation: the normalized pair and the
/// normalized name of the Category it joins.
#[derive(Clone, Debug, PartialEq, Eq)]
pub struct ValidatedBulkRow {
    pub source_language: LanguageCode,
    pub source_text: EntryText,
    pub target_language: LanguageCode,
    pub target_text: EntryText,
    pub category_normalized_name: String,
}

/// The first problem with one bulk row, as (field, reason).
pub open spec fn bulk_row_problem(row: BulkVocabularyEntryRow, supported: Seq<String>) -> Option<
    (Seq<char>, Seq<char>),
> {
    if !language_accepted(row.source_language@, supported) {
        Some(("source_language"@, language_reason()))
    } else if !language_accepted(row.target_language@, supported) {
        Some(("target_language"@, language_reason()))
    } else if trim_chars(row.source_text@).len() == 0 {
        Some(("source_text"@, empty_reason()))
    } else if trim_chars(row.target_text@).len() == 0 {
        Some(("target_text"@, empty_reason()))
    } else if trim_chars(row.category_name@).len() == 0 {
        Some(("category_name"@, empty_reason()))
    } else {
        None
    }
}

/// Whether `v` is the validated form of `row`.
pub open spec fn bulk_row_of(v: ValidatedBulkRow, row: BulkVocabularyEntryRow) -> bool {
    &&& v.source_language.normalized@ == language_key(row.source_language@)
    &&& v.target_language.normalized@ == language_key(row.target_language@)
    &&& v.source_text.display@ == trim_chars(row.source_text@)
    &&& v.target_text.display@ == trim_chars(row.target_text@)
    &&& v.category_normalized_name@ == normalized_name_chars(trim_chars(row.category_name@))
}

/// Whether `r` rejects a bulk import at row `index`: the first row with a
/// problem, named with its field and reason.
pub open spec fn bulk_rejection(
    rows: Seq<BulkVocabularyEntryRow>,
    supported: Seq<String>,
    index: int,
    r: ErrorResponse,
    now: Timestamp,
) -> bool {
    &&& 0 <= index < rows.len()
    &&& forall|k: int| 0 <= k < index ==> bulk_row_problem(#[trigger] rows[k], supported) is None
    &&& bulk_row_problem(rows[index], supported) matches Some((field, reason))
        && is_bulk_validation_error(r, index as nat, field, reason, now)
}

/// Validates every row of a bulk import, in order, before anything is
/// resolved or written: an empty batch, or the first invalid row, is the
/// `400` that rejects the whole import.
pub fn validate_bulk_rows(
    rows: &[BulkVocabularyEntryRow],
    supported: &[String],
    now: Timestamp,
) -> (r: Result<Vec<ValidatedBulkRow>, ErrorResponse>)
    ensures
        r matches Ok(validated) ==> {
            &&& rows@.len() > 0
            &&& validated@.len() == rows@.len()
            &&& forall|k: int|
                0 <= k < rows@.len() ==> bulk_row_problem(#[trigger] rows@[k], supported@) is None
                    && bulk_row_of(validated@[k], rows@[k])
        },
        r matches Err(e) ==> if rows@.len() == 0 {
            is_bulk_validation_error(e, 0, "entries"@, "At least one row is required"@, now)
        } else {
            exists|index: int| bulk_rejection(rows@, supported@, index, e, now)
        },
{
    if rows.len() == 0 {
        return Err(bulk_validation_error(0, "entries", "At least one row is required", now));
    }
    let mut validated: Vec<ValidatedBulkRow> = Vec::new();
    let mut i: usize = 0;
    while i < rows.len()
        invariant
            0 < rows@.len(),
            i <= rows@.len(),
            validated@.len() == i,
            forall|k: int|
                0 <= k < i ==> bulk_row_problem(#[trigger] rows@[k], supported@) is None
                    && bulk_row_of(validated@[k], rows@[k]),
        decreases rows@.len() - i,
    {
        let row = &rows[i];
        let checked = validate_pair(
            row.source_language.as_str(),
            row.source_text.as_str(),
            row.target_language.as_str(),
            row.target_text.as_str(),
            supported,
        );
        let entry = match checked {
            Ok(entry) => entry,
            Err((field, reason)) => {
                let e = bulk_validation_error(i, field, reason, now);
                let ghost index = i as int;
                assert(bulk_rejection(rows@, supported@, index, e, now));
                return Err(e);
            },
        };
        let category = match validate_name(row.category_name.as_str()) {
            Ok(name) => name,
            Err(_) => {
                let e = bulk_validation_error(i, "category_name", "Cannot be empty", now);
                let ghost index = i as int;
                assert(bulk_rejection(rows@, supported@, index, e, now));
                return Err(e);
            },
        };
        validated.push(
            ValidatedBulkRow {
                source_language: entry.source_language,
                source_text: entry.source_text,
                target_language: entry.target_language,
                target_text: entry.target_text,
                category_normalized_name: category.normalized,
            },
        );
        i = i + 1;
    }
    Ok(validated)
}

/// The identity key of a validated bulk row.
pub open spec fn bulk_identity(v: ValidatedBulkRow) -> Seq<char> {
    identity_chars(
        v.source_language.normalized@,
        v.source_text.display@,
        v.target_language.normalized@,
        v.target_text.display@,
    )
}

/// The identity keys of a batch of validated rows, in order.
pub open spec fn bulk_keys(rows: Seq<ValidatedBulkRow>) -> Seq<Seq<char>> {
    rows.map_values(|v: ValidatedBulkRow| bulk_identity(v))
}

/// Whether some row before `j` has the same identity key as row `j`.
pub open spec fn repeats_earlier(ids: Seq<Seq<char>>, j: int) -> bool {
    exists|i: int| 0 <= i < j && #[trigger] ids[i] == ids[j]
}

/// The identity keys of a batch's validated rows, in order; a batch that
/// holds the same pair twice is the `409` naming the first row that
/// repeats an earlier one.
pub fn bulk_identities(rows: &[ValidatedBulkRow], now: Timestamp) -> (r: Result<
    Vec<String>,
    ErrorResponse,
>)
    ensures
        r matches Ok(ids) ==> {
            &&& ids@.len() == rows@.len()
            &&& forall|k: int| 0 <= k < rows@.len() ==> (#[trigger] ids@[k])@ == bulk_identity(rows@[k])
            &&& forall|k: int|
                0 <= k < rows@.len() ==> !#[trigger] repeats_earlier(bulk_keys(rows@), k)
        },
        r matches Err(e) ==> exists|j: int|
            0 <= j < rows@.len() && repeats_earlier(
                bulk_keys(rows@),
                j,
            ) && (forall|k: int|
                0 <= k < j ==> !#[trigger] repeats_earlier(bulk_keys(rows@), k))
                && is_conflict_error(e, bulk_field(j as nat, "target_text"@), now),
{
    let ghost keys = bulk_keys(rows@);
    let mut ids: Vec<String> = Vec::new();
    let mut i: usize = 0;
    while i < rows.len()
        invariant
            i <= rows@.len(),
            keys == bulk_keys(rows@),
            ids@.len() == i,
            forall|k: int| 0 <= k < i ==> (#[trigger] ids@[k])@ == keys[k],
        decreases rows@.len() - i,
    {
        let row = &rows[i];
        ids.push(
            normalized_identity(
                &row.source_language,
                &row.source_text,
                &row.target_language,
                &row.target_text,
            ),
        );
        i = i + 1;
    }
    match find_duplicate_identity_index(ids.as_slice()) {
        None => {
            assert forall|k: int| 0 <= k < rows@.len() implies !repeats_earlier(keys, k) by {
                if repeats_earlier(keys, k) {
                    let m = choose|m: int| 0 <= m < k && #[trigger] keys[m] == keys[k];
                    assert(ids@[m]@ == ids@[k]@);
                }
            }
            Ok(ids)
        },
        Some(j) => {
            proof {
                let m = choose|m: int| 0 <= m < j && (#[trigger] ids@[m])@ == ids@[j as int]@;
                assert(keys[m] == keys[j as int]);
                assert forall|k: int| 0 <= k < j implies !repeats_earlier(keys, k) by {
                    if repeats_earlier(keys, k) {
                        let n = choose|n: int| 0 <= n < k && #[trigger] keys[n] == keys[k];
                        assert(ids@[n]@ == ids@[k]@);
                    }
                }
            }
            let e = bulk_conflict_error(Some(j), now);
            assert(0 <= j < rows@.len() && repeats_earlier(keys, j as int));
            Err(e)
        },
    }
}

/// Whether a resubmitted language differs from the stored one once
/// normalized (trimmed and lowercased); an absent one never does.
pub open spec fn language_changed(submitted: Option<String>, stored: Seq<char>) -> bool {
    submitted matches Some(l) && language_key(l@) != stored
}

/// The first problem with an edit request against the stored languages,
/// as (field, reason, whether it is a language change).
pub open spec fn edit_request_problem(
    request: EditVocabularyEntryRequest,
    stored_source_language: Seq<char>,
    stored_target_language: Seq<char>,
) -> Option<(Seq<char>, Seq<char>)> {
    if language_changed(request.source_language, stored_source_language) {
        Some(("source_language"@, "Languages are immutable"@))
    } else if language_changed(request.target_language, stored_target_language) {
        Some(("target_language"@, "Languages are immutable"@))
    } else if trim_chars(request.source_text@).len() == 0 {
        Some(("source_text"@, empty_reason()))
    } else if trim_chars(request.target_text@).len() == 0 {
        Some(("target_text"@, empty_reason()))
    } else if request.category_ids@.len() == 0 {
        Some(("category_ids"@, categories_reason()))
    } else {
        None
    }
}

/// Whether a resubmitted language, trimmed and lowercased, differs from
/// the stored one.
pub open spec fn submitted_differs(submitted: Option<String>, stored: Seq<char>) -> bool {
    submitted matches Some(l) && lowercase_chars(trim_chars(l@)) != stored
}

/// Languages are immutable after creation: an edit whose resubmitted
/// source language (trimmed, lowercased) differs from the stored one is
/// rejected naming `source_language`; otherwise one whose target language
/// differs is rejected naming `target_language`; an edit that passes keeps
/// both languages as stored.
pub proof fn lemma_edits_never_change_languages(
    request: EditVocabularyEntryRequest,
    stored_source_language: Seq<char>,
    stored_target_language: Seq<char>,
)
    ensures
        submitted_differs(request.source_language, stored_source_language) ==> edit_request_problem(
            request,
            stored_source_language,
            stored_target_language,
        ) == Some(("source_language"@, "Languages are immutable"@)),
        !submitted_differs(request.source_language, stored_source_language) && submitted_differs(
            request.target_language,
            stored_target_language,
        ) ==> edit_request_problem(request, stored_source_language, stored_target_language)
            == Some(("target_language"@, "Languages are immutable"@)),
        edit_request_problem(request, stored_source_language, stored_target_language) is None
            ==> !submitted_differs(request.source_language, stored_source_language)
            && !submitted_differs(request.target_language, stored_target_language),
{
}

/// A language change is reported as such: its reason is none of the others.
proof fn lemma_reasons_differ()
    ensures
        empty_reason() != "Languages are immutable"@,
        categories_reason() != "Languages are immutable"@,
{
    reveal_strlit("Cannot be empty");
    reveal_strlit("At least one category is required");
    reveal_strlit("Languages are immutable");
    assert(empty_reason().len() != "Languages are immutable"@.len());
    assert(categories_reason().len() != "Languages are immutable"@.len());
}

/// An edit request that passed validation: the new texts and the identity
/// key they give with the stored languages.
#[derive(Clone, Debug, PartialEq, Eq)]
pub struct ValidatedEdit {
    pub source_text: EntryText,
    pub target_text: EntryText,
    pub normalized_identity: String,
}

/// Validates an edit of an entry whose stored languages are
/// `stored_source_language` and `stored_target_language`: a resubmitted
/// language must not differ from the stored one, then texts and at least
/// one Category are checked as on creation.
pub fn validate_edit_request(
    request: &EditVocabularyEntryRequest,
    stored_source_language: &str,
    stored_target_language: &str,
    now: Timestamp,
) -> (r: Result<ValidatedEdit, ErrorResponse>)
    ensures
        r matches Ok(v) ==> {
            &&& edit_request_problem(*request, stored_source_language@, stored_target_language@) is None
            &&& v.source_text.display@ == trim_chars(request.source_text@)
            &&& v.target_text.display@ == trim_chars(request.target_text@)
            &&& v.normalized_identity@ == identity_chars(
                stored_source_language@,
                trim_chars(request.source_text@),
                stored_target_language@,
                trim_chars(request.target_text@),
            )
        },
        r matches Err(e) ==> edit_request_problem(
            *request,
            stored_source_language@,
            stored_target_language@,
        ) matches Some((field, reason)) && if reason == "Languages are immutable"@ {
            is_immutable_language_error(e, field, now)
        } else {
            is_validation_error(e, field, reason, now)
        },
        r is Ok ==> !submitted_differs(request.source_language, stored_source_language@)
            && !submitted_differs(request.target_language, stored_target_language@),
        submitted_differs(request.source_language, stored_source_language@) ==> (r matches Err(e)
            && is_immutable_language_error(e, "source_language"@, now)),
        !submitted_differs(request.source_language, stored_source_language@) && submitted_differs(
            request.target_language,
            stored_target_language@,
        ) ==> (r matches Err(e) && is_immutable_language_error(e, "target_language"@, now)),
{
    proof {
        lemma_reasons_differ();
        lemma_edits_never_change_languages(*request, stored_source_language@, stored_target_language@);
    }
    match &request.source_language {
        Some(l) => {
            let submitted = to_lowercase(trim(l.as_str()));
            if !str_eq(submitted.as_str(), stored_source_language) {
                return Err(immutable_language_error("source_language", now));
            }
        },
        None => {},
    }
    match &request.target_language {
        Some(l) => {
            let submitted = to_lowercase(trim(l.as_str()));
            if !str_eq(submitted.as_str(), stored_target_language) {
                return Err(immutable_language_error("target_language", now));
            }
        },
        None => {},
    }
    let source_text = match validate_text(request.source_text.as_str()) {
        Ok(text) => text,
        Err(_) => {
            return Err(validation_error("source_text", "Cannot be empty", now));
        },
    };
    let target_text = match validate_text(request.target_text.as_str()) {
        Ok(text) => text,
        Err(_) => {
            return Err(validation_error("target_text", "Cannot be empty", now));
        },
    };
    match validate_category_ids(request.category_ids.as_slice()) {
        Ok(()) => {},
        Err(_) => {
            return Err(validation_error("category_ids", "At least one category is required", now));
        },
    }
    let source_language = LanguageCode { normalized: String::from_str(stored_source_language) };
    let target_language = LanguageCode { normalized: String::from_str(stored_target_language) };
    let normalized_identity = normalized_identity(
        &source_language,
        &source_text,
        &target_language,
        &target_text,
    );
    Ok(ValidatedEdit { source_text, target_text, normalized_identity })
}

/// The store filter for a listing query: the Category as given, language
/// codes lowercased.
pub fn list_filter(query: &ListVocabularyEntriesQuery) -> (f: ListFilter)
    ensures
        f.category_id == query.category_id,
        match query.source_language {
            Some(l) => f.source_language matches Some(m) && m@ == lowercase_chars(l@),
            None => f.source_language is None,
        },
        match query.target_language {
            Some(l) => f.target_language matches Some(m) && m@ == lowercase_chars(l@),
            None => f.target_language is None,
        },
{
    let source_language = match &query.source_language {
        Some(l) => Some(to_lowercase(l.as_str())),
        None => None,
    };
    let target_language = match &query.target_language {
        Some(l) => Some(to_lowercase(l.as_str())),
        None => None,
    };
    ListFilter { category_id: query.category_id, source_language, target_language }
}

} // verus!
