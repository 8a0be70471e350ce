//! The pure parts of the Category endpoints: request bodies, the name a
//! create or rename request carries, the listing order, and the error
//! responses.

use crate::categories::{normalized_name_chars, validate_name, CategoryId, CategoryName, CategorySort};
use crate::envelope::{
    is_error_response, single_detail_response, ErrorResponse, BAD_REQUEST, CONFLICT, NOT_FOUND,
};
use crate::instant::Timestamp;
use crate::text::trim_chars;
use crate::vocabulary_entries::{VocabularyEntry, VocabularyEntryId};
use vstd::prelude::*;

verus! {

/// The body of `POST /api/categories`.
#[derive(Clone, Debug, PartialEq, Eq)]
pub struct CreateCategoryRequest {
    pub name: String,
}

/// The query of `GET /api/categories`.
#[derive(Clone, Copy, Debug, PartialEq, Eq, Structural)]
pub struct ListCategoriesQuery {
    pub sort: Option<CategorySort>,
}

/// The body of `PATCH /api/categories/:id`.
#[derive(Clone, Debug, PartialEq, Eq)]
pub struct RenameCategoryRequest {
    pub name: String,
}

/// The listing order a query asks for: creation order unless stated.
pub fn list_sort(query: &ListCategoriesQuery) -> (sort: CategorySort)
    ensures
        sort == match query.sort {
            Some(s) => s,
            None => CategorySort::CreatedAt,
        },
{
    match query.sort {
        Some(s) => s,
        None => CategorySort::CreatedAt,
    }
}

/// Whether `r` is the `400` for a blank Category name, made at `now`.
pub open spec fn is_validation_error(r: ErrorResponse, now: Timestamp) -> bool {
    is_error_response(
        r,
        BAD_REQUEST,
        "VALIDATION_ERROR"@,
        "Category name cannot be empty."@,
        "name"@,
        "Cannot be empty"@,
        now,
    )
}

/// The `400` for a blank Category name.
pub fn validation_error(now: Timestamp) -> (r: ErrorResponse)
    ensures
        is_validation_error(r, now),
{
    single_detail_response(
        BAD_REQUEST,
        "VALIDATION_ERROR",
        "Category name cannot be empty.",
        "name",
        "Cannot be empty",
        now,
    )
}

/// The `404` for a Category id that matches no row.
pub fn not_found_error(now: Timestamp) -> (r: ErrorResponse)
    ensures
        is_error_response(
            r,
            NOT_FOUND,
            "CATEGORY_NOT_FOUND"@,
            "That category no longer exists."@,
            "id"@,
            "Not found"@,
            now,
        ),
{
    single_detail_response(
        NOT_FOUND,
        "CATEGORY_NOT_FOUND",
        "That category no longer exists.",
        "id",
        "Not found",
        now,
    )
}

/// The `409` for a name another Category already holds.
pub fn conflict_error(now: Timestamp) -> (r: ErrorResponse)
    ensures
        is_error_response(
            r,
            CONFLICT,
            "CATEGORY_NAME_CONFLICT"@,
            "A category with this name already exists."@,
            "name"@,
            "Already in use"@,
            now,
        ),
{
    single_detail_response(
        CONFLICT,
        "CATEGORY_NAME_CONFLICT",
        "A category with this name already exists.",
        "name",
        "Already in use",
        now,
    )
}

/// The validated name a create or rename request carries, or the `400`
/// that rejects it.
pub fn requested_name(raw: &str, now: Timestamp) -> (r: Result<CategoryName, ErrorResponse>)
    ensures
        match r {
            Ok(name) => trim_chars(raw@).len() > 0 && name.display@ == trim_chars(raw@)
                && name.normalized@ == normalized_name_chars(trim_chars(raw@)),
            Err(e) => trim_chars(raw@).len() == 0 && is_validation_error(e, now),
        },
{
    match validate_name(raw) {
        Ok(name) => Ok(name),
        Err(_) => Err(validation_error(now)),
    }
}

/// Whether `r` is the `409` for deleting a Category that is some entry's
/// only Category.
pub open spec fn is_would_orphan_error(r: ErrorResponse, now: Timestamp) -> bool {
    is_error_response(
        r,
        CONFLICT,
        "CATEGORY_WOULD_ORPHAN_ENTRY"@,
        "Deleting this category would leave a vocabulary entry without a category."@,
        "id"@,
        "Is the only category of a vocabulary entry"@,
        now,
    )
}

/// The `409` for deleting a Category that is some entry's only Category:
/// deletion never cascades to Vocabulary Entries.
pub fn would_orphan_error(now: Timestamp) -> (r: ErrorResponse)
    ensures
        is_would_orphan_error(r, now),
{
    single_detail_response(
        CONFLICT,
        "CATEGORY_WOULD_ORPHAN_ENTRY",
        "Deleting this category would leave a vocabulary entry without a category.",
        "id",
        "Is the only category of a vocabulary entry",
        now,
    )
}

/// Whether `category` is `entry`'s one and only Category Membership.
pub open spec fn only_membership(entry: VocabularyEntry, category: CategoryId) -> bool {
    entry.category_ids@ == seq![category]
}

/// The ids of the entries, in order, whose only Category is `category`.
pub open spec fn orphaned_ids(entries: Seq<VocabularyEntry>, category: CategoryId) -> Seq<
    VocabularyEntryId,
>
    decreases entries.len(),
{
    if entries.len() == 0 {
        seq![]
    } else {
        let prev = orphaned_ids(entries.drop_last(), category);
        if only_membership(entries.last(), category) {
            prev.push(entries.last().id)
        } else {
            prev
        }
    }
}

/// Whether `entries` holds an entry with id `id` whose category list is
/// `category` and nothing else.
pub open spec fn has_entry_only_in(entries: Seq<VocabularyEntry>, id: VocabularyEntryId, category: CategoryId) -> bool {
    exists|j: int|
        0 <= j < entries.len() && (#[trigger] entries[j]).id == id && entries[j].category_ids@.len()
            == 1 && entries[j].category_ids@[0] == category
}

/// Deleting a Category reports an entry as orphaned exactly when that
/// Category is its one and only Category: every reported id belongs to an
/// entry whose category list holds that Category and nothing else (so an
/// entry with any other Category, in whatever order, is never the reason
/// for a report), and every such entry is reported.
pub proof fn lemma_orphaned_means_only_category(entries: Seq<VocabularyEntry>, category: CategoryId)
    ensures
        forall|k: int|
            0 <= k < orphaned_ids(entries, category).len() ==> #[trigger] has_entry_only_in(
                entries,
                orphaned_ids(entries, category)[k],
                category,
            ),
        forall|j: int|
            0 <= j < entries.len() && (#[trigger] entries[j]).category_ids@.len() == 1
                && entries[j].category_ids@[0] == category ==> orphaned_ids(
                entries,
                category,
            ).contains(entries[j].id),
    decreases entries.len(),
{
    if entries.len() > 0 {
        let rest = entries.drop_last();
        lemma_orphaned_means_only_category(rest, category);
        let prev = orphaned_ids(rest, category);
        let all = orphaned_ids(entries, category);
        let last = entries.last();
        assert(entries[entries.len() - 1] == last);
        if only_membership(last, category) {
            assert(last.category_ids@.len() == 1 && last.category_ids@[0] == category) by {
                assert(last.category_ids@ == seq![category]);
            }
            assert(all == prev.push(last.id));
        } else {
            assert(all == prev);
            assert(!(last.category_ids@.len() == 1 && last.category_ids@[0] == category)) by {
                if last.category_ids@.len() == 1 && last.category_ids@[0] == category {
                    assert(last.category_ids@ =~= seq![category]);
                }
            }
        }
        assert forall|k: int| 0 <= k < all.len() implies #[trigger] has_entry_only_in(
            entries,
            all[k],
            category,
        ) by {
            if k < prev.len() {
                assert(all[k] == prev[k]);
                assert(has_entry_only_in(rest, prev[k], category));
                let j = choose|j: int|
                    0 <= j < rest.len() && (#[trigger] rest[j]).id == prev[k]
                        && rest[j].category_ids@.len() == 1 && rest[j].category_ids@[0] == category;
                assert(entries[j] == rest[j]);
            } else {
                assert(entries[entries.len() - 1].id == all[k]);
            }
        }
        assert forall|j: int|
            0 <= j < entries.len() && (#[trigger] entries[j]).category_ids@.len() == 1
                && entries[j].category_ids@[0] == category implies all.contains(entries[j].id) by {
            if j < rest.len() {
                assert(entries[j] == rest[j]);
                assert(prev.contains(rest[j].id));
                let k = choose|k: int| 0 <= k < prev.len() && prev[k] == rest[j].id;
                assert(all[k] == prev[k]);
            } else {
                assert(all[all.len() - 1] == last.id);
            }
        }
    }
}

/// The entries that deleting `category` would leave without any Category:
/// those whose only Category Membership it is, in the order given.
pub fn orphaned_entries(entries: &[VocabularyEntry], category: CategoryId) -> (r: Vec<
    VocabularyEntryId,
>)
    ensures
        r@ == orphaned_ids(entries@, category),
        forall|k: int| 0 <= k < r@.len() ==> #[trigger] has_entry_only_in(entries@, r@[k], category),
        forall|j: int|
            0 <= j < entries@.len() && (#[trigger] entries@[j]).category_ids@.len() == 1
                && entries@[j].category_ids@[0] == category ==> r@.contains(entries@[j].id),
{
    proof {
        lemma_orphaned_means_only_category(entries@, category);
    }
    let mut ids: Vec<VocabularyEntryId> = Vec::new();
    let mut i: usize = 0;
    while i < entries.len()
        invariant
            i <= entries@.len(),
            ids@ == orphaned_ids(entries@.take(i as int), category),
        decreases entries@.len() - i,
    {
        let entry = &entries[i];
        assert(entries@.take(i + 1).drop_last() =~= entries@.take(i as int));
        assert(entries@.take(i + 1).last() == entries@[i as int]);
        let only = entry.category_ids.len() == 1 && entry.category_ids[0] == category;
        assert(only == only_membership(entries@[i as int], category)) by {
            if entry.category_ids@.len() == 1 && entry.category_ids@[0] == category {
                assert(entry.category_ids@ =~= seq![category]);
            }
        }
        if only {
            ids.push(entry.id);
        }
        i = i + 1;
    }
    assert(entries@.take(entries@.len() as int) =~= entries@);
    ids
}

/// A Category may be deleted only when no entry would be left without a
/// Category; otherwise the deletion is the `409`.
pub fn check_category_deletion(orphaned: &[VocabularyEntryId], now: Timestamp) -> (r: Result<
    (),
    ErrorResponse,
>)
    ensures
        match r {
            Ok(()) => orphaned@.len() == 0,
            Err(e) => orphaned@.len() > 0 && is_would_orphan_error(e, now),
        },
{
    if orphaned.len() > 0 {
        return Err(would_orphan_error(now));
    }
    Ok(())
}

} // verus!
