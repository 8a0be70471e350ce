//! What the Vocabulary Entry store is handed: validated, normalized rows.
//! The queries themselves run in the shell.

use crate::categories::CategoryId;
use vstd::prelude::*;

verus! {

/// One validated entry to insert with its Category Memberships.
pub struct NewEntry<'a> {
    pub source_language: &'a str,
    pub source_text: &'a str,
    pub target_language: &'a str,
    pub target_text: &'a str,
    pub normalized_identity: &'a str,
    pub category_ids: &'a [CategoryId],
}

/// One validated bulk-import row to insert into its resolved Category.
pub struct NewBulkEntry<'a> {
    pub source_language: &'a str,
    pub source_text: &'a str,
    pub target_language: &'a str,
    pub target_text: &'a str,
    pub normalized_identity: &'a str,
    pub category_id: CategoryId,
}

/// A listing filter: by Category, and by (unordered) Language Pair.
#[derive(Clone, Debug, PartialEq, Eq)]
pub struct ListFilter {
    pub category_id: Option<CategoryId>,
    pub source_language: Option<String>,
    pub target_language: Option<String>,
}

/// A validated edit: new texts, their identity key, and the full new set
/// of Category Memberships.
pub struct EntryEdit<'a> {
    pub source_text: &'a str,
    pub target_text: &'a str,
    pub normalized_identity: &'a str,
    pub category_ids: &'a [CategoryId],
}

} // verus!
