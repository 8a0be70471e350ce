//! Direction-specific Progress: a Learner's knowledge state for one
//! Vocabulary Entry in one Translation Direction. Session generation only
//! reads its `last_correct_at` (see
//! [`crate::practice_sessions::LastCorrect`]).

use crate::text::{push_signed_decimal, signed_decimal_chars};
use vstd::prelude::*;

verus! {

/// A Direction-specific Progress row's durable identity. Newtype over the
/// raw row ID.
#[derive(Clone, Copy, Debug, PartialEq, Eq, Hash, Structural)]
pub struct DirectionProgressId(pub i64);

impl DirectionProgressId {
    /// The decimal text of the raw ID.
    pub fn to_string(&self) -> (s: String)
        ensures
            s@ == signed_decimal_chars(self.0 as int),
    {
        let mut s = String::new();
        push_signed_decimal(&mut s, self.0);
        assert(s@ =~= signed_decimal_chars(self.0 as int));
        s
    }
}

} // verus!
