//! The cookie-jar flavour of `POST/DELETE/GET /api/session/learner`: the
//! shell's cookie jar hands over the raw `learner_id` value, and the
//! decisions are made here.

use crate::identity::parse_learner_id;
use crate::learners::LearnerId;
use crate::text::{parse_i64_chars, trim_chars};
use vstd::prelude::*;

verus! {

/// The body of `POST /api/session/learner`.
#[derive(Clone, Copy, Debug, PartialEq, Eq, Structural)]
pub struct SelectLearnerRequest {
    pub learner_id: LearnerId,
}

/// The Learner a raw cookie value names: its trimmed decimal integer, if
/// it is one. No cookie names no Learner.
pub fn current_learner_id(cookie_value: Option<&str>) -> (r: Option<LearnerId>)
    ensures
        r == match cookie_value {
            None => None,
            Some(v) => match parse_i64_chars(trim_chars(v@)) {
                Some(id) => Some(LearnerId(id)),
                None => None,
            },
        },
{
    match cookie_value {
        None => None,
        Some(v) => parse_learner_id(v),
    }
}

} // verus!
