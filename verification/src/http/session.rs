//! The pure parts of `POST/DELETE/GET /api/session/learner`: which Learner
//! the request's cookie names, and whether the response must clear it.
//! Identity comes from the cookie only, never from a request body.

use crate::envelope::{is_error_response, single_detail_response, ErrorResponse, NOT_FOUND};
use crate::http::cookies::{learner_cookie_presence, parse_learner_cookie_presence};
use crate::instant::Timestamp;
use crate::learners::LearnerId;
use vstd::prelude::*;

verus! {

/// The body of `POST /api/session/learner`.
#[derive(Clone, Copy, Debug, PartialEq, Eq, Structural)]
pub struct SelectLearnerRequest {
    pub learner_id: LearnerId,
}

/// Reads the `learner_id` cookie out of the request's `Cookie` header
/// (`None` when the request has no readable one). `Some(None)` means the
/// cookie was present but held a non-numeric value; `None` means no
/// `learner_id` cookie was sent.
pub fn learner_cookie_from_request(cookie_header: Option<&str>) -> (r: Option<Option<LearnerId>>)
    ensures
        r == match cookie_header {
            None => None,
            Some(h) => learner_cookie_presence(h@),
        },
{
    match cookie_header {
        None => None,
        Some(h) => parse_learner_cookie_presence(h),
    }
}

/// The `404` for selecting a Learner that does not exist.
pub fn select_not_found_error(now: Timestamp) -> (r: ErrorResponse)
    ensures
        is_error_response(
            r,
            NOT_FOUND,
            "LEARNER_NOT_FOUND"@,
            "That learner profile no longer exists."@,
            "learner_id"@,
            "Not found"@,
            now,
        ),
{
    single_detail_response(
        NOT_FOUND,
        "LEARNER_NOT_FOUND",
        "That learner profile no longer exists.",
        "learner_id",
        "Not found",
        now,
    )
}

/// The Learner to look up for `GET /api/session/learner`: the one a
/// well-formed cookie names.
pub fn learner_to_look_up(cookie: Option<Option<LearnerId>>) -> (r: Option<LearnerId>)
    ensures
        r == match cookie {
            Some(Some(id)) => Some(id),
            _ => None,
        },
{
    match cookie {
        Some(Some(id)) => Some(id),
        _ => None,
    }
}

/// Whether the response to `GET /api/session/learner` clears the cookie:
/// one was sent, but it names no existing Learner (malformed, or the
/// profile was deleted), so the client can treat both alike.
pub fn clears_stale_cookie(cookie: Option<Option<LearnerId>>, learner_found: bool) -> (r: bool)
    ensures
        r == (cookie is Some && !learner_found),
{
    cookie.is_some() && !learner_found
}

} // verus!
