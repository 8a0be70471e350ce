//! The pure parts of the Learner endpoints: request bodies, the name a
//! create or rename request carries, whether a deletion ends the current
//! session, and the error responses.

use crate::envelope::{
    is_error_response, single_detail_response, ErrorResponse, BAD_REQUEST, CONFLICT, NOT_FOUND,
};
use crate::http::cookies::{learner_in_cookie_header, parse_learner_cookie};
use crate::instant::Timestamp;
use crate::learners::{normalized_name_chars, validate_name, LearnerId, LearnerName};
use crate::text::trim_chars;
use vstd::prelude::*;

verus! {

/// The body of `POST /api/learners`.
#[derive(Clone, Debug, PartialEq, Eq)]
pub struct CreateLearnerRequest {
    pub name: String,
}

/// The body of `PATCH /api/learners/:id`.
#[derive(Clone, Debug, PartialEq, Eq)]
pub struct RenameLearnerRequest {
    pub name: String,
}

/// Whether `r` is the `400` for a blank Learner name, made at `now`.
pub open spec fn is_validation_error(r: ErrorResponse, now: Timestamp) -> bool {
    is_error_response(
        r,
        BAD_REQUEST,
        "VALIDATION_ERROR"@,
        "Learner name cannot be empty."@,
        "name"@,
        "Cannot be empty"@,
        now,
    )
}

/// The `400` for a blank Learner name.
pub fn validation_error(now: Timestamp) -> (r: ErrorResponse)
    ensures
        is_validation_error(r, now),
{
    single_detail_response(
        BAD_REQUEST,
        "VALIDATION_ERROR",
        "Learner name cannot be empty.",
        "name",
        "Cannot be empty",
        now,
    )
}

/// The `404` for a Learner id that matches no profile.
pub fn not_found_error(now: Timestamp) -> (r: ErrorResponse)
    ensures
        is_error_response(
            r,
            NOT_FOUND,
            "LEARNER_NOT_FOUND"@,
            "That learner profile no longer exists."@,
            "id"@,
            "Not found"@,
            now,
        ),
{
    single_detail_response(
        NOT_FOUND,
        "LEARNER_NOT_FOUND",
        "That learner profile no longer exists.",
        "id",
        "Not found",
        now,
    )
}

/// The `409` for a name another Learner already holds.
pub fn conflict_error(now: Timestamp) -> (r: ErrorResponse)
    ensures
        is_error_response(
            r,
            CONFLICT,
            "LEARNER_NAME_CONFLICT"@,
            "A learner with this name already exists."@,
            "name"@,
            "Already in use"@,
            now,
        ),
{
    single_detail_response(
        CONFLICT,
        "LEARNER_NAME_CONFLICT",
        "A learner with this name already exists.",
        "name",
        "Already in use",
        now,
    )
}

/// The validated name a create or rename request carries, or the `400`
/// that rejects it.
pub fn requested_name(raw: &str, now: Timestamp) -> (r: Result<LearnerName, ErrorResponse>)
    ensures
        match r {
            Ok(name) => trim_chars(raw@).len() > 0 && name.display@ == trim_chars(raw@)
                && name.normalized@ == normalized_name_chars(trim_chars(raw@)),
            Err(e) => trim_chars(raw@).len() == 0 && is_validation_error(e, now),
        },
{
    match validate_name(raw) {
        Ok(name) => Ok(name),
        Err(_) => Err(validation_error(now)),
    }
}

/// Whether deleting Learner `deleted` ends the requester's session: its
/// `Cookie` header (when it sent a readable one) names that Learner, so
/// the response clears the cookie.
pub fn deleted_learner_was_current(cookie_header: Option<&str>, deleted: LearnerId) -> (r: bool)
    ensures
        r == (cookie_header matches Some(h) && learner_in_cookie_header(h@) == Some(deleted)),
{
    match cookie_header {
        None => false,
        Some(h) => match parse_learner_cookie(h) {
            Some(current) => current.0 == deleted.0,
            None => false,
        },
    }
}

} // verus!
