//! The pure parts of `POST /api/practice-sessions` and
//! `GET /api/practice-sessions/:id`: what a create request must carry
//! before any Question is generated, and the error responses.

use crate::categories::CategoryId;
use crate::envelope::{
    bare_response, is_bare_error_response, is_error_response, single_detail_response,
    ErrorResponse, BAD_REQUEST, CONFLICT, NOT_FOUND,
};
use crate::instant::Timestamp;
use crate::learners::LearnerId;
use crate::practice_sessions::{validate_question_count, QuestionCount, QuestionCountError};
use crate::text::{decimal_chars, push_decimal};
use crate::translation_direction::TranslationDirection;
use vstd::prelude::*;

verus! {

/// The body of `POST /api/practice-sessions`.
#[derive(Clone, Copy, Debug, PartialEq, Eq, Structural)]
pub struct CreatePracticeSessionRequest {
    pub category_id: CategoryId,
    pub direction: TranslationDirection,
    pub question_count: u32,
}

/// Whether `r` is the `400` for a request without a current learner.
pub open spec fn is_no_current_learner_error(r: ErrorResponse, now: Timestamp) -> bool {
    is_error_response(
        r,
        BAD_REQUEST,
        "LEARNER_NOT_SELECTED"@,
        "No current learner is selected."@,
        "learner_id"@,
        "No current-learner cookie was present"@,
        now,
    )
}

/// The `400` for a request without a current learner.
pub fn no_current_learner_error(now: Timestamp) -> (r: ErrorResponse)
    ensures
        is_no_current_learner_error(r, now),
{
    single_detail_response(
        BAD_REQUEST,
        "LEARNER_NOT_SELECTED",
        "No current learner is selected.",
        "learner_id",
        "No current-learner cookie was present",
        now,
    )
}

/// The reason given for a question count outside `min..=max`.
pub open spec fn question_count_reason(min: u32, max: u32) -> Seq<char> {
    "Must be between "@ + decimal_chars(min as nat) + " and "@ + decimal_chars(max as nat)
}

/// Whether `r` is the `400` for a question count outside `min..=max`.
pub open spec fn is_question_count_error(r: ErrorResponse, min: u32, max: u32, now: Timestamp) -> bool {
    is_error_response(
        r,
        BAD_REQUEST,
        "VALIDATION_ERROR"@,
        "Invalid practice session request."@,
        "question_count"@,
        question_count_reason(min, max),
        now,
    )
}

/// The `400` for a question count outside the configured bounds.
pub fn question_count_error(error: QuestionCountError, now: Timestamp) -> (r: ErrorResponse)
    ensures
        ({
            let QuestionCountError::OutOfRange { min, max } = error;
            is_question_count_error(r, min, max, now)
        }),
{
    let QuestionCountError::OutOfRange { min, max } = error;
    let mut reason = String::from_str("Must be between ");
    push_decimal(&mut reason, min as u64);
    reason.append(" and ");
    push_decimal(&mut reason, max as u64);
    proof {
        reveal_strlit("Must be between ");
        reveal_strlit(" and ");
    }
    single_detail_response(
        BAD_REQUEST,
        "VALIDATION_ERROR",
        "Invalid practice session request.",
        "question_count",
        reason.as_str(),
        now,
    )
}

/// Whether `r` is the `409` for a Category and Direction with nothing
/// Eligible to ask.
pub open spec fn is_no_eligible_questions_error(r: ErrorResponse, now: Timestamp) -> bool {
    is_bare_error_response(
        r,
        CONFLICT,
        "NO_ELIGIBLE_QUESTIONS"@,
        "No eligible vocabulary is available for this category and direction right now."@,
        now,
    )
}

/// The `409` for a Category and Direction with nothing Eligible to ask.
pub fn no_eligible_questions_error(now: Timestamp) -> (r: ErrorResponse)
    ensures
        is_no_eligible_questions_error(r, now),
{
    bare_response(
        CONFLICT,
        "NO_ELIGIBLE_QUESTIONS",
        "No eligible vocabulary is available for this category and direction right now.",
        now,
    )
}

/// The `404` for a Practice Session id that matches no row.
pub fn not_found_error(now: Timestamp) -> (r: ErrorResponse)
    ensures
        is_error_response(
            r,
            NOT_FOUND,
            "PRACTICE_SESSION_NOT_FOUND"@,
            "That practice session no longer exists."@,
            "id"@,
            "Not found"@,
            now,
        ),
{
    single_detail_response(
        NOT_FOUND,
        "PRACTICE_SESSION_NOT_FOUND",
        "That practice session no longer exists.",
        "id",
        "Not found",
        now,
    )
}

/// The checks a create request passes before any entry is read: a current
/// learner is selected (`400` otherwise), then the requested count lies in
/// `min..=max` (`400` otherwise).
pub fn check_session_request(
    learner: Option<LearnerId>,
    request: &CreatePracticeSessionRequest,
    min: u32,
    max: u32,
    now: Timestamp,
) -> (r: Result<(LearnerId, QuestionCount), ErrorResponse>)
    ensures
        match r {
            Ok((id, count)) => learner == Some(id) && min <= request.question_count <= max
                && count.0 == request.question_count,
            Err(e) => match learner {
                None => is_no_current_learner_error(e, now),
                Some(_) => (request.question_count < min || request.question_count > max)
                    && is_question_count_error(e, min, max, now),
            },
        },
{
    let id = match learner {
        Some(id) => id,
        None => {
            return Err(no_current_learner_error(now));
        },
    };
    match validate_question_count(request.question_count, min, max) {
        Ok(count) => Ok((id, count)),
        Err(e) => Err(question_count_error(e, now)),
    }
}

/// A generated Question set is only stored when it holds at least one
/// Question; an empty one is the `409`.
pub fn require_questions(question_count: usize, now: Timestamp) -> (r: Result<(), ErrorResponse>)
    ensures
        match r {
            Ok(()) => question_count > 0,
            Err(e) => question_count == 0 && is_no_eligible_questions_error(e, now),
        },
{
    if question_count == 0 {
        return Err(no_eligible_questions_error(now));
    }
    Ok(())
}

} // verus!
