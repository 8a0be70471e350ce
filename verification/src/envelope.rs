//! The success/error envelope shared by every API response. The shell
//! serialises these values; the library only decides what they hold.

use crate::instant::Timestamp;
use vstd::prelude::*;

verus! {

/// Response metadata: when the response was produced.
#[derive(Clone, Copy, Debug, PartialEq, Eq, Structural)]
pub struct Meta {
    pub timestamp: Timestamp,
}

/// A successful response: `status`, an optional `data` payload (omitted
/// from the wire form when absent) and `meta`.
#[derive(Clone, Debug, PartialEq, Eq)]
pub struct SuccessEnvelope<T> {
    pub status: SuccessStatus,
    pub data: Option<T>,
    pub meta: Meta,
}

/// The `status` of a successful response; on the wire, `success`.
#[derive(Clone, Copy, Debug, PartialEq, Eq, Structural)]
pub enum SuccessStatus {
    Success,
}

/// One field-level problem behind an error.
#[derive(Clone, Debug, PartialEq, Eq)]
pub struct ErrorDetail {
    pub field: String,
    pub reason: String,
}

/// The body of an error: a stable machine-readable `code`, a human
/// message, and field-level details (omitted from the wire form when
/// empty).
#[derive(Clone, Debug, PartialEq, Eq)]
pub struct ErrorBody {
    pub code: String,
    pub message: String,
    pub details: Vec<ErrorDetail>,
}

/// An error response's envelope.
#[derive(Clone, Debug, PartialEq, Eq)]
pub struct ErrorEnvelope {
    pub status: ErrorStatus,
    pub error: ErrorBody,
    pub meta: Meta,
}

/// The `status` of an error response; on the wire, `error`.
#[derive(Clone, Copy, Debug, PartialEq, Eq, Structural)]
pub enum ErrorStatus {
    Error,
}

/// An [`ErrorEnvelope`] paired with the HTTP status code it is returned
/// with, so handlers construct both together.
#[derive(Clone, Debug, PartialEq, Eq)]
pub struct ErrorResponse {
    pub status_code: u16,
    pub envelope: ErrorEnvelope,
}

/// HTTP `400 Bad Request`.
pub const BAD_REQUEST: u16 = 400;

/// HTTP `404 Not Found`.
pub const NOT_FOUND: u16 = 404;

/// HTTP `409 Conflict`.
pub const CONFLICT: u16 = 409;

/// HTTP `500 Internal Server Error`.
pub const INTERNAL_SERVER_ERROR: u16 = 500;

/// Builds a success envelope carrying `data`, timestamped `now`.
pub fn success<T>(data: T, now: Timestamp) -> (e: SuccessEnvelope<T>)
    ensures
        e.status == SuccessStatus::Success,
        e.data == Some(data),
        e.meta.timestamp == now,
{
    SuccessEnvelope { status: SuccessStatus::Success, data: Some(data), meta: Meta { timestamp: now } }
}

/// Builds a success envelope with no `data` payload, e.g. for a successful
/// deletion, timestamped `now`.
pub fn success_without_data(now: Timestamp) -> (e: SuccessEnvelope<()>)
    ensures
        e.status == SuccessStatus::Success,
        e.data is None,
        e.meta.timestamp == now,
{
    SuccessEnvelope { status: SuccessStatus::Success, data: None, meta: Meta { timestamp: now } }
}

/// Builds an error envelope, timestamped `now`. `details` may be empty, in
/// which case the wire form omits it.
pub fn error(code: &str, message: &str, details: Vec<ErrorDetail>, now: Timestamp) -> (e:
    ErrorEnvelope)
    ensures
        e.status == ErrorStatus::Error,
        e.error.code@ == code@,
        e.error.message@ == message@,
        e.error.details@ == details@,
        e.meta.timestamp == now,
{
    ErrorEnvelope {
        status: ErrorStatus::Error,
        error: ErrorBody {
            code: String::from_str(code),
            message: String::from_str(message),
            details,
        },
        meta: Meta { timestamp: now },
    }
}

/// A single field-level detail.
pub fn detail(field: &str, reason: &str) -> (d: ErrorDetail)
    ensures
        d.field@ == field@,
        d.reason@ == reason@,
{
    ErrorDetail { field: String::from_str(field), reason: String::from_str(reason) }
}

/// Whether `r` is the response with status `status_code`, error `code`,
/// `message` and the single detail `field`/`reason`, timestamped `now`.
pub open spec fn is_error_response(
    r: ErrorResponse,
    status_code: u16,
    code: Seq<char>,
    message: Seq<char>,
    field: Seq<char>,
    reason: Seq<char>,
    now: Timestamp,
) -> bool {
    &&& r.status_code == status_code
    &&& r.envelope.status == ErrorStatus::Error
    &&& r.envelope.error.code@ == code
    &&& r.envelope.error.message@ == message
    &&& r.envelope.error.details@.len() == 1
    &&& r.envelope.error.details@[0].field@ == field
    &&& r.envelope.error.details@[0].reason@ == reason
    &&& r.envelope.meta.timestamp == now
}

/// An error response with a single field-level detail.
pub fn single_detail_response(
    status_code: u16,
    code: &str,
    message: &str,
    field: &str,
    reason: &str,
    now: Timestamp,
) -> (r: ErrorResponse)
    ensures
        is_error_response(r, status_code, code@, message@, field@, reason@, now),
{
    let mut details: Vec<ErrorDetail> = Vec::new();
    details.push(detail(field, reason));
    ErrorResponse { status_code, envelope: error(code, message, details, now) }
}

/// Whether `r` is the response with status `status_code`, error `code` and
/// `message`, and no details, timestamped `now`.
pub open spec fn is_bare_error_response(
    r: ErrorResponse,
    status_code: u16,
    code: Seq<char>,
    message: Seq<char>,
    now: Timestamp,
) -> bool {
    &&& r.status_code == status_code
    &&& r.envelope.status == ErrorStatus::Error
    &&& r.envelope.error.code@ == code
    &&& r.envelope.error.message@ == message
    &&& r.envelope.error.details@.len() == 0
    &&& r.envelope.meta.timestamp == now
}

/// An error response without field-level details.
pub fn bare_response(status_code: u16, code: &str, message: &str, now: Timestamp) -> (r:
    ErrorResponse)
    ensures
        is_bare_error_response(r, status_code, code@, message@, now),
{
    ErrorResponse { status_code, envelope: error(code, message, Vec::new(), now) }
}

} // verus!
