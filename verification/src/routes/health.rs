//! `GET /api/health`: whether the server is up and can reach its database.

use crate::envelope::{bare_response, is_bare_error_response, ErrorResponse, INTERNAL_SERVER_ERROR};
use crate::instant::Timestamp;
use vstd::prelude::*;

verus! {

/// The payload of a healthy probe.
#[derive(Clone, Copy, Debug, PartialEq, Eq)]
pub struct HealthData {
    pub status: &'static str,
}

/// The payload of a healthy probe: status `ok`.
pub fn healthy() -> (d: HealthData)
    ensures
        d.status@ == "ok"@,
{
    HealthData { status: "ok" }
}

/// The `500` for a database that did not answer the probe.
pub fn database_unavailable_error(now: Timestamp) -> (r: ErrorResponse)
    ensures
        is_bare_error_response(
            r,
            INTERNAL_SERVER_ERROR,
            "DATABASE_UNAVAILABLE"@,
            "The database is currently unreachable."@,
            now,
        ),
{
    bare_response(
        INTERNAL_SERVER_ERROR,
        "DATABASE_UNAVAILABLE",
        "The database is currently unreachable.",
        now,
    )
}

} // verus!
