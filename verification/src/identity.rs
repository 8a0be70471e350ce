//! Current-learner identity: reading a Learner ID out of a raw cookie
//! value. The cookie stores the durable Learner ID directly and is never
//! superseded by a Learner ID supplied in a request body.

use crate::learners::LearnerId;
use crate::text::{push_signed_decimal, signed_decimal_chars};
use crate::text::{parse_i64, parse_i64_chars, trim, trim_chars};
use vstd::prelude::*;

verus! {

/// The name of the current-learner cookie.
pub const LEARNER_COOKIE_NAME: &'static str = "learner_id";

/// Parses a raw cookie value into a Learner ID. A non-numeric value is
/// treated as invalid, the same as a deleted profile.
pub fn parse_learner_id(raw: &str) -> (r: Option<LearnerId>)
    ensures
        r == match parse_i64_chars(trim_chars(raw@)) {
            Some(id) => Some(LearnerId(id)),
            None => None,
        },
{
    match parse_i64(trim(raw)) {
        Some(id) => Some(LearnerId(id)),
        None => None,
    }
}

/// Seconds in one day.
pub const SECONDS_PER_DAY: i64 = 86_400;

/// The `SameSite` policy of a cookie.
#[derive(Clone, Copy, Debug, PartialEq, Eq, Structural)]
pub enum CookieSameSite {
    Strict,
    Lax,
    Unrestricted,
}

/// A cookie as the library decides it: each attribute that is set, and
/// `None` for each that is left out. The shell turns it into an HTTP
/// cookie.
#[derive(Clone, Debug, PartialEq, Eq)]
pub struct SessionCookie {
    pub name: &'static str,
    pub value: String,
    pub path: Option<&'static str>,
    pub domain: Option<String>,
    pub http_only: Option<bool>,
    pub same_site: Option<CookieSameSite>,
    pub max_age_days: Option<i64>,
}

/// The current-learner cookie for a newly created or selected Learner:
/// host-only (no `Domain`), path `/`, `HttpOnly`, `SameSite=Lax`, holding
/// the Learner ID in decimal and expiring after `lifetime_days` days.
pub fn learner_cookie(learner_id: LearnerId, lifetime_days: i64) -> (c: SessionCookie)
    requires
        i64::MIN <= lifetime_days * SECONDS_PER_DAY <= i64::MAX,
    ensures
        c.name@ == "learner_id"@,
        c.value@ == signed_decimal_chars(learner_id.0 as int),
        c.path matches Some(p) && p@ == "/"@,
        c.domain is None,
        c.http_only == Some(true),
        c.same_site == Some(CookieSameSite::Lax),
        c.max_age_days == Some(lifetime_days),
{
    let mut value = String::new();
    push_signed_decimal(&mut value, learner_id.0);
    assert(value@ =~= signed_decimal_chars(learner_id.0 as int));
    SessionCookie {
        name: LEARNER_COOKIE_NAME,
        value,
        path: Some("/"),
        domain: None,
        http_only: Some(true),
        same_site: Some(CookieSameSite::Lax),
        max_age_days: Some(lifetime_days),
    }
}

/// The identity (name and path) of the current-learner cookie, used to
/// remove it: for explicit sign-out, and for clearing an invalid or
/// deleted-profile cookie.
pub fn learner_cookie_key() -> (c: SessionCookie)
    ensures
        c.name@ == "learner_id"@,
        c.value@ == Seq::<char>::empty(),
        c.path matches Some(p) && p@ == "/"@,
        c.domain is None,
        c.http_only is None,
        c.same_site is None,
        c.max_age_days is None,
{
    SessionCookie {
        name: LEARNER_COOKIE_NAME,
        value: String::new(),
        path: Some("/"),
        domain: None,
        http_only: None,
        same_site: None,
        max_age_days: None,
    }
}

} // verus!
