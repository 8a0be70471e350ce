//! Current-learner cookie: identity derivation for Learner-scoped
//! operations. The cookie stores the durable Learner ID directly and is
//! never superseded by a Learner ID supplied in a request body.
//!
//! The library builds the `Set-Cookie` header text and reads the `Cookie`
//! request header; the shell turns the text into an HTTP header value.

use crate::learners::LearnerId;
use crate::text::{
    lemma_signed_decimal_parses, lemma_trim_keeps_unpadded, parse_i64, parse_i64_chars,
    push_signed_decimal, signed_decimal_chars, str_eq, trim, trim_chars,
};
use vstd::prelude::*;

verus! {

/// The name of the current-learner cookie.
pub const LEARNER_COOKIE_NAME: &'static str = "learner_id";

/// Seconds in one day.
pub const SECONDS_PER_DAY: i64 = 86_400;

/// The index of the first `c` in `s`, or `s.len()` when there is none.
pub open spec fn index_of_char(s: Seq<char>, c: char) -> nat
    decreases s.len(),
{
    if s.len() == 0 {
        0
    } else if s[0] == c {
        0
    } else {
        1 + index_of_char(s.drop_first(), c)
    }
}

/// The value `pair` (`name=value`) gives for cookie `name`: the text after
/// the first `=`, trimmed, when the trimmed text before it is `name`.
pub open spec fn cookie_pair_value(pair: Seq<char>, name: Seq<char>) -> Option<Seq<char>> {
    let eq = index_of_char(pair, '=');
    if eq < pair.len() && trim_chars(pair.subrange(0, eq as int)) == name {
        Some(trim_chars(pair.subrange(eq + 1int, pair.len() as int)))
    } else {
        None
    }
}

/// The value of the first `;`-separated pair of `header` that names cookie
/// `name`.
pub open spec fn cookie_lookup(header: Seq<char>, name: Seq<char>) -> Option<Seq<char>>
    decreases header.len(),
{
    let end = index_of_char(header, ';');
    match cookie_pair_value(header.subrange(0, end as int), name) {
        Some(v) => Some(v),
        None => if end < header.len() {
            cookie_lookup(header.subrange(end + 1int, header.len() as int), name)
        } else {
            None
        },
    }
}

proof fn lemma_index_of_char(s: Seq<char>, c: char, j: int)
    requires
        0 <= j <= s.len(),
        forall|k: int| 0 <= k < j ==> s[k] != c,
        j == s.len() || s[j] == c,
    ensures
        index_of_char(s, c) == j,
    decreases j,
{
    if j > 0 {
        assert forall|k: int| 0 <= k < j - 1 implies s.drop_first()[k] != c by {
            assert(s.drop_first()[k] == s[k + 1]);
        }
        lemma_index_of_char(s.drop_first(), c, j - 1);
    }
}

proof fn lemma_index_of_char_bound(s: Seq<char>, c: char)
    ensures
        index_of_char(s, c) <= s.len(),
        index_of_char(s, c) < s.len() ==> s[index_of_char(s, c) as int] == c,
    decreases s.len(),
{
    if s.len() > 0 && s[0] != c {
        lemma_index_of_char_bound(s.drop_first(), c);
    }
}

/// The position of the first `c` in `s` at or after `from`, or `s`'s length.
fn find_char(s: &str, c: char, from: usize) -> (r: usize)
    requires
        from <= s@.len(),
    ensures
        r == from + index_of_char(s@.subrange(from as int, s@.len() as int), c),
        r <= s@.len(),
{
    let n = s.unicode_len();
    let mut i = from;
    while i < n && s.get_char(i) != c
        invariant
            n == s@.len(),
            from <= i <= n,
            forall|k: int| from <= k < i ==> s@[k] != c,
        decreases n - i,
    {
        i = i + 1;
    }
    proof {
        let t = s@.subrange(from as int, n as int);
        assert forall|k: int| 0 <= k < i - from implies t[k] != c by {
            assert(t[k] == s@[from + k]);
        }
        lemma_index_of_char(t, c, i - from);
    }
    i
}

/// Extracts the raw `learner_id` cookie value out of a `Cookie` request
/// header, if that cookie is present (regardless of whether its value turns
/// out to be well-formed).
pub fn learner_cookie_value(cookie_header: &str) -> (r: Option<&str>)
    ensures
        match r {
            Some(v) => cookie_lookup(cookie_header@, "learner_id"@) == Some(v@),
            None => cookie_lookup(cookie_header@, "learner_id"@) is None,
        },
{
    let n = cookie_header.unicode_len();
    let mut pos: usize = 0;
    assert(cookie_header@.subrange(0, n as int) =~= cookie_header@);
    loop
        invariant
            n == cookie_header@.len(),
            pos <= n,
            cookie_lookup(cookie_header@, "learner_id"@) == cookie_lookup(
                cookie_header@.subrange(pos as int, n as int),
                "learner_id"@,
            ),
        decreases n - pos,
    {
        let ghost rest = cookie_header@.subrange(pos as int, n as int);
        let end = find_char(cookie_header, ';', pos);
        let pair = cookie_header.substring_char(pos, end);
        assert(pair@ =~= rest.subrange(0, (end - pos) as int));
        let plen = pair.unicode_len();
        let eq = find_char(pair, '=', 0);
        assert(pair@.subrange(0, plen as int) =~= pair@);
        if eq < plen {
            let name = trim(pair.substring_char(0, eq));
            if str_eq(name, LEARNER_COOKIE_NAME) {
                proof {
                    reveal_strlit("learner_id");
                }
                let value = trim(pair.substring_char(eq + 1, plen));
                return Some(value);
            }
            proof {
                reveal_strlit("learner_id");
            }
        }
        if end >= n {
            return None;
        }
        assert(rest.subrange((end - pos + 1) as int, rest.len() as int) =~= cookie_header@.subrange(
            end + 1,
            n as int,
        ));
        pos = end + 1;
    }
}

/// The Learner ID a cookie value names: its decimal integer, if it is one.
pub open spec fn learner_id_of_value(value: Seq<char>) -> Option<LearnerId> {
    match parse_i64_chars(value) {
        Some(id) => Some(LearnerId(id)),
        None => None,
    }
}

/// What a `Cookie` header says of the current learner: `None` when no
/// `learner_id` cookie was sent, `Some(None)` when one was sent holding no
/// decimal integer, `Some(Some(id))` otherwise.
pub open spec fn learner_cookie_presence(header: Seq<char>) -> Option<Option<LearnerId>> {
    match cookie_lookup(header, "learner_id"@) {
        None => None,
        Some(v) => Some(learner_id_of_value(v)),
    }
}

/// The current Learner a `Cookie` header names, if any.
pub open spec fn learner_in_cookie_header(header: Seq<char>) -> Option<LearnerId> {
    match learner_cookie_presence(header) {
        Some(Some(id)) => Some(id),
        _ => None,
    }
}

/// Parses the current-learner ID out of a raw `Cookie` request header
/// value, distinguishing "no `learner_id` cookie was sent" (`None`) from
/// "one was sent but held a non-numeric value" (`Some(None)`). Callers that
/// react differently to a malformed cookie (clearing it) use this rather
/// than [`parse_learner_cookie`], which collapses both cases.
pub fn parse_learner_cookie_presence(cookie_header: &str) -> (r: Option<Option<LearnerId>>)
    ensures
        r == learner_cookie_presence(cookie_header@),
{
    match learner_cookie_value(cookie_header) {
        None => None,
        Some(raw) => Some(
            match parse_i64(raw) {
                Some(id) => Some(LearnerId(id)),
                None => None,
            },
        ),
    }
}

/// Parses the current-learner ID out of a raw `Cookie` request header
/// value. A missing cookie, or one holding a non-numeric value, is treated
/// as absent, the same as a deleted profile.
pub fn parse_learner_cookie(cookie_header: &str) -> (r: Option<LearnerId>)
    ensures
        r == learner_in_cookie_header(cookie_header@),
{
    match parse_learner_cookie_presence(cookie_header) {
        Some(inner) => inner,
        None => None,
    }
}

/// The `Set-Cookie` text carrying cookie value `value` with the given
/// relative lifetime.
pub open spec fn cookie_header_chars(value: Seq<char>, max_age_seconds: int) -> Seq<char> {
    "learner_id="@ + value + "; Path=/; HttpOnly; SameSite=Lax; Max-Age="@ + signed_decimal_chars(
        max_age_seconds,
    )
}

/// The `Set-Cookie` text for the current-learner cookie: host-only (no
/// `Domain` attribute), `HttpOnly`, `SameSite=Lax`, with a relative
/// `Max-Age`.
pub fn build_header_text(value: &str, max_age_seconds: i64) -> (s: String)
    ensures
        s@ == cookie_header_chars(value@, max_age_seconds as int),
{
    let mut s = String::from_str("learner_id=");
    s.append(value);
    s.append("; Path=/; HttpOnly; SameSite=Lax; Max-Age=");
    push_signed_decimal(&mut s, max_age_seconds);
    proof {
        reveal_strlit("learner_id=");
        reveal_strlit("; Path=/; HttpOnly; SameSite=Lax; Max-Age=");
    }
    s
}

/// The `Set-Cookie` text for a newly created or selected Learner, expiring
/// after `lifetime_days` days.
pub fn learner_cookie_header(learner_id: LearnerId, lifetime_days: i64) -> (s: String)
    requires
        i64::MIN <= lifetime_days * SECONDS_PER_DAY <= i64::MAX,
    ensures
        s@ == cookie_header_chars(signed_decimal_chars(learner_id.0 as int), lifetime_days * SECONDS_PER_DAY),
{
    let max_age_seconds = lifetime_days * SECONDS_PER_DAY;
    let value = learner_id.to_string();
    build_header_text(value.as_str(), max_age_seconds)
}

/// The `Set-Cookie` text that clears the current-learner cookie: an empty
/// value that expires immediately.
pub fn clear_learner_cookie_header() -> (s: String)
    ensures
        s@ == cookie_header_chars(Seq::<char>::empty(), 0),
{
    proof {
        reveal_strlit("");
    }
    build_header_text("", 0)
}

/// The first `;`-separated pair of a header that starts with
/// `learner_id=<v>` gives `v`, when `v` holds no `;` and no outer
/// whitespace.
proof fn lemma_lookup_leading_pair(v: Seq<char>, rest: Seq<char>)
    requires
        forall|i: int| 0 <= i < v.len() ==> #[trigger] v[i] != ';',
        trim_chars(v) == v,
        rest.len() == 0 || rest[0] == ';',
    ensures
        cookie_lookup("learner_id="@ + v + rest, "learner_id"@) == Some(v),
{
    reveal_strlit("learner_id=");
    reveal_strlit("learner_id");
    let prefix = "learner_id="@;
    let h = prefix + v + rest;
    let j: int = (prefix.len() + v.len()) as int;
    assert forall|k: int| 0 <= k < j implies h[k] != ';' by {
        if k < prefix.len() {
            assert(h[k] == prefix[k]);
        } else {
            assert(h[k] == v[k - prefix.len()]);
        }
    }
    if rest.len() > 0 {
        assert(h[j] == rest[0]);
    }
    lemma_index_of_char(h, ';', j);
    let pair = h.subrange(0, j);
    assert(pair =~= prefix + v);
    assert forall|k: int| 0 <= k < 10 implies pair[k] != '=' by {
        assert(pair[k] == prefix[k]);
    }
    assert(pair[10] == '=');
    lemma_index_of_char(pair, '=', 10);
    assert(pair.subrange(0, 10) =~= "learner_id"@);
    lemma_trim_keeps_unpadded("learner_id"@);
    assert(pair.subrange(11, pair.len() as int) =~= v);
}

/// The cookie the server sets for a Learner reads back as that Learner:
/// the `learner_id=<id>` pair a browser returns names the same Learner, and
/// so does the whole `Set-Cookie` text, whatever its lifetime.
pub proof fn lemma_learner_cookie_reads_back(id: LearnerId, max_age_seconds: int)
    ensures
        learner_in_cookie_header("learner_id="@ + signed_decimal_chars(id.0 as int)) == Some(id),
        learner_in_cookie_header(
            cookie_header_chars(signed_decimal_chars(id.0 as int), max_age_seconds),
        ) == Some(id),
{
    let v = signed_decimal_chars(id.0 as int);
    lemma_signed_decimal_parses(id.0);
    assert forall|i: int| 0 <= i < v.len() implies #[trigger] v[i] != ';' by {
        assert(v[i] == '-' || '0' <= v[i] <= '9');
    }
    assert(v[0] == '-' || '0' <= v[0] <= '9');
    lemma_trim_keeps_unpadded(v);
    lemma_lookup_leading_pair(v, Seq::<char>::empty());
    assert("learner_id="@ + v + Seq::<char>::empty() =~= "learner_id="@ + v);
    let attributes = "; Path=/; HttpOnly; SameSite=Lax; Max-Age="@;
    reveal_strlit("; Path=/; HttpOnly; SameSite=Lax; Max-Age=");
    let rest = attributes + signed_decimal_chars(max_age_seconds);
    assert(rest[0] == ';');
    lemma_lookup_leading_pair(v, rest);
    assert(cookie_header_chars(v, max_age_seconds) =~= "learner_id="@ + v + rest);
    assert(learner_id_of_value(v) == Some(id));
}

} // verus!
