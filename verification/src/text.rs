//! Character-level text helpers shared by every validator: Unicode
//! whitespace trimming, decimal rendering and parsing, string equality,
//! and the two Unicode transforms (NFC, lowercase) the domain relies on.

use unicode_normalization::UnicodeNormalization;
use vstd::prelude::*;

verus! {

/// The Unicode `White_Space` property, which is exactly what
/// `char::is_whitespace` and `str::trim` test for.
pub open spec fn is_white_space(c: char) -> bool {
    let n = c as u32;
    ||| 0x9 <= n <= 0xd
    ||| n == 0x20
    ||| n == 0x85
    ||| n == 0xa0
    ||| n == 0x1680
    ||| 0x2000 <= n <= 0x200a
    ||| n == 0x2028
    ||| n == 0x2029
    ||| n == 0x202f
    ||| n == 0x205f
    ||| n == 0x3000
}

/// `s` with its leading whitespace removed.
pub open spec fn trim_start_chars(s: Seq<char>) -> Seq<char>
    decreases s.len(),
{
    if s.len() > 0 && is_white_space(s[0]) {
        trim_start_chars(s.drop_first())
    } else {
        s
    }
}

/// `s` with its trailing whitespace removed.
pub open spec fn trim_end_chars(s: Seq<char>) -> Seq<char>
    decreases s.len(),
{
    if s.len() > 0 && is_white_space(s.last()) {
        trim_end_chars(s.drop_last())
    } else {
        s
    }
}

/// `s` with whitespace removed from both ends (`str::trim`).
pub open spec fn trim_chars(s: Seq<char>) -> Seq<char> {
    trim_end_chars(trim_start_chars(s))
}

/// Whether `s` is empty or all whitespace.
pub open spec fn is_blank_chars(s: Seq<char>) -> bool {
    trim_chars(s).len() == 0
}

/// The decimal digit character for `d` (`0..=9`).
pub open spec fn digit_char(d: nat) -> char {
    if d == 0 {
        '0'
    } else if d == 1 {
        '1'
    } else if d == 2 {
        '2'
    } else if d == 3 {
        '3'
    } else if d == 4 {
        '4'
    } else if d == 5 {
        '5'
    } else if d == 6 {
        '6'
    } else if d == 7 {
        '7'
    } else if d == 8 {
        '8'
    } else {
        '9'
    }
}

/// The shortest decimal rendering of `n`, no sign and no leading zeros.
pub open spec fn decimal_chars(n: nat) -> Seq<char>
    decreases n,
{
    if n < 10 {
        seq![digit_char(n)]
    } else {
        decimal_chars(n / 10).push(digit_char(n % 10))
    }
}

/// The decimal rendering of a signed integer, with `-` for negatives.
pub open spec fn signed_decimal_chars(n: int) -> Seq<char> {
    if n < 0 {
        seq!['-'] + decimal_chars((-n) as nat)
    } else {
        decimal_chars(n as nat)
    }
}

/// Whether every character of `s` is an ASCII digit.
pub open spec fn all_ascii_digits(s: Seq<char>) -> bool {
    forall|i: int| 0 <= i < s.len() ==> '0' <= #[trigger] s[i] <= '9'
}

/// The value of a run of ASCII digits, most significant first.
pub open spec fn digits_value(s: Seq<char>) -> nat
    decreases s.len(),
{
    if s.len() == 0 {
        0
    } else {
        digits_value(s.drop_last()) * 10 + ((s.last() as u32) - ('0' as u32)) as nat
    }
}

/// What `str::parse::<i64>` yields for `s`: an optional `+` or `-`, then at
/// least one ASCII digit, and a value inside `i64`'s range.
pub open spec fn parse_i64_chars(s: Seq<char>) -> Option<i64> {
    if s.len() > 0 && (s[0] == '-' || s[0] == '+') {
        let digits = s.drop_first();
        let value = digits_value(digits) as int;
        let signed = if s[0] == '-' { -value } else { value };
        if digits.len() > 0 && all_ascii_digits(digits) && i64::MIN <= signed <= i64::MAX {
            Some(signed as i64)
        } else {
            None
        }
    } else {
        let value = digits_value(s) as int;
        if s.len() > 0 && all_ascii_digits(s) && value <= i64::MAX {
            Some(value as i64)
        } else {
            None
        }
    }
}

/// The Unicode NFC form of `s`, as computed by `unicode-normalization`.
pub uninterp spec fn nfc_chars(s: Seq<char>) -> Seq<char>;

/// The Unicode lowercase mapping of `s`, as computed by `str::to_lowercase`.
pub uninterp spec fn lowercase_chars(s: Seq<char>) -> Seq<char>;

/// Whether `c` has the Unicode `White_Space` property.
pub fn is_whitespace(c: char) -> (r: bool)
    ensures
        r == is_white_space(c),
{
    let n = c as u32;
    (0x9 <= n && n <= 0xd) || n == 0x20 || n == 0x85 || n == 0xa0 || n == 0x1680 || (0x2000 <= n
        && n <= 0x200a) || n == 0x2028 || n == 0x2029 || n == 0x202f || n == 0x205f || n == 0x3000
}

proof fn lemma_trim_start_skip(s: Seq<char>, start: int)
    requires
        0 <= start < s.len(),
        is_white_space(s[start]),
    ensures
        trim_start_chars(s.subrange(start, s.len() as int)) == trim_start_chars(
            s.subrange(start + 1, s.len() as int),
        ),
{
    assert(s.subrange(start, s.len() as int).drop_first() =~= s.subrange(
        start + 1,
        s.len() as int,
    ));
}

proof fn lemma_trim_end_skip(s: Seq<char>, start: int, end: int)
    requires
        0 <= start < end <= s.len(),
        is_white_space(s[end - 1]),
    ensures
        trim_end_chars(s.subrange(start, end)) == trim_end_chars(s.subrange(start, end - 1)),
{
    assert(s.subrange(start, end).drop_last() =~= s.subrange(start, end - 1));
}

/// `s` without leading and trailing whitespace (`str::trim`).
pub fn trim(s: &str) -> (r: &str)
    ensures
        r@ == trim_chars(s@),
{
    let n = s.unicode_len();
    let mut start: usize = 0;
    assert(s@.subrange(0, n as int) =~= s@);
    while start < n && is_whitespace(s.get_char(start))
        invariant
            n == s@.len(),
            start <= n,
            trim_start_chars(s@) == trim_start_chars(s@.subrange(start as int, n as int)),
        decreases n - start,
    {
        proof {
            lemma_trim_start_skip(s@, start as int);
        }
        start = start + 1;
    }
    assert(trim_start_chars(s@) == s@.subrange(start as int, n as int));
    let mut end: usize = n;
    while end > start && is_whitespace(s.get_char(end - 1))
        invariant
            n == s@.len(),
            start <= end <= n,
            trim_end_chars(s@.subrange(start as int, n as int)) == trim_end_chars(
                s@.subrange(start as int, end as int),
            ),
        decreases end - start,
    {
        proof {
            lemma_trim_end_skip(s@, start as int, end as int);
        }
        end = end - 1;
    }
    assert(trim_end_chars(s@.subrange(start as int, end as int)) == s@.subrange(
        start as int,
        end as int,
    ));
    s.substring_char(start, end)
}

/// Whether `s` is empty or all whitespace (`s.trim().is_empty()`).
pub fn is_blank(s: &str) -> (r: bool)
    ensures
        r == is_blank_chars(s@),
{
    trim(s).unicode_len() == 0
}

/// Character-wise equality of two string slices (what `==` on `str`
/// computes).
pub(crate) fn str_eq(a: &str, b: &str) -> (r: bool)
    ensures
        r == (a@ == b@),
{
    let n = a.unicode_len();
    if n != b.unicode_len() {
        return false;
    }
    let mut i: usize = 0;
    while i < n
        invariant
            n == a@.len(),
            n == b@.len(),
            i <= n,
            forall|k: int| 0 <= k < i ==> a@[k] == b@[k],
        decreases n - i,
    {
        if a.get_char(i) != b.get_char(i) {
            return false;
        }
        i = i + 1;
    }
    assert(a@ =~= b@);
    true
}

/// Append one character (`String::push`).
#[verifier::external_body]
pub(crate) fn push_char(s: &mut String, c: char)
    ensures
        final(s)@ == old(s)@.push(c),
{
    s.push(c);
}

/// The NFC normalisation of `s`, via `unicode_normalization::UnicodeNormalization::nfc`.
/// The contract only names the result: the Unicode algorithm is not restated.
#[verifier::external_body]
pub(crate) fn nfc(s: &str) -> (r: String)
    ensures
        r@ == nfc_chars(s@),
{
    s.nfc().collect::<String>()
}

/// The Unicode lowercase mapping of `s`, via `str::to_lowercase`. The
/// contract only names the result: the Unicode tables are not restated.
#[verifier::external_body]
pub(crate) fn to_lowercase(s: &str) -> (r: String)
    ensures
        r@ == lowercase_chars(s@),
{
    s.to_lowercase()
}

/// The digit character for `d`.
pub fn digit(d: u64) -> (c: char)
    requires
        d < 10,
    ensures
        c == digit_char(d as nat),
{
    if d == 0 {
        '0'
    } else if d == 1 {
        '1'
    } else if d == 2 {
        '2'
    } else if d == 3 {
        '3'
    } else if d == 4 {
        '4'
    } else if d == 5 {
        '5'
    } else if d == 6 {
        '6'
    } else if d == 7 {
        '7'
    } else if d == 8 {
        '8'
    } else {
        '9'
    }
}

/// Append the decimal rendering of `n` to `s`.
pub fn push_decimal(s: &mut String, n: u64)
    ensures
        final(s)@ == old(s)@ + decimal_chars(n as nat),
    decreases n,
{
    if n >= 10 {
        push_decimal(s, n / 10);
    }
    push_char(s, digit(n % 10));
    proof {
        if n >= 10 {
            assert(decimal_chars(n as nat) == decimal_chars((n / 10) as nat).push(
                digit_char((n % 10) as nat),
            ));
        }
    }
}

/// Append the decimal rendering of a signed `n` to `s`.
pub fn push_signed_decimal(s: &mut String, n: i64)
    ensures
        final(s)@ == old(s)@ + signed_decimal_chars(n as int),
{
    if n < 0 {
        push_char(s, '-');
        let magnitude: u64 = (0i128 - (n as i128)) as u64;
        push_decimal(s, magnitude);
        assert(final(s)@ =~= old(s)@ + (seq!['-'] + decimal_chars((-n) as nat)));
    } else {
        push_decimal(s, n as u64);
    }
}

/// The decimal rendering of `n`.
pub fn decimal_string(n: u64) -> (s: String)
    ensures
        s@ == decimal_chars(n as nat),
{
    let mut s = String::new();
    push_decimal(&mut s, n);
    assert(s@ =~= decimal_chars(n as nat));
    s
}

proof fn lemma_digits_value_grows(s: Seq<char>)
    requires
        s.len() > 0,
        all_ascii_digits(s),
    ensures
        digits_value(s) >= digits_value(s.drop_last()),
{
}

/// Parse a run of ASCII digits from `s[from..]` into a value no larger than
/// `limit`; `None` when a character is not a digit or the value exceeds
/// `limit`.
fn parse_digits(s: &str, from: usize, limit: u64) -> (r: Option<u64>)
    requires
        from <= s@.len(),
    ensures
        ({
            let digits = s@.subrange(from as int, s@.len() as int);
            match r {
                Some(v) => all_ascii_digits(digits) && v == digits_value(digits) && v <= limit,
                None => !all_ascii_digits(digits) || digits_value(digits) > limit,
            }
        }),
{
    let n = s.unicode_len();
    let mut acc: u64 = 0;
    let mut i: usize = from;
    let ghost full = s@.subrange(from as int, n as int);
    while i < n
        invariant
            n == s@.len(),
            from <= i <= n,
            full == s@.subrange(from as int, n as int),
            all_ascii_digits(s@.subrange(from as int, i as int)),
            acc == digits_value(s@.subrange(from as int, i as int)),
            acc <= limit,
        decreases n - i,
    {
        let c = s.get_char(i);
        let ghost prefix = s@.subrange(from as int, i as int);
        let ghost next = s@.subrange(from as int, i + 1);
        assert(next.drop_last() =~= prefix);
        assert(next.last() == c);
        if !('0' <= c && c <= '9') {
            assert(!all_ascii_digits(full)) by {
                assert(full[i - from] == c);
            }
            return None;
        }
        let d: u64 = ((c as u32) - ('0' as u32)) as u64;
        assert(all_ascii_digits(next)) by {
            assert forall|k: int| 0 <= k < next.len() implies '0' <= #[trigger] next[k] <= '9' by {
                if k < prefix.len() {
                    assert(next[k] == prefix[k]);
                }
            }
        }
        let wide: u128 = (acc as u128) * 10 + (d as u128);
        assert(digits_value(next) == digits_value(prefix) * 10 + d);
        if wide > limit as u128 {
            proof {
                assert(full.subrange(0, (i + 1 - from) as int) =~= next);
                lemma_prefix_value_bound(full, (i + 1 - from) as int, limit as nat);
            }
            return None;
        }
        acc = wide as u64;
        i = i + 1;
    }
    assert(s@.subrange(from as int, n as int) == full);
    Some(acc)
}

/// Once a digit prefix exceeds `limit`, the whole digit run does too (or it
/// is not all digits).
proof fn lemma_prefix_value_bound(s: Seq<char>, k: int, limit: nat)
    requires
        0 < k <= s.len(),
        all_ascii_digits(s.subrange(0, k)),
        digits_value(s.subrange(0, k)) > limit,
    ensures
        !all_ascii_digits(s) || digits_value(s) > limit,
    decreases s.len() - k,
{
    if k == s.len() {
        assert(s.subrange(0, k) =~= s);
    } else if all_ascii_digits(s.subrange(0, k + 1)) {
        let t = s.subrange(0, k + 1);
        assert(t.drop_last() =~= s.subrange(0, k));
        lemma_digits_value_grows(t);
        lemma_prefix_value_bound(s, k + 1, limit);
    } else {
        assert(!all_ascii_digits(s)) by {
            let t = s.subrange(0, k + 1);
            let j = choose|j: int| 0 <= j < t.len() && !('0' <= #[trigger] t[j] <= '9');
            assert(s[j] == t[j]);
        }
    }
}

/// Parse a signed 64-bit integer exactly as `str::parse::<i64>` does.
pub fn parse_i64(s: &str) -> (r: Option<i64>)
    ensures
        r == parse_i64_chars(s@),
{
    let n = s.unicode_len();
    if n == 0 {
        return None;
    }
    let first = s.get_char(0);
    if first == '-' || first == '+' {
        assert(s@.subrange(1, n as int) =~= s@.drop_first());
        if n == 1 {
            return None;
        }
        let limit: u64 = if first == '-' {
            0x8000_0000_0000_0000
        } else {
            0x7fff_ffff_ffff_ffff
        };
        match parse_digits(s, 1, limit) {
            Some(v) => {
                if first == '-' {
                    Some((0i128 - (v as i128)) as i64)
                } else {
                    Some(v as i64)
                }
            },
            None => None,
        }
    } else {
        assert(s@.subrange(0, n as int) =~= s@);
        match parse_digits(s, 0, 0x7fff_ffff_ffff_ffff) {
            Some(v) => Some(v as i64),
            None => None,
        }
    }
}

/// Whether every character of `s` is whitespace.
pub open spec fn all_white_space(s: Seq<char>) -> bool {
    forall|i: int| 0 <= i < s.len() ==> is_white_space(#[trigger] s[i])
}

proof fn lemma_trim_start_past_blank(p: Seq<char>, s: Seq<char>)
    requires
        all_white_space(p),
    ensures
        trim_start_chars(p + s) == trim_start_chars(s),
    decreases p.len(),
{
    if p.len() == 0 {
        assert(p + s =~= s);
    } else {
        assert((p + s)[0] == p[0]);
        assert((p + s).drop_first() =~= p.drop_first() + s);
        assert(all_white_space(p.drop_first())) by {
            assert forall|i: int| 0 <= i < p.drop_first().len() implies is_white_space(
                #[trigger] p.drop_first()[i],
            ) by {
                assert(p.drop_first()[i] == p[i + 1]);
            }
        }
        lemma_trim_start_past_blank(p.drop_first(), s);
    }
}

proof fn lemma_trim_end_past_blank(s: Seq<char>, q: Seq<char>)
    requires
        all_white_space(q),
    ensures
        trim_end_chars(s + q) == trim_end_chars(s),
    decreases q.len(),
{
    if q.len() == 0 {
        assert(s + q =~= s);
    } else {
        assert((s + q).last() == q.last());
        assert((s + q).drop_last() =~= s + q.drop_last());
        assert(all_white_space(q.drop_last())) by {
            assert forall|i: int| 0 <= i < q.drop_last().len() implies is_white_space(
                #[trigger] q.drop_last()[i],
            ) by {
                assert(q.drop_last()[i] == q[i]);
            }
        }
        lemma_trim_end_past_blank(s, q.drop_last());
    }
}

proof fn lemma_trim_start_then_more(s: Seq<char>, q: Seq<char>)
    requires
        !all_white_space(s),
    ensures
        trim_start_chars(s + q) == trim_start_chars(s) + q,
    decreases s.len(),
{
    assert((s + q)[0] == s[0]);
    if is_white_space(s[0]) {
        assert((s + q).drop_first() =~= s.drop_first() + q);
        assert(!all_white_space(s.drop_first())) by {
            let i = choose|i: int| 0 <= i < s.len() && !is_white_space(#[trigger] s[i]);
            assert(s.drop_first()[i - 1] == s[i]);
        }
        lemma_trim_start_then_more(s.drop_first(), q);
    }
}

/// Trimming ignores whitespace padding: `p + s + q` trims to what `s` trims
/// to whenever `p` and `q` are all whitespace.
pub proof fn lemma_trim_ignores_padding(p: Seq<char>, s: Seq<char>, q: Seq<char>)
    requires
        all_white_space(p),
        all_white_space(q),
    ensures
        trim_chars(p + s + q) == trim_chars(s),
{
    assert(p + s + q =~= p + (s + q));
    lemma_trim_start_past_blank(p, s + q);
    if all_white_space(s) {
        assert(all_white_space(s + q)) by {
            assert forall|i: int| 0 <= i < (s + q).len() implies is_white_space(#[trigger] (s + q)[i]) by {
                if i < s.len() {
                    assert((s + q)[i] == s[i]);
                } else {
                    assert((s + q)[i] == q[i - s.len()]);
                }
            }
        }
        lemma_trim_start_past_blank(s + q, Seq::<char>::empty());
        lemma_trim_start_past_blank(s, Seq::<char>::empty());
        assert(s + q + Seq::<char>::empty() =~= s + q);
        assert(s + Seq::<char>::empty() =~= s);
    } else {
        lemma_trim_start_then_more(s, q);
        lemma_trim_end_past_blank(trim_start_chars(s), q);
    }
}

proof fn lemma_digit_char(d: nat)
    requires
        d < 10,
    ensures
        '0' <= digit_char(d) <= '9',
        (digit_char(d) as u32) - ('0' as u32) == d,
{
}

/// Every decimal rendering is a non-empty run of ASCII digits whose value
/// is the number rendered.
pub(crate) proof fn lemma_decimal_chars_read_back(n: nat)
    ensures
        decimal_chars(n).len() > 0,
        all_ascii_digits(decimal_chars(n)),
        digits_value(decimal_chars(n)) == n,
    decreases n,
{
    let s = decimal_chars(n);
    if n < 10 {
        lemma_digit_char(n);
        assert(s.drop_last() =~= Seq::<char>::empty());
        assert(digits_value(s.drop_last()) == 0);
        assert(s.last() == digit_char(n));
        assert(digits_value(s) == digits_value(s.drop_last()) * 10 + ((s.last() as u32) - ('0' as u32)) as nat);
    } else {
        lemma_decimal_chars_read_back(n / 10);
        lemma_digit_char(n % 10);
        assert(s.drop_last() =~= decimal_chars(n / 10));
        assert(s.last() == digit_char(n % 10));
        assert(digits_value(s) == digits_value(s.drop_last()) * 10 + ((s.last() as u32) - ('0' as u32)) as nat);
        assert(digits_value(s) == (n / 10) * 10 + n % 10);
        assert forall|i: int| 0 <= i < s.len() implies '0' <= #[trigger] s[i] <= '9' by {
            if i < s.len() - 1 {
                assert(s[i] == decimal_chars(n / 10)[i]);
            }
        }
    }
}

/// Parsing the signed decimal rendering of an `i64` gives it back.
pub proof fn lemma_signed_decimal_parses(n: i64)
    ensures
        parse_i64_chars(signed_decimal_chars(n as int)) == Some(n),
        signed_decimal_chars(n as int).len() > 0,
        forall|i: int|
            0 <= i < signed_decimal_chars(n as int).len() ==> #[trigger] signed_decimal_chars(
                n as int,
            )[i] == '-' || '0' <= signed_decimal_chars(n as int)[i] <= '9',
        '0' <= signed_decimal_chars(n as int).last() <= '9',
{
    let s = signed_decimal_chars(n as int);
    if n < 0 {
        let m = (-(n as int)) as nat;
        lemma_decimal_chars_read_back(m);
        assert(s.drop_first() =~= decimal_chars(m));
        assert(s.last() == decimal_chars(m).last());
        assert forall|i: int| 0 <= i < s.len() implies #[trigger] s[i] == '-' || '0' <= s[i] <= '9' by {
            if i > 0 {
                assert(s[i] == decimal_chars(m)[i - 1]);
            }
        }
    } else {
        lemma_decimal_chars_read_back(n as nat);
        assert(s[0] != '-' && s[0] != '+');
    }
}

/// Text that neither starts nor ends with whitespace trims to itself.
pub(crate) proof fn lemma_trim_keeps_unpadded(s: Seq<char>)
    requires
        s.len() > 0 ==> !is_white_space(s[0]) && !is_white_space(s.last()),
    ensures
        trim_chars(s) == s,
{
}

} // verus!
