//! Configuration parsing: numeric rate-limit settings and the CORS origin
//! allow-list.  Callers read the raw environment values and hand them in as
//! plain optional strings.

use vstd::prelude::*;
use vstd::string::StrSliceExecFns;

use crate::textutil::str_eq;

verus! {

/// Default rate limit: requests per second per IP.
pub const DEFAULT_RATE_LIMIT_PER_SECOND: u64 = 10;

/// Default rate limit burst size.
pub const DEFAULT_RATE_LIMIT_BURST: u32 = 30;

/// `c` is an ASCII decimal digit.
pub open spec fn is_digit(c: char) -> bool {
    48 <= c as u32 <= 57
}

/// Numeric value of an ASCII decimal digit.
pub open spec fn digit_val(c: char) -> int {
    c as u32 - 48
}

/// Every code point of `s` is an ASCII decimal digit.
pub open spec fn all_digits(s: Seq<char>) -> bool {
    forall|i: int| 0 <= i < s.len() ==> is_digit(#[trigger] s[i])
}

/// The value of `s` read as a decimal numeral.
pub open spec fn dec_val(s: Seq<char>) -> int
    decreases s.len(),
{
    if s.len() == 0 {
        0
    } else {
        dec_val(s.drop_last()) * 10 + digit_val(s.last())
    }
}

/// `s` without an optional leading plus sign, as the standard unsigned
/// parse accepts it.
pub open spec fn unsigned_body(s: Seq<char>) -> Seq<char> {
    if s.len() > 0 && s[0] == '+' {
        s.skip(1)
    } else {
        s
    }
}

/// `s` parses as an unsigned decimal numeral whose value is at most `max`:
/// after an optional leading plus sign, one or more ASCII digits and
/// nothing else.
pub open spec fn parses_within(s: Seq<char>, max: int) -> bool {
    let body = unsigned_body(s);
    body.len() > 0 && all_digits(body) && dec_val(body) <= max
}

proof fn lemma_dec_val_nonneg(s: Seq<char>)
    requires
        all_digits(s),
    ensures
        dec_val(s) >= 0,
    decreases s.len(),
{
    if s.len() > 0 {
        assert(all_digits(s.drop_last())) by {
            assert(forall|i: int|
                0 <= i < s.drop_last().len() ==> #[trigger] s.drop_last()[i] == s[i]);
        }
        lemma_dec_val_nonneg(s.drop_last());
    }
}

proof fn lemma_dec_val_prefix(s: Seq<char>, j: int)
    requires
        all_digits(s),
        0 <= j <= s.len(),
    ensures
        dec_val(s.subrange(0, j)) <= dec_val(s),
    decreases s.len() - j,
{
    if j == s.len() {
        assert(s.subrange(0, j) =~= s);
    } else {
        let p = s.subrange(0, j + 1);
        assert(p.drop_last() =~= s.subrange(0, j));
        assert(p.last() == s[j]);
        assert(all_digits(p)) by {
            assert(forall|i: int| 0 <= i < p.len() ==> #[trigger] p[i] == s[i]);
        }
        assert(all_digits(s.subrange(0, j))) by {
            assert(forall|i: int| 0 <= i < j ==> #[trigger] s.subrange(0, j)[i] == s[i]);
        }
        lemma_dec_val_nonneg(s.subrange(0, j));
        assert(dec_val(p) == dec_val(s.subrange(0, j)) * 10 + digit_val(s[j]));
        assert(dec_val(s.subrange(0, j)) <= dec_val(p)) by {
            assert(dec_val(s.subrange(0, j)) * 10 >= dec_val(s.subrange(0, j))) by (nonlinear_arith)
                requires
                    dec_val(s.subrange(0, j)) >= 0,
            ;
        }
        lemma_dec_val_prefix(s, j + 1);
    }
}

/// Parses `s` as the standard unsigned 64-bit decimal parse does: an
/// optional leading plus sign, then one or more ASCII digits, the value
/// fitting in the type; anything else yields `None`.
pub fn parse_u64(s: &str) -> (r: Option<u64>)
    ensures
        parses_within(s@, u64::MAX as int) ==> (r matches Some(v) && v == dec_val(
            unsigned_body(s@),
        )),
        !parses_within(s@, u64::MAX as int) ==> r is None,
{
    let len = s.unicode_len();
    let start: usize = if len > 0 && s.get_char(0) == '+' {
        1
    } else {
        0
    };
    let ghost body = unsigned_body(s@);
    proof {
        assert(body =~= s@.subrange(start as int, len as int));
    }
    if start >= len {
        return None;
    }
    let mut acc: u64 = 0;
    let mut i: usize = start;
    while i < len
        invariant
            start <= i <= len,
            len == s@.len(),
            body == unsigned_body(s@),
            body == s@.subrange(start as int, len as int),
            all_digits(s@.subrange(start as int, i as int)),
            acc == dec_val(s@.subrange(start as int, i as int)),
        decreases len - i,
    {
        let c = s.get_char(i);
        let v = c as u32;
        if v < 48 || v > 57 {
            proof {
                assert(body[i - start] == s@[i as int]);
                assert(!all_digits(body));
            }
            return None;
        }
        let d = (v - 48) as u64;
        let ghost pre = s@.subrange(start as int, i as int);
        let ghost ext = s@.subrange(start as int, i + 1 as int);
        proof {
            assert(ext.drop_last() =~= pre);
            assert(ext.last() == s@[i as int]);
            assert(all_digits(ext)) by {
                assert(forall|k: int| 0 <= k < pre.len() ==> #[trigger] ext[k] == pre[k]);
            }
        }
        if acc > (u64::MAX - d) / 10 {
            proof {
                let q = (u64::MAX - d) as int / 10;
                assert(acc * 10 + d > u64::MAX) by (nonlinear_arith)
                    requires
                        acc > q,
                        q == (u64::MAX - d) as int / 10,
                        0 <= d <= 9,
                        acc >= 0,
                ;
                assert(dec_val(ext) == acc * 10 + d);
                if all_digits(body) {
                    assert(ext =~= body.subrange(0, i + 1 - start));
                    lemma_dec_val_prefix(body, i + 1 - start);
                    assert(dec_val(body) > u64::MAX);
                }
            }
            return None;
        }
        proof {
            assert(acc * 10 + d <= u64::MAX) by (nonlinear_arith)
                requires
                    acc <= (u64::MAX - d) as int / 10,
                    0 <= d <= 9,
                    acc >= 0,
            ;
        }
        acc = acc * 10 + d;
        i = i + 1;
    }
    proof {
        assert(s@.subrange(start as int, len as int) =~= body);
    }
    Some(acc)
}

/// Parses `s` as the standard unsigned 32-bit decimal parse does.
pub fn parse_u32(s: &str) -> (r: Option<u32>)
    ensures
        parses_within(s@, u32::MAX as int) ==> (r matches Some(v) && v == dec_val(
            unsigned_body(s@),
        )),
        !parses_within(s@, u32::MAX as int) ==> r is None,
{
    match parse_u64(s) {
        Some(v) => {
            if v <= u32::MAX as u64 {
                Some(v as u32)
            } else {
                None
            }
        },
        None => None,
    }
}

/// Resolves the rate-limit settings from the raw environment values:
/// each value that is present and parses as an unsigned decimal numeral is
/// taken; every other case falls back to the default.
pub fn get_rate_limit_config(rps_var: &Option<String>, burst_var: &Option<String>) -> (r: (
    u64,
    u32,
))
    ensures
        rps_var.deep_view() matches Some(s) ==> {
            &&& parses_within(s, u64::MAX as int) ==> r.0 == dec_val(unsigned_body(s))
            &&& !parses_within(s, u64::MAX as int) ==> r.0 == DEFAULT_RATE_LIMIT_PER_SECOND
        },
        rps_var is None ==> r.0 == DEFAULT_RATE_LIMIT_PER_SECOND,
        burst_var.deep_view() matches Some(s) ==> {
            &&& parses_within(s, u32::MAX as int) ==> r.1 == dec_val(unsigned_body(s))
            &&& !parses_within(s, u32::MAX as int) ==> r.1 == DEFAULT_RATE_LIMIT_BURST
        },
        burst_var is None ==> r.1 == DEFAULT_RATE_LIMIT_BURST,
{
    let rps: u64 = match rps_var {
        Some(s) => match parse_u64(s.as_str()) {
            Some(v) => v,
            None => DEFAULT_RATE_LIMIT_PER_SECOND,
        },
        None => DEFAULT_RATE_LIMIT_PER_SECOND,
    };
    let burst: u32 = match burst_var {
        Some(s) => match parse_u32(s.as_str()) {
            Some(v) => v,
            None => DEFAULT_RATE_LIMIT_BURST,
        },
        None => DEFAULT_RATE_LIMIT_BURST,
    };
    (rps, burst)
}


/// `c` is a Unicode whitespace code point, as the standard trim removes.
pub open spec fn is_space(c: char) -> bool {
    ||| c == ' '
    ||| c == '\t'
    ||| c == '\n'
    ||| c == '\r'
    ||| c == '\u{000B}'
    ||| c == '\u{000C}'
    ||| c == '\u{0085}'
    ||| c == '\u{00A0}'
    ||| c == '\u{1680}'
    ||| c == '\u{2000}'
    ||| c == '\u{2001}'
    ||| c == '\u{2002}'
    ||| c == '\u{2003}'
    ||| c == '\u{2004}'
    ||| c == '\u{2005}'
    ||| c == '\u{2006}'
    ||| c == '\u{2007}'
    ||| c == '\u{2008}'
    ||| c == '\u{2009}'
    ||| c == '\u{200A}'
    ||| c == '\u{2028}'
    ||| c == '\u{2029}'
    ||| c == '\u{202F}'
    ||| c == '\u{205F}'
    ||| c == '\u{3000}'
}

fn is_space_char(c: char) -> (r: bool)
    ensures
        r == is_space(c),
{
    c == ' ' || c == '\t' || c == '\n' || c == '\r' || c == '\u{000B}' || c == '\u{000C}'
        || c == '\u{0085}' || c == '\u{00A0}' || c == '\u{1680}' || c == '\u{2000}'
        || c == '\u{2001}' || c == '\u{2002}' || c == '\u{2003}' || c == '\u{2004}'
        || c == '\u{2005}' || c == '\u{2006}' || c == '\u{2007}' || c == '\u{2008}'
        || c == '\u{2009}' || c == '\u{200A}' || c == '\u{2028}' || c == '\u{2029}'
        || c == '\u{202F}' || c == '\u{205F}' || c == '\u{3000}'
}

/// `s` without leading whitespace.
pub open spec fn trim_start_spec(s: Seq<char>) -> Seq<char>
    decreases s.len(),
{
    if s.len() > 0 && is_space(s[0]) {
        trim_start_spec(s.skip(1))
    } else {
        s
    }
}

/// `s` without trailing whitespace.
pub open spec fn trim_end_spec(s: Seq<char>) -> Seq<char>
    decreases s.len(),
{
    if s.len() > 0 && is_space(s.last()) {
        trim_end_spec(s.drop_last())
    } else {
        s
    }
}

/// `s` without leading and trailing whitespace.
pub open spec fn trim_spec(s: Seq<char>) -> Seq<char> {
    trim_end_spec(trim_start_spec(s))
}

proof fn lemma_trim_start(s: Seq<char>, a: int)
    requires
        0 <= a <= s.len(),
        forall|j: int| 0 <= j < a ==> is_space(#[trigger] s[j]),
        a < s.len() ==> !is_space(s[a]),
    ensures
        trim_start_spec(s) == s.skip(a),
    decreases a,
{
    if a == 0 {
        assert(s.skip(0) =~= s);
    } else {
        let t = s.skip(1);
        assert(forall|j: int| 0 <= j < a - 1 ==> is_space(#[trigger] t[j]));
        lemma_trim_start(t, a - 1);
        assert(t.skip(a - 1) =~= s.skip(a));
    }
}

proof fn lemma_trim_end(s: Seq<char>, b: int)
    requires
        0 <= b <= s.len(),
        forall|j: int| b <= j < s.len() ==> is_space(#[trigger] s[j]),
        b > 0 ==> !is_space(s[b - 1]),
    ensures
        trim_end_spec(s) == s.subrange(0, b),
    decreases s.len() - b,
{
    if b == s.len() {
        assert(s.subrange(0, b) =~= s);
    } else {
        let t = s.drop_last();
        assert(forall|j: int| b <= j < t.len() ==> is_space(#[trigger] t[j]));
        lemma_trim_end(t, b);
        assert(t.subrange(0, b) =~= s.subrange(0, b));
    }
}

/// Removes leading and trailing whitespace, as the standard trim does.
pub fn trim_str(s: &str) -> (t: String)
    ensures
        t@ == trim_spec(s@),
{
    let len = s.unicode_len();
    let mut a: usize = 0;
    while a < len && is_space_char(s.get_char(a))
        invariant
            a <= len,
            len == s@.len(),
            forall|j: int| 0 <= j < a ==> is_space(#[trigger] s@[j]),
        decreases len - a,
    {
        a = a + 1;
    }
    let mut b: usize = len;
    while b > a && is_space_char(s.get_char(b - 1))
        invariant
            a <= b <= len,
            len == s@.len(),
            forall|j: int| 0 <= j < a ==> is_space(#[trigger] s@[j]),
            a < len ==> !is_space(s@[a as int]),
            forall|j: int| b <= j < len ==> is_space(#[trigger] s@[j]),
        decreases b,
    {
        b = b - 1;
    }
    let snippet = s.substring_char(a, b);
    proof {
        lemma_trim_start(s@, a as int);
        let t = s@.skip(a as int);
        assert(forall|j: int|
            b - a <= j < t.len() ==> is_space(#[trigger] t[j]));
        lemma_trim_end(t, b - a);
        assert(t.subrange(0, b - a) =~= s@.subrange(a as int, b as int));
    }
    snippet.to_owned()
}

/// The pieces of `s` between its commas, in order: one piece more than
/// there are commas, each possibly empty.
pub open spec fn split_commas(s: Seq<char>) -> Seq<Seq<char>>
    decreases s.len(),
{
    if s.len() == 0 {
        seq![Seq::<char>::empty()]
    } else if s[0] == ',' {
        seq![Seq::<char>::empty()] + split_commas(s.skip(1))
    } else {
        let rest = split_commas(s.skip(1));
        seq![seq![s[0]] + rest[0]] + rest.skip(1)
    }
}

pub proof fn lemma_split_commas_len(s: Seq<char>)
    ensures
        split_commas(s).len() >= 1,
    decreases s.len(),
{
    if s.len() == 0 {
    } else if s[0] == ',' {
    } else {
        lemma_split_commas_len(s.skip(1));
    }
}

proof fn lemma_split_first(s: Seq<char>, i: int)
    requires
        0 <= i <= s.len(),
        forall|j: int| 0 <= j < i ==> s[j] != ',',
        i < s.len() ==> s[i] == ',',
    ensures
        i == s.len() ==> split_commas(s) == seq![s],
        i < s.len() ==> split_commas(s) == seq![s.subrange(0, i)] + split_commas(s.skip(i + 1)),
    decreases i,
{
    if i == 0 {
        if s.len() == 0 {
            assert(split_commas(s) =~~= seq![s]);
        } else {
            assert(s[0] == ',');
            assert(split_commas(s) =~~= seq![s.subrange(0, 0)] + split_commas(s.skip(1)));
        }
    } else {
        let t = s.skip(1);
        assert(forall|j: int| 0 <= j < i - 1 ==> t[j] != ',');
        lemma_split_first(t, i - 1);
        let rest = split_commas(t);
        if i == s.len() {
            assert(rest == seq![t]);
            assert(seq![s[0]] + rest[0] =~= s);
            assert(split_commas(s) =~~= seq![s]);
        } else {
            assert(rest == seq![t.subrange(0, i - 1)] + split_commas(t.skip(i)));
            assert(rest[0] == t.subrange(0, i - 1));
            assert(seq![s[0]] + rest[0] =~= s.subrange(0, i));
            assert(t.skip(i) =~= s.skip(i + 1));
            assert(rest.skip(1) =~= split_commas(s.skip(i + 1)));
            assert(split_commas(s) =~~= seq![s.subrange(0, i)] + split_commas(s.skip(i + 1)));
        }
    }
}

/// Splits `s` on commas and trims each piece.
fn split_and_trim(s: &str) -> (r: Vec<String>)
    ensures
        r@.len() == split_commas(s@).len(),
        forall|k: int| 0 <= k < r@.len() ==> r@[k]@ == trim_spec(split_commas(s@)[k]),
    decreases s@.len(),
{
    let len = s.unicode_len();
    let mut i: usize = 0;
    while i < len && s.get_char(i) != ','
        invariant
            i <= len,
            len == s@.len(),
            forall|j: int| 0 <= j < i ==> s@[j] != ',',
        decreases len - i,
    {
        i = i + 1;
    }
    let head = trim_str(s.substring_char(0, i));
    if i == len {
        proof {
            lemma_split_first(s@, i as int);
            assert(s@.subrange(0, len as int) =~= s@);
        }
        let mut r: Vec<String> = Vec::new();
        r.push(head);
        r
    } else {
        let tail = s.substring_char(i + 1, len);
        let mut r = split_and_trim(tail);
        r.insert(0, head);
        proof {
            lemma_split_first(s@, i as int);
            let parts = split_commas(s@);
            assert(parts[0] == s@.subrange(0, i as int));
            assert(forall|k: int|
                1 <= k < parts.len() ==> parts[k] == split_commas(tail@)[k - 1]);
        }
        r
    }
}

/// The cross-origin policy configured by the raw origin list.
pub enum CorsPolicy {
    /// Reflect any origin: the list is unset or a wildcard.
    Permissive,
    /// Explicit allow-list of origins, as configured.
    AllowList(Vec<String>),
}

/// Decides the CORS policy from the raw configured origin list: an unset
/// or wildcard list is permissive; anything else is split on commas into
/// trimmed entries, kept in order.
pub fn cors_policy(raw: &str) -> (p: CorsPolicy)
    ensures
        (raw@.len() == 0 || raw@ == "*"@) <==> p is Permissive,
        p matches CorsPolicy::AllowList(entries) ==> {
            &&& entries@.len() == split_commas(raw@).len()
            &&& forall|k: int|
                0 <= k < entries@.len() ==> entries@[k]@ == trim_spec(split_commas(raw@)[k])
        },
{
    if raw.is_empty() || str_eq(raw, "*") {
        CorsPolicy::Permissive
    } else {
        CorsPolicy::AllowList(split_and_trim(raw))
    }
}

} // verus!
