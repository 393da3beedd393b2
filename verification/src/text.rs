//! Character-level text helpers with exact specifications: equality,
//! case-insensitive comparison, whitespace trimming and decimal parsing.

use vstd::prelude::*;
use vstd::string::StrSliceExecFns;

verus! {

/// The code of `c`, with an ASCII capital letter folded to lower case.
pub open spec fn lower_code(c: char) -> u32 {
    if 65 <= c as u32 && c as u32 <= 90 {
        (c as u32 + 32) as u32
    } else {
        c as u32
    }
}

/// Whether two texts are equal up to ASCII letter case.
pub open spec fn eq_ignore_ascii_case(a: Seq<char>, b: Seq<char>) -> bool {
    a.len() == b.len() && (forall|i: int|
        0 <= i < a.len() ==> lower_code(a[i]) == lower_code(b[i]))
}

/// Compares two characters up to ASCII letter case.
fn chars_eq_ci(a: char, b: char) -> (r: bool)
    ensures
        r == (lower_code(a) == lower_code(b)),
{
    let ca = a as u32;
    let cb = b as u32;
    let la = if 65 <= ca && ca <= 90 {
        ca + 32
    } else {
        ca
    };
    let lb = if 65 <= cb && cb <= 90 {
        cb + 32
    } else {
        cb
    };
    la == lb
}

/// Compares two texts for equality.
pub fn str_eq(a: &str, b: &str) -> (r: bool)
    ensures
        r == (a@ == b@),
{
    let alen = a.unicode_len();
    let blen = b.unicode_len();
    if alen != blen {
        return false;
    }
    let mut i: usize = 0;
    while i < alen
        invariant
            i <= alen,
            a@.len() == alen as nat,
            b@.len() == alen as nat,
            forall|m: int| 0 <= m < i ==> a@[m] == b@[m],
        decreases alen - i,
    {
        let ca = a.get_char(i);
        let cb = b.get_char(i);
        if ca != cb {
            assert(a@[i as int] != b@[i as int]);
            return false;
        }
        i += 1;
    }
    proof {
        assert(a@ =~= b@);
    }
    true
}

/// Compares two texts up to ASCII letter case.
pub fn str_eq_ignore_ascii_case(a: &str, b: &str) -> (r: bool)
    ensures
        r == eq_ignore_ascii_case(a@, b@),
{
    let alen = a.unicode_len();
    let blen = b.unicode_len();
    if alen != blen {
        return false;
    }
    let mut i: usize = 0;
    while i < alen
        invariant
            i <= alen,
            a@.len() == alen as nat,
            b@.len() == alen as nat,
            forall|m: int| 0 <= m < i ==> lower_code(a@[m]) == lower_code(b@[m]),
        decreases alen - i,
    {
        let ca = a.get_char(i);
        let cb = b.get_char(i);
        if !chars_eq_ci(ca, cb) {
            assert(lower_code(a@[i as int]) != lower_code(b@[i as int]));
            return false;
        }
        i += 1;
    }
    true
}

/// Whether `c` is ASCII whitespace: space, tab, line feed, vertical tab,
/// form feed or carriage return.
pub open spec fn is_space(c: char) -> bool {
    c as u32 == 32 || (9 <= c as u32 && c as u32 <= 13)
}

/// Decides whether `c` is ASCII whitespace.
fn is_space_char(c: char) -> (r: bool)
    ensures
        r == is_space(c),
{
    let u = c as u32;
    u == 32 || (9 <= u && u <= 13)
}

/// `s` without its leading whitespace.
pub open spec fn spec_trim_front(s: Seq<char>) -> Seq<char>
    decreases s.len(),
{
    if s.len() > 0 && is_space(s[0]) {
        spec_trim_front(s.skip(1))
    } else {
        s
    }
}

/// `s` without its trailing whitespace.
pub open spec fn spec_trim_back(s: Seq<char>) -> Seq<char>
    decreases s.len(),
{
    if s.len() > 0 && is_space(s.last()) {
        spec_trim_back(s.drop_last())
    } else {
        s
    }
}

/// `s` without leading and trailing whitespace.
pub open spec fn spec_trim(s: Seq<char>) -> Seq<char> {
    spec_trim_back(spec_trim_front(s))
}

/// Strips leading and trailing whitespace.
pub fn trim(s: &str) -> (r: &str)
    ensures
        r@ == spec_trim(s@),
{
    let len = s.unicode_len();
    let mut a: usize = 0;
    proof {
        assert(s@.skip(0) =~= s@);
    }
    while a < len && is_space_char(s.get_char(a))
        invariant
            a <= len,
            s@.len() == len as nat,
            spec_trim_front(s@) == spec_trim_front(s@.skip(a as int)),
        decreases len - a,
    {
        proof {
            assert(s@.skip(a as int).skip(1) =~= s@.skip(a as int + 1));
        }
        a += 1;
    }
    let ghost t = s@.skip(a as int);
    proof {
        if a < len {
            assert(t[0] == s@[a as int]);
        }
        assert(spec_trim_front(t) == t);
        assert(spec_trim_front(s@) == t);
        assert(t.take(len - a as int) =~= t);
    }
    let mut b: usize = len;
    while b > a && is_space_char(s.get_char(b - 1))
        invariant
            a <= b <= len,
            s@.len() == len as nat,
            t == s@.skip(a as int),
            spec_trim_back(t) == spec_trim_back(t.take(b - a as int)),
        decreases b,
    {
        proof {
            let cur = t.take(b - a as int);
            assert(cur.last() == s@[b - 1]);
            assert(cur.drop_last() =~= t.take(b - 1 - a as int));
        }
        b -= 1;
    }
    proof {
        let cur = t.take(b - a as int);
        if b == a {
            assert(cur =~= Seq::<char>::empty());
        } else {
            assert(cur.last() == s@[b - 1]);
        }
        assert(spec_trim_back(t) == cur);
    }
    let r = s.substring_char(a, b);
    proof {
        assert(r@ =~= t.take(b - a as int));
    }
    r
}

/// Whether `c` is a decimal digit.
pub open spec fn is_digit(c: char) -> bool {
    48 <= c as u32 && c as u32 <= 57
}

/// The value of the digit `c`.
pub open spec fn digit_val(c: char) -> nat {
    (c as u32 - 48) as nat
}

/// Whether `s` is all decimal digits.
pub open spec fn all_digits(s: Seq<char>) -> bool {
    forall|i: int| 0 <= i < s.len() ==> is_digit(s[i])
}

/// The number that the digit sequence `s` denotes.
pub open spec fn digits_value(s: Seq<char>) -> nat
    decreases s.len(),
{
    if s.len() == 0 {
        0
    } else {
        digits_value(s.drop_last()) * 10 + digit_val(s.last())
    }
}

/// A digit sequence denotes at least as much as any of its prefixes.
proof fn lemma_digits_value_prefix(s: Seq<char>, i: int)
    requires
        0 <= i <= s.len(),
    ensures
        digits_value(s.take(i)) <= digits_value(s),
    decreases s.len() - i,
{
    if i == s.len() {
        assert(s.take(i) =~= s);
    } else {
        lemma_digits_value_prefix(s, i + 1);
        assert(s.take(i + 1).drop_last() =~= s.take(i));
        assert(digits_value(s.take(i + 1)) == digits_value(s.take(i)) * 10 + digit_val(
            s.take(i + 1).last(),
        ));
    }
}

/// What decimal text parses as: an optional leading plus sign, then one or
/// more digits whose value fits in 64 bits; anything else fails.
pub open spec fn spec_parse_u64(s: Seq<char>) -> Option<u64> {
    let body = if s.len() > 0 && s[0] == '+' {
        s.skip(1)
    } else {
        s
    };
    if body.len() > 0 && all_digits(body) && digits_value(body) <= u64::MAX {
        Some(digits_value(body) as u64)
    } else {
        None
    }
}

/// Parses decimal text as an unsigned 64-bit number.
pub fn parse_u64(s: &str) -> (r: Option<u64>)
    ensures
        r == spec_parse_u64(s@),
{
    let len = s.unicode_len();
    let start: usize = if len > 0 && s.get_char(0) == '+' {
        1
    } else {
        0
    };
    let ghost body = if start == 1 {
        s@.skip(1)
    } else {
        s@
    };
    if start == len {
        return None;
    }
    let mut value: u64 = 0;
    let mut i: usize = start;
    while i < len
        invariant
            start <= i <= len,
            s@.len() == len as nat,
            start == 0 || start == 1,
            (start == 1) <==> (s@.len() > 0 && s@[0] == '+'),
            body == (if start == 1 {
                s@.skip(1)
            } else {
                s@
            }),
            body.len() == len - start,
            forall|m: int| 0 <= m < body.len() ==> body[m] == s@[m + start],
            all_digits(body.take(i - start as int)),
            value as nat == digits_value(body.take(i - start as int)),
        decreases len - i,
    {
        let c = s.get_char(i);
        let code = c as u32;
        if code < 48 || code > 57 {
            assert(!is_digit(body[i - start as int]));
            return None;
        }
        let d = (code - 48) as u64;
        if value > (u64::MAX - d) / 10 {
            proof {
                let pre = body.take(i - start as int);
                let post = body.take(i + 1 - start as int);
                assert(post.drop_last() =~= pre);
                assert(post.last() == body[i - start as int]);
                assert(digits_value(post) == digits_value(pre) * 10 + digit_val(
                    body[i - start as int],
                ));
                lemma_digits_value_prefix(body, i + 1 - start as int);
                assert(digits_value(body) > u64::MAX);
            }
            return None;
        }
        value = value * 10 + d;
        proof {
            let pre = body.take(i - start as int);
            let post = body.take(i + 1 - start as int);
            assert(post.drop_last() =~= pre);
            assert(post.last() == body[i - start as int]);
        }
        i += 1;
    }
    proof {
        assert(body.take(len - start as int) =~= body);
    }
    Some(value)
}

} // verus!
