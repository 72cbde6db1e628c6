//! The grammar of numeric wire tokens and a verified checker for it.
//!
//! A numeric field value is an optional sign followed by a mantissa (digits
//! with at most one decimal point and at least one digit) and an optional
//! exponent part (`e` or `E`, an optional sign, and at least one digit).

use vstd::prelude::*;

verus! {

pub open spec fn is_digit_char(c: char) -> bool {
    '0' <= c && c <= '9'
}

pub open spec fn is_sign_char(c: char) -> bool {
    c == '+' || c == '-'
}

pub open spec fn is_exp_char(c: char) -> bool {
    c == 'e' || c == 'E'
}

/// `s` without its leading sign character, if it has one.
pub open spec fn strip_sign(s: Seq<char>) -> Seq<char> {
    if s.len() > 0 && is_sign_char(s[0]) {
        s.subrange(1, s.len() as int)
    } else {
        s
    }
}

pub open spec fn all_digits(s: Seq<char>) -> bool {
    forall|i: int| 0 <= i < s.len() ==> is_digit_char(s[i])
}

/// A mantissa: nonempty, only digits and at most one decimal point, and at
/// least one digit.
pub open spec fn is_mantissa(s: Seq<char>) -> bool {
    &&& s.len() > 0
    &&& forall|i: int| 0 <= i < s.len() ==> is_digit_char(s[i]) || s[i] == '.'
    &&& forall|i: int, j: int|
        0 <= i < s.len() && 0 <= j < s.len() && s[i] == '.' && s[j] == '.' ==> i == j
    &&& exists|i: int| 0 <= i < s.len() && is_digit_char(s[i])
}

/// An exponent tail (what follows the `e`): an optional sign and then at
/// least one digit.
pub open spec fn is_exp_tail(s: Seq<char>) -> bool {
    strip_sign(s).len() > 0 && all_digits(strip_sign(s))
}

/// A numeric token after its sign was stripped: a mantissa, optionally
/// followed by an exponent marker and an exponent tail.
pub open spec fn is_numeric_body(t: Seq<char>) -> bool {
    ||| is_mantissa(t)
    ||| exists|i: int|
        0 <= i < t.len() && is_exp_char(t[i]) && is_mantissa(t.subrange(0, i)) && is_exp_tail(
            t.subrange(i + 1, t.len() as int),
        )
}

/// A well-formed numeric wire token.
pub open spec fn is_numeric(s: Seq<char>) -> bool {
    is_numeric_body(strip_sign(s))
}

fn is_digit(c: char) -> (r: bool)
    ensures
        r == is_digit_char(c),
{
    '0' <= c && c <= '9'
}

/// Checks the mantissa grammar on `m`.
fn check_mantissa(m: &str) -> (r: bool)
    ensures
        r == is_mantissa(m@),
{
    let len = m.unicode_len();
    if len == 0 {
        return false;
    }
    let mut i: usize = 0;
    let mut digit_seen: bool = false;
    let mut dot_at: Option<usize> = None;
    while i < len
        invariant
            len == m@.len(),
            len <= usize::MAX,
            i <= len,
            forall|k: int| 0 <= k < i ==> is_digit_char(m@[k]) || m@[k] == '.',
            digit_seen == exists|k: int| 0 <= k < i && is_digit_char(m@[k]),
            match dot_at {
                Some(d) => d < i && m@[d as int] == '.' && forall|k: int|
                    0 <= k < i && k != d ==> m@[k] != '.',
                None => forall|k: int| 0 <= k < i ==> m@[k] != '.',
            },
        decreases len - i,
    {
        let c = m.get_char(i);
        if is_digit(c) {
            digit_seen = true;
        } else if c == '.' {
            if dot_at.is_some() {
                return false;
            }
            dot_at = Some(i);
        } else {
            return false;
        }
        i = i + 1;
    }
    digit_seen
}

/// Checks the exponent-tail grammar on `u`.
fn check_exp_tail(u: &str) -> (r: bool)
    ensures
        r == is_exp_tail(u@),
{
    let len = u.unicode_len();
    let start: usize = if len > 0 {
        let c = u.get_char(0);
        if c == '+' || c == '-' {
            1
        } else {
            0
        }
    } else {
        0
    };
    assert(u@.subrange(start as int, len as int) =~= strip_sign(u@));
    if start == len {
        return false;
    }
    let mut i: usize = start;
    while i < len
        invariant
            len == u@.len(),
            len <= usize::MAX,
            start <= i <= len,
            start < len,
            u@.subrange(start as int, len as int) =~= strip_sign(u@),
            forall|k: int| start <= k < i ==> is_digit_char(u@[k]),
        decreases len - i,
    {
        if !is_digit(u.get_char(i)) {
            assert(!all_digits(strip_sign(u@))) by {
                assert(strip_sign(u@)[i - start] == u@[i as int]);
            }
            return false;
        }
        i = i + 1;
    }
    assert(all_digits(strip_sign(u@))) by {
        assert(forall|k: int|
            0 <= k < strip_sign(u@).len() ==> strip_sign(u@)[k] == u@[k + start]);
    }
    true
}

/// Returns the position of the first exponent marker in `t`, if any.
fn find_exp(t: &str, len: usize) -> (r: Option<usize>)
    requires
        len == t@.len(),
    ensures
        match r {
            Some(i) => i < len && is_exp_char(t@[i as int]) && forall|k: int|
                0 <= k < i ==> !is_exp_char(t@[k]),
            None => forall|k: int| 0 <= k < len ==> !is_exp_char(t@[k]),
        },
{
    let mut i: usize = 0;
    while i < len
        invariant
            len == t@.len(),
            len <= usize::MAX,
            i <= len,
            forall|k: int| 0 <= k < i ==> !is_exp_char(t@[k]),
        decreases len - i,
    {
        let c = t.get_char(i);
        if c == 'e' || c == 'E' {
            return Some(i);
        }
        i = i + 1;
    }
    None
}

/// Checks whether `s` is a well-formed numeric wire token.
pub fn check_numeric(s: &str) -> (r: bool)
    ensures
        r == is_numeric(s@),
{
    let len = s.unicode_len();
    let start: usize = if len > 0 {
        let c = s.get_char(0);
        if c == '+' || c == '-' {
            1
        } else {
            0
        }
    } else {
        0
    };
    let t = s.substring_char(start, len);
    assert(t@ =~= strip_sign(s@));
    let tlen = t.unicode_len();
    match find_exp(t, tlen) {
        None => {
            let r = check_mantissa(t);
            assert(r == is_numeric_body(t@)) by {
                if !r {
                    assert(forall|i: int| 0 <= i < t@.len() ==> !is_exp_char(t@[i]));
                }
            }
            r
        },
        Some(e) => {
            let mant = t.substring_char(0, e);
            let tail = t.substring_char(e + 1, tlen);
            let rm = check_mantissa(mant);
            let rt = if rm {
                check_exp_tail(tail)
            } else {
                false
            };
            let r = rm && rt;
            assert(r == is_numeric_body(t@)) by {
                assert(mant@ == t@.subrange(0, e as int));
                assert(tail@ == t@.subrange(e + 1, t@.len() as int));
                if r {
                    assert(is_numeric_body(t@)) by {
                        assert(0 <= e < t@.len() && is_exp_char(t@[e as int]) && is_mantissa(
                            t@.subrange(0, e as int),
                        ) && is_exp_tail(t@.subrange(e + 1, t@.len() as int)));
                    }
                } else {
                    // A mantissa holds no exponent marker, so the only possible
                    // split is at the first marker.
                    assert(!is_mantissa(t@)) by {
                        assert(!is_digit_char(t@[e as int]) && t@[e as int] != '.');
                    }
                    assert forall|i: int|
                        0 <= i < t@.len() && is_exp_char(t@[i]) && is_mantissa(
                            t@.subrange(0, i),
                        ) implies !is_exp_tail(t@.subrange(i + 1, t@.len() as int)) by {
                        if i > e {
                            assert(t@.subrange(0, i)[e as int] == t@[e as int]);
                            assert(!is_digit_char(t@[e as int]) && t@[e as int] != '.');
                            assert(!is_mantissa(t@.subrange(0, i)));
                        } else {
                            assert(i == e);
                            assert(!rt);
                        }
                    }
                }
            }
            r
        },
    }
}

} // verus!
