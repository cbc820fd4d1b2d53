//! Parsing computed "transform-origin" values.
//!
//! A computed transform-origin arrives as pixel lengths such as
//! "12px 34px" or "10.5px 0px".  The engine reads whole pixels: a value's
//! fractional digits are truncated toward zero.  Anything else is
//! malformed; a malformed origin abandons the one operation that needed
//! it and nothing more.

use vstd::prelude::*;

use crate::classes::{split_classes, split_classes_spec};
use crate::geometry::COORD_LIMIT;

verus! {

pub open spec fn is_digit(c: char) -> bool {
    '0' <= c && c <= '9'
}

/// Length of the leading run of decimal digits.
pub open spec fn digit_run_len(s: Seq<char>) -> nat
    decreases s.len(),
{
    if s.len() == 0 || !is_digit(s[0]) {
        0
    } else {
        (1 + digit_run_len(s.drop_first())) as nat
    }
}

/// The number a run of decimal digits denotes.
pub open spec fn digits_val(s: Seq<char>) -> int
    decreases s.len(),
{
    if s.len() == 0 {
        0
    } else {
        digits_val(s.drop_last()) * 10 + (s.last() as int - '0' as int)
    }
}

/// What may follow the integer digits of a pixel length: the "px" unit,
/// optionally preceded by a fraction point and at least one digit.
pub open spec fn valid_px_rest(rest: Seq<char>) -> bool {
    ||| (rest.len() == 2 && rest[0] == 'p' && rest[1] == 'x')
    ||| (rest.len() >= 4 && rest[0] == '.' && digit_run_len(rest.drop_first()) == rest.len() - 3
        && rest[rest.len() - 2] == 'p' && rest[rest.len() - 1] == 'x')
}

/// The whole pixels a single length token denotes, truncated toward
/// zero, or nothing if the token is malformed or out of bounds.
pub open spec fn parse_px_spec(t: Seq<char>) -> Option<int> {
    let neg = t.len() > 0 && t[0] == '-';
    let body = if neg {
        t.drop_first()
    } else {
        t
    };
    let d = digit_run_len(body);
    if d == 0 {
        None
    } else {
        let val = digits_val(body.subrange(0, d as int));
        let rest = body.subrange(d as int, body.len() as int);
        if valid_px_rest(rest) {
            let v: int = if neg {
                -val
            } else {
                val
            };
            if -COORD_LIMIT <= v <= COORD_LIMIT {
                Some(v)
            } else {
                None
            }
        } else {
            None
        }
    }
}

/// A run of digits denotes a non-negative number.
proof fn lemma_digits_val_nonneg(s: Seq<char>)
    requires
        forall|m: int| 0 <= m < s.len() ==> is_digit(#[trigger] s[m]),
    ensures
        digits_val(s) >= 0,
    decreases s.len(),
{
    if s.len() > 0 {
        lemma_digits_val_nonneg(s.drop_last());
    }
}

/// Finds the length of the leading digit run of `s@` starting at `from`.
fn scan_digits(s: &str, n: usize, from: usize) -> (d: usize)
    requires
        n == s@.len(),
        from <= n,
    ensures
        from + d <= n,
        digit_run_len(s@.subrange(from as int, n as int)) == d,
        forall|m: int| from <= m < from + d ==> is_digit(#[trigger] s@[m]),
    decreases n - from,
{
    let mut j: usize = from;
    while j < n
        invariant
            from <= j <= n,
            n == s@.len(),
            forall|m: int| from <= m < j ==> is_digit(#[trigger] s@[m]),
        ensures
            from <= j <= n,
            forall|m: int| from <= m < j ==> is_digit(#[trigger] s@[m]),
            j == n || !is_digit(s@[j as int]),
        decreases n - j,
    {
        let c = s.get_char(j);
        if !('0' <= c && c <= '9') {
            break ;
        }
        j = j + 1;
    }
    proof {
        lemma_digit_run_is(s@.subrange(from as int, n as int), j - from);
    }
    j - from
}

/// The digit run ends exactly at the first non-digit (or at the end).
proof fn lemma_digit_run_is(s: Seq<char>, k: int)
    requires
        0 <= k <= s.len(),
        forall|m: int| 0 <= m < k ==> is_digit(#[trigger] s[m]),
        k == s.len() || !is_digit(s[k]),
    ensures
        digit_run_len(s) == k,
    decreases s.len(),
{
    if k == 0 {
    } else {
        assert(is_digit(s[0]));
        lemma_digit_run_is(s.drop_first(), k - 1);
    }
}

/// Parses one pixel-length token into whole pixels.
#[verifier::rlimit(50)]
pub fn parse_px(t: &str) -> (r: Option<i64>)
    ensures
        r matches Some(v) ==> parse_px_spec(t@) == Some(v as int),
        r is None ==> parse_px_spec(t@) is None,
{
    let n: usize = t.unicode_len();
    let neg: bool = n > 0 && t.get_char(0) == '-';
    let start: usize = if neg {
        1
    } else {
        0
    };
    let ghost body = if neg {
        t@.drop_first()
    } else {
        t@
    };
    proof {
        assert(body =~= t@.subrange(start as int, n as int));
    }
    let d: usize = scan_digits(t, n, start);
    proof {
        assert(body.subrange(0, d as int) =~= t@.subrange(start as int, (start + d) as int));
        assert(body.subrange(d as int, body.len() as int) =~= t@.subrange(
            (start + d) as int,
            n as int,
        ));
    }
    if d == 0 {
        return None;
    }
    // Accumulate the integer digits, giving up as soon as the value
    // passes the coordinate bound.
    let ghost digits = t@.subrange(start as int, (start + d) as int);
    let mut val: u64 = 0;
    let mut k: usize = 0;
    let mut over: bool = false;
    while k < d
        invariant
            0 <= k <= d,
            start + d <= n,
            n == t@.len(),
            digits == t@.subrange(start as int, (start + d) as int),
            forall|m: int| 0 <= m < digits.len() ==> is_digit(#[trigger] digits[m]),
            digits.len() == d,
            !over ==> val == digits_val(digits.subrange(0, k as int)) && val <= COORD_LIMIT,
            over ==> digits_val(digits.subrange(0, k as int)) > COORD_LIMIT,
        decreases d - k,
    {
        let ghost pre = digits.subrange(0, k as int);
        let ghost cur = digits.subrange(0, k + 1);
        proof {
            assert(cur.drop_last() =~= pre);
            assert(cur.last() == digits[k as int]);
        }
        let c = t.get_char(start + k);
        proof {
            assert(digits[k as int] == t@[(start + k) as int]);
        }
        let digit: u64 = (c as u32) as u64 - ('0' as u32) as u64;
        if !over {
            let next: u64 = val * 10 + digit;
            if next > COORD_LIMIT as u64 {
                over = true;
            } else {
                val = next;
            }
            proof {
                assert(digits_val(cur) == digits_val(pre) * 10 + (cur.last() as int
                    - '0' as int));
            }
        } else {
            proof {
                lemma_digits_val_nonneg(pre);
                assert(digits_val(cur) == digits_val(pre) * 10 + (cur.last() as int
                    - '0' as int));
                assert(digits_val(pre) * 10 > COORD_LIMIT) by (nonlinear_arith)
                    requires
                        digits_val(pre) > COORD_LIMIT,
                        COORD_LIMIT > 0,
                ;
            }
        }
        k = k + 1;
    }
    proof {
        assert(digits.subrange(0, d as int) =~= digits);
    }
    // Validate what follows the digits: "px", with an optional fraction
    // before it whose digits are ignored.
    let rest_start: usize = start + d;
    let rest_len: usize = n - rest_start;
    let valid: bool = if rest_len == 2 {
        t.get_char(rest_start) == 'p' && t.get_char(rest_start + 1) == 'x'
    } else if rest_len >= 4 && t.get_char(rest_start) == '.' {
        let fd: usize = scan_digits(t, n, rest_start + 1);
        proof {
            let rest = t@.subrange(rest_start as int, n as int);
            assert(rest.drop_first() =~= t@.subrange(rest_start + 1, n as int));
        }
        fd >= 1 && fd == rest_len - 3 && t.get_char(n - 2) == 'p' && t.get_char(n - 1) == 'x'
    } else {
        false
    };
    proof {
        let rest = t@.subrange(rest_start as int, n as int);
        if rest_len == 2 {
            assert(rest.len() == 2 && rest[0] == t@[rest_start as int] && rest[1] == t@[rest_start
                + 1]);
        } else if rest_len >= 4 && t@[rest_start as int] == '.' {
            assert(rest.drop_first() =~= t@.subrange(rest_start + 1, n as int));
            assert(rest[0] == t@[rest_start as int]);
            assert(rest[rest.len() - 2] == t@[n - 2]);
            assert(rest[rest.len() - 1] == t@[n - 1]);
        }
        if valid {
            assert(valid_px_rest(rest));
        } else {
            assert(!valid_px_rest(rest));
        }
    }
    if !valid {
        return None;
    }
    if over {
        proof {
            lemma_digits_val_nonneg(digits);
        }
        return None;
    }
    let v: i64 = if neg {
        -(val as i64)
    } else {
        val as i64
    };
    Some(v)
}

/// The two whole-pixel offsets a computed "transform-origin" denotes,
/// or nothing if it does not hold two well-formed pixel lengths.
pub open spec fn parse_origin_spec(s: Seq<char>) -> Option<(int, int)> {
    let toks = split_classes_spec(s);
    if toks.len() < 2 {
        None
    } else {
        match (parse_px_spec(toks[0]), parse_px_spec(toks[1])) {
            (Some(x), Some(y)) => Some((x, y)),
            _ => None,
        }
    }
}

/// Parses a computed "transform-origin" into whole-pixel offsets.
/// Components beyond the second are ignored.
pub fn parse_transform_origin(s: &str) -> (r: Option<(i64, i64)>)
    ensures
        r matches Some(p) ==> parse_origin_spec(s@) == Some((p.0 as int, p.1 as int)),
        r is None ==> parse_origin_spec(s@) is None,
        r matches Some(p) ==> -COORD_LIMIT <= p.0 <= COORD_LIMIT && -COORD_LIMIT <= p.1
            <= COORD_LIMIT,
{
    let toks: Vec<String> = split_classes(s);
    if toks.len() < 2 {
        return None;
    }
    let x = parse_px(toks[0].as_str());
    let y = parse_px(toks[1].as_str());
    proof {
        assert(toks.deep_view()[0] == toks@[0]@);
        assert(toks.deep_view()[1] == toks@[1]@);
    }
    match (x, y) {
        (Some(x), Some(y)) => Some((x, y)),
        _ => None,
    }
}

} // verus!
