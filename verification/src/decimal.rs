//! Decimal integers written as text, read the way `str::parse::<i64>` reads them:
//! an optional `+` or `-`, then one or more ASCII digits, with a value that fits.

use vstd::prelude::*;

verus! {

pub open spec fn is_digit(c: char) -> bool {
    '0' <= c && c <= '9'
}

pub open spec fn all_digits(d: Seq<char>) -> bool {
    forall|i: int| 0 <= i < d.len() ==> #[trigger] is_digit(d[i])
}

pub open spec fn digit_value(c: char) -> int {
    (c as int) - ('0' as int)
}

/// The value of a sequence of decimal digits, most significant first.
pub open spec fn digits_value(d: Seq<char>) -> int
    decreases d.len(),
{
    if d.len() == 0 {
        0
    } else {
        digits_value(d.drop_last()) * 10 + digit_value(d.last())
    }
}

/// The integer that `t` writes, if it writes one: a sign is optional, a digit is not.
pub open spec fn decimal_int(t: Seq<char>) -> Option<int> {
    if t.len() > 0 && (t[0] == '+' || t[0] == '-') {
        let d = t.drop_first();
        if d.len() > 0 && all_digits(d) {
            Some(if t[0] == '-' { -digits_value(d) } else { digits_value(d) })
        } else {
            None
        }
    } else if t.len() > 0 && all_digits(t) {
        Some(digits_value(t))
    } else {
        None
    }
}

/// What `str::parse::<i64>` gives for `t`: the integer it writes, where it fits.
pub open spec fn parse_i64_spec(t: Seq<char>) -> Option<i64> {
    match decimal_int(t) {
        Some(v) => if i64::MIN <= v <= i64::MAX {
            Some(v as i64)
        } else {
            None
        },
        None => None,
    }
}

pub proof fn lemma_digits_value_nonneg(d: Seq<char>)
    requires
        all_digits(d),
    ensures
        digits_value(d) >= 0,
    decreases d.len(),
{
    if d.len() > 0 {
        assert(is_digit(d[d.len() - 1]));
        assert(all_digits(d.drop_last())) by {
            assert forall|i: int| 0 <= i < d.drop_last().len() implies #[trigger] is_digit(
                d.drop_last()[i],
            ) by {
                assert(d.drop_last()[i] == d[i]);
            }
        }
        lemma_digits_value_nonneg(d.drop_last());
    }
}

/// Digits that follow never make a value smaller.
pub proof fn lemma_digits_value_prefix(d: Seq<char>, k: int)
    requires
        all_digits(d),
        0 <= k <= d.len(),
    ensures
        digits_value(d.take(k)) <= digits_value(d),
    decreases d.len(),
{
    if k < d.len() {
        let p = d.drop_last();
        assert(all_digits(p)) by {
            assert forall|i: int| 0 <= i < p.len() implies #[trigger] is_digit(p[i]) by {
                assert(p[i] == d[i]);
            }
        }
        assert(is_digit(d[d.len() - 1]));
        lemma_digits_value_prefix(p, k);
        assert(p.take(k) =~= d.take(k));
        lemma_digits_value_nonneg(p);
    } else {
        assert(d.take(k) =~= d);
    }
}

/// Reads the digits of `t` from `start` on, as magnitude; `None` where a
/// character is not a digit, there is none, or the value passes `limit`.
fn read_magnitude(t: &str, start: usize, limit: u64) -> (r: Option<u64>)
    requires
        start <= t@.len(),
        limit >= 9,
    ensures
        match r {
            Some(m) => {
                &&& start < t@.len()
                &&& all_digits(t@.skip(start as int))
                &&& m == digits_value(t@.skip(start as int))
                &&& m <= limit
            },
            None => !(start < t@.len() && all_digits(t@.skip(start as int)) && digits_value(
                t@.skip(start as int),
            ) <= limit),
        },
{
    let len = t.unicode_len();
    if start >= len {
        return None;
    }
    let ghost d = t@.skip(start as int);
    let mut acc: u64 = 0;
    let mut i: usize = start;
    while i < len
        invariant
            start <= i <= len,
            len == t@.len(),
            d == t@.skip(start as int),
            all_digits(d.take(i - start)),
            acc == digits_value(d.take(i - start)),
            acc <= limit,
            limit >= 9,
        decreases len - i,
    {
        let c = t.get_char(i);
        assert(d[i - start] == c);
        if !('0' <= c && c <= '9') {
            assert(!all_digits(d)) by {
                assert(!is_digit(d[i - start]));
            }
            return None;
        }
        let digit: u64 = (c as u32 - '0' as u32) as u64;
        let ghost next = d.take(i - start + 1);
        assert(next.drop_last() =~= d.take(i - start));
        assert(next.last() == c);
        assert(all_digits(next)) by {
            assert forall|k: int| 0 <= k < next.len() implies #[trigger] is_digit(next[k]) by {
                if k < next.len() - 1 {
                    assert(next[k] == d.take(i - start)[k]);
                }
            }
        }
        if acc > (limit - digit) / 10 {
            proof {
                assert(digits_value(next) > limit) by (nonlinear_arith)
                    requires
                        digits_value(next) == acc * 10 + digit,
                        acc > (limit - digit) / 10,
                        digit <= 9,
                        digit <= limit,
                ;
                if all_digits(d) {
                    lemma_digits_value_prefix(d, i - start + 1);
                }
            }
            return None;
        }
        assert(acc * 10 + digit <= limit) by (nonlinear_arith)
            requires
                acc <= (limit - digit) / 10,
                digit <= limit,
        ;
        acc = acc * 10 + digit;
        i = i + 1;
    }
    assert(d.take(i - start) =~= d);
    Some(acc)
}

/// Reads `t` as `str::parse::<i64>` does.
pub fn parse_i64(t: &str) -> (r: Option<i64>)
    ensures
        r == parse_i64_spec(t@),
{
    let len = t.unicode_len();
    if len == 0 {
        return None;
    }
    let first = t.get_char(0);
    if first == '+' || first == '-' {
        let negative = first == '-';
        let limit: u64 = if negative { 9223372036854775808u64 } else { 9223372036854775807u64 };
        assert(t@.skip(1) =~= t@.drop_first());
        match read_magnitude(t, 1, limit) {
            Some(m) => {
                if negative {
                    if m == 9223372036854775808u64 {
                        Some(-9223372036854775808i64)
                    } else {
                        Some(-(m as i64))
                    }
                } else {
                    Some(m as i64)
                }
            },
            None => {
                proof {
                    let d = t@.drop_first();
                    if d.len() > 0 && all_digits(d) {
                        lemma_digits_value_nonneg(d);
                    }
                }
                None
            },
        }
    } else {
        assert(t@.skip(0) =~= t@);
        match read_magnitude(t, 0, 9223372036854775807u64) {
            Some(m) => Some(m as i64),
            None => None,
        }
    }
}

} // verus!
