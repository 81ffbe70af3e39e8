//! Interval texts such as `15m`, `1h` or `2d`, read as milliseconds.

use crate::decimal::{parse_i64, parse_i64_spec};
use vstd::prelude::*;

verus! {

/// Milliseconds in one unit named by `c`: `s`, `m`, `h` or `d`.
pub open spec fn unit_ms(c: char) -> Option<int> {
    if c == 's' {
        Some(1000int)
    } else if c == 'm' {
        Some(60000int)
    } else if c == 'h' {
        Some(3600000int)
    } else if c == 'd' {
        Some(86400000int)
    } else {
        None
    }
}

/// The interval that `s` writes, in milliseconds: a count that `str::parse::<i64>`
/// accepts, then one unit letter. The product is not bounded here.
pub open spec fn interval_ms_spec(s: Seq<char>) -> Option<int> {
    if s.len() == 0 {
        None
    } else {
        match parse_i64_spec(s.drop_last()) {
            Some(n) => match unit_ms(s.last()) {
                Some(u) => Some(n * u),
                None => None,
            },
            None => None,
        }
    }
}

/// The interval that `s` writes, in milliseconds, where it fits in `i64`.
pub open spec fn interval_value(s: Seq<char>) -> Option<i64> {
    match interval_ms_spec(s) {
        Some(x) => if i64::MIN <= x <= i64::MAX {
            Some(x as i64)
        } else {
            None
        },
        None => None,
    }
}

/// A count followed by a unit letter is that many units: a second is 1000
/// milliseconds, a minute 60 000, an hour 3 600 000 and a day 86 400 000, for
/// every count; any other last character is no interval.
pub proof fn lemma_interval_is_count_times_unit(count: Seq<char>, n: i64, c: char)
    requires
        parse_i64_spec(count) == Some(n),
    ensures
        interval_ms_spec(count.push('s')) == Some(n * 1000),
        interval_ms_spec(count.push('m')) == Some(n * 60_000),
        interval_ms_spec(count.push('h')) == Some(n * 3_600_000),
        interval_ms_spec(count.push('d')) == Some(n * 86_400_000),
        c != 's' && c != 'm' && c != 'h' && c != 'd' ==> interval_ms_spec(count.push(c)) is None,
{
    assert(count.push('s').drop_last() =~= count);
    assert(count.push('m').drop_last() =~= count);
    assert(count.push('h').drop_last() =~= count);
    assert(count.push('d').drop_last() =~= count);
    assert(count.push(c).drop_last() =~= count);
}

/// An interval is read as its milliseconds where they fit in `i64`, and is
/// refused where they do not; a text that is no interval is refused too.
pub proof fn lemma_interval_value_fits(s: Seq<char>)
    ensures
        interval_ms_spec(s) matches Some(x) ==> (i64::MIN <= x <= i64::MAX ==> interval_value(s)
            == Some(x as i64)),
        interval_ms_spec(s) matches Some(x) ==> (!(i64::MIN <= x <= i64::MAX) ==> interval_value(
            s,
        ) is None),
        interval_ms_spec(s) is None ==> interval_value(s) is None,
        interval_value(s) matches Some(v) ==> interval_ms_spec(s) == Some(v as int),
{
}

/// Parse string intervals into milliseconds.
///
/// Converts interval strings like `15m`, `1h`, `2d` into milliseconds, or
/// `None` where the text is not a count followed by `s`, `m`, `h` or `d`, or
/// where the milliseconds do not fit in `i64`.
pub fn parse_interval_ms(s: &str) -> (r: Option<i64>)
    ensures
        r == interval_value(s@),
        r matches Some(v) ==> s@.len() > 0 && (parse_i64_spec(s@.drop_last()) matches Some(n) && {
            ||| s@.last() == 's' && v == n * 1000
            ||| s@.last() == 'm' && v == n * 60_000
            ||| s@.last() == 'h' && v == n * 3_600_000
            ||| s@.last() == 'd' && v == n * 86_400_000
        }),
{
    let len = s.unicode_len();
    if len == 0 {
        return None;
    }
    let last = s.get_char(len - 1);
    let unit: i128 = if last == 's' {
        1000
    } else if last == 'm' {
        60 * 1000
    } else if last == 'h' {
        60 * 60 * 1000
    } else if last == 'd' {
        24 * 60 * 60 * 1000
    } else {
        return None;
    };
    let num = s.substring_char(0, len - 1);
    assert(num@ =~= s@.drop_last());
    let n = match parse_i64(num) {
        Some(n) => n,
        None => {
            return None;
        },
    };
    let product: i128 = (n as i128) * unit;
    if product < -9223372036854775808i128 || product > 9223372036854775807i128 {
        return None;
    }
    Some(product as i64)
}

} // verus!
