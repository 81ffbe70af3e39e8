//! Instants in UTC, read, written and shifted by `chrono`.
//!
//! An instant is kept as the two numbers that `chrono` reports for a
//! `DateTime<Utc>`: the Unix timestamp in seconds and the nanoseconds past
//! that second. During a leap second the nanoseconds reach one billion or more.
//! Only the functions of this module build an instant, from a value that
//! `chrono` produced or by splitting a count of nanoseconds; the type invariant
//! of [`UtcTime`] states which instants `chrono` represents.

use vstd::prelude::*;

verus! {

/// An instant in UTC.
pub struct UtcTime {
    secs: i64,
    nanos: u32,
}

impl UtcTime {
    /// Seconds since 1970-01-01T00:00:00Z, leap seconds not counted.
    pub closed spec fn timestamp(self) -> i64 {
        self.secs
    }

    /// Nanoseconds past `timestamp()`; one billion or more in a leap second.
    pub closed spec fn subsec_nanos(self) -> u32 {
        self.nanos
    }

    /// The instants that `DateTime::<Utc>::from_timestamp` accepts: dates from
    /// -262143-01-01 to +262142-12-31, and nanoseconds of one billion or more
    /// only in the last second of a minute, a leap second.
    #[verifier::type_invariant]
    spec fn represented(self) -> bool {
        &&& -8_334_601_315_200 <= self.secs <= 8_210_266_876_799
        &&& self.nanos < 2_000_000_000
        &&& self.nanos >= 1_000_000_000 ==> self.secs % 60 == 59
    }

    /// The timestamp in seconds.
    pub fn timestamp_secs(&self) -> (r: i64)
        ensures
            r == self.timestamp(),
    {
        self.secs
    }

    /// The same instant.
    pub fn copy(&self) -> (r: UtcTime)
        ensures
            r == *self,
    {
        proof {
            use_type_invariant(self);
        }
        UtcTime { secs: self.secs, nanos: self.nanos }
    }

    /// Whether the instant lies in a leap second.
    pub open spec fn in_leap_second(self) -> bool {
        self.subsec_nanos() >= 1_000_000_000
    }

    /// The instant as nanoseconds since the epoch, leap seconds not counted.
    pub open spec fn total_nanos(self) -> int {
        self.timestamp() * 1_000_000_000 + self.subsec_nanos()
    }
}

/// Whether `a` is not after `b`, in the order of `DateTime<Utc>`: by timestamp,
/// then by nanoseconds.
pub open spec fn not_after(a: UtcTime, b: UtcTime) -> bool {
    a.timestamp() < b.timestamp() || (a.timestamp() == b.timestamp() && a.subsec_nanos()
        <= b.subsec_nanos())
}

/// Whether `a <= b` for the two instants.
pub fn is_not_after(a: &UtcTime, b: &UtcTime) -> (r: bool)
    ensures
        r == not_after(*a, *b),
{
    a.secs < b.secs || (a.secs == b.secs && a.nanos <= b.nanos)
}

/// The instant a text stands for, as `DateTime::parse_from_rfc3339` reads it, or
/// the fallback where it does not parse.
pub open spec fn instant_or(text: Seq<char>, fallback: (i64, u32)) -> (i64, u32) {
    match spec_parse_rfc3339(text) {
        Ok(p) => p,
        Err(_) => fallback,
    }
}

/// Seconds since the epoch well inside the range of `chrono`, whose dates run
/// from year -262143 to 262142: about 253,000 years either way.
pub open spec fn well_inside_chrono_range(secs: int) -> bool {
    -8_000_000_000_000 <= secs <= 8_000_000_000_000
}

/// Whether `DateTime::parse_from_rfc3339` reads the text as the instant with this
/// timestamp and these nanoseconds.
pub open spec fn reads_as(text: Seq<char>, secs: i64, nanos: u32) -> bool {
    spec_parse_rfc3339(text) == Ok::<(i64, u32), Seq<char>>((secs, nanos))
}

/// Seconds since the epoch of the instants in the years 0000 to 9999, the years
/// that RFC 3339 writes with four digits.
pub open spec fn four_digit_year(secs: int) -> bool {
    -62_167_219_200 <= secs <= 253_402_300_799
}

/// Seconds since the epoch of the instants that an RFC 3339 text can name: a
/// year of four digits, moved by an offset of less than a day.
pub open spec fn rfc3339_reach(secs: int) -> bool {
    -62_167_305_600 <= secs <= 253_402_387_199
}

/// Division that rounds toward zero, as `TimeDelta::num_seconds` does.
pub open spec fn div_toward_zero(a: int, b: int) -> int {
    if a >= 0 {
        a / b
    } else {
        -((-a) / b)
    }
}

/// What `DateTime::parse_from_rfc3339` followed by a change to UTC gives for a
/// text: the timestamp and nanoseconds, or the text of the parse error.
pub uninterp spec fn spec_parse_rfc3339(text: Seq<char>) -> Result<(i64, u32), Seq<char>>;

/// What `DateTime::<Utc>::to_rfc3339` writes for the instant with this timestamp
/// and these nanoseconds.
pub uninterp spec fn spec_rfc3339_text(secs: i64, nanos: u32) -> Seq<char>;

/// What `DateTime::from_timestamp_millis` followed by
/// `to_rfc3339_opts(SecondsFormat::Millis, true)` gives for a count of
/// milliseconds: the text, or nothing where `chrono` cannot represent the instant.
pub uninterp spec fn spec_millis_rfc3339_text(millis: i64) -> Option<Seq<char>>;

/// What `(later - earlier).num_seconds()` gives for two UTC instants.
pub uninterp spec fn spec_seconds_since(
    later_secs: i64,
    later_nanos: u32,
    earlier_secs: i64,
    earlier_nanos: u32,
) -> i64;

/// What `t.checked_sub_signed(later - earlier)` gives for three UTC instants.
pub uninterp spec fn spec_minus_span(
    secs: i64,
    nanos: u32,
    later_secs: i64,
    later_nanos: u32,
    earlier_secs: i64,
    earlier_nanos: u32,
) -> Option<(i64, u32)>;

/// What `t.checked_sub_signed(TimeDelta::try_minutes(minutes)?)` gives.
pub uninterp spec fn spec_minus_minutes(secs: i64, nanos: u32, minutes: i64) -> Option<(i64, u32)>;

/// Calls `chrono::DateTime::parse_from_rfc3339` and turns the result to UTC.
/// The contract claims that the outcome is the named function of the text, the
/// error carried as its display text, and that a parsed instant lies within a
/// day of the years 0000 to 9999: the parser reads a year of four digits and an
/// offset under 24 hours.
#[verifier::external_body]
pub(crate) fn parse_rfc3339(text: &str) -> (r: Result<UtcTime, String>)
    ensures
        match r {
            Ok(t) => spec_parse_rfc3339(text@) == Ok::<(i64, u32), Seq<char>>(
                (t.timestamp(), t.subsec_nanos()),
            ),
            Err(e) => spec_parse_rfc3339(text@) == Err::<(i64, u32), Seq<char>>(e@),
        },
        r matches Ok(t) ==> rfc3339_reach(t.timestamp() as int),
{
    match chrono::DateTime::parse_from_rfc3339(text) {
        Ok(d) => {
            let u = d.with_timezone(&chrono::Utc);
            Ok(UtcTime { secs: u.timestamp(), nanos: u.timestamp_subsec_nanos() })
        },
        Err(e) => Err(e.to_string()),
    }
}

/// Calls `chrono::DateTime::<Utc>::to_rfc3339` on the instant. The contract
/// claims that the text is the named function of the instant and, for the years
/// 0000 to 9999, that `parse_from_rfc3339` reads it back as the same instant:
/// the year is written with four digits, a leap second as second 60, the
/// fraction with every nonzero digit, and the offset as `+00:00`.
#[verifier::external_body]
pub(crate) fn format_rfc3339(t: &UtcTime) -> (r: String)
    ensures
        r@ == spec_rfc3339_text(t.timestamp(), t.subsec_nanos()),
        four_digit_year(t.timestamp() as int) ==> reads_as(r@, t.timestamp(), t.subsec_nanos()),
{
    chrono::DateTime::from_timestamp(t.secs, t.nanos).unwrap().to_rfc3339()
}

/// Calls `chrono::DateTime::from_timestamp_millis` and writes the instant with
/// `to_rfc3339_opts(SecondsFormat::Millis, true)`, as in
/// `2025-01-01T00:15:00.000Z`. The contract claims that the outcome is the
/// named function of the count, and that a text comes back for an instant well
/// inside the range of `chrono`.
#[verifier::external_body]
pub(crate) fn format_millis_utc(millis: i64) -> (r: Option<String>)
    ensures
        match r {
            Some(text) => spec_millis_rfc3339_text(millis) == Some(text@),
            None => spec_millis_rfc3339_text(millis) is None,
        },
        well_inside_chrono_range(millis as int / 1000) ==> r is Some,
{
    match chrono::DateTime::from_timestamp_millis(millis) {
        Some(d) => Some(d.to_rfc3339_opts(chrono::SecondsFormat::Millis, true)),
        None => None,
    }
}

/// Calls `chrono::Utc::now`. The contract claims what the clock always gives:
/// an instant after the epoch and outside any leap second.
#[verifier::external_body]
pub(crate) fn utc_now() -> (r: UtcTime)
    ensures
        r.timestamp() >= 0,
        !r.in_leap_second(),
{
    let now = chrono::Utc::now();
    UtcTime { secs: now.timestamp(), nanos: now.timestamp_subsec_nanos() }
}

/// The instant a count of nanoseconds since the epoch names, as
/// `DateTime::from_timestamp_nanos` builds it: the whole seconds, rounded down,
/// and the rest.
pub fn from_timestamp_nanos(nanos: i64) -> (r: UtcTime)
    ensures
        r.timestamp() == nanos as int / 1_000_000_000,
        r.subsec_nanos() == nanos as int % 1_000_000_000,
{
    let q: i64 = nanos / 1_000_000_000;
    let m: i64 = nanos % 1_000_000_000;
    if m < 0 {
        UtcTime { secs: q - 1, nanos: (m + 1_000_000_000) as u32 }
    } else {
        UtcTime { secs: q, nanos: m as u32 }
    }
}

/// Calls `(later - earlier).num_seconds()` on two `chrono` instants. Besides
/// naming the result, the contract claims what `chrono`'s source shows for
/// instants outside leap seconds: the difference rounded toward zero.
#[verifier::external_body]
pub(crate) fn seconds_since(later: &UtcTime, earlier: &UtcTime) -> (r: i64)
    ensures
        r == spec_seconds_since(
            later.timestamp(),
            later.subsec_nanos(),
            earlier.timestamp(),
            earlier.subsec_nanos(),
        ),
        !later.in_leap_second() && !earlier.in_leap_second() ==> r == div_toward_zero(
            later.total_nanos() - earlier.total_nanos(),
            1_000_000_000,
        ),
{
    let l = chrono::DateTime::from_timestamp(later.secs, later.nanos).unwrap();
    let e = chrono::DateTime::from_timestamp(earlier.secs, earlier.nanos).unwrap();
    (l - e).num_seconds()
}

/// Calls `t.checked_sub_signed(later - earlier)`: `t` moved back by the span from
/// `earlier` to `later`, or nothing where `chrono` cannot represent the result
/// (there `t - (later - earlier)` panics). Besides naming the result, the
/// contract claims what `chrono`'s source shows outside leap seconds: the
/// result is exact and outside a leap second. It also claims that a result comes
/// back where the plain difference lies well inside the range of `chrono`;
/// where leap seconds take part, `chrono` moves the result by at most a second
/// or two from that difference.
#[verifier::external_body]
pub(crate) fn minus_span(t: &UtcTime, later: &UtcTime, earlier: &UtcTime) -> (r: Option<UtcTime>)
    ensures
        match r {
            Some(x) => spec_minus_span(
                t.timestamp(),
                t.subsec_nanos(),
                later.timestamp(),
                later.subsec_nanos(),
                earlier.timestamp(),
                earlier.subsec_nanos(),
            ) == Some((x.timestamp(), x.subsec_nanos())),
            None => spec_minus_span(
                t.timestamp(),
                t.subsec_nanos(),
                later.timestamp(),
                later.subsec_nanos(),
                earlier.timestamp(),
                earlier.subsec_nanos(),
            ) is None,
        },
        r matches Some(x) ==> (!t.in_leap_second() && !later.in_leap_second()
            && !earlier.in_leap_second() ==> {
            &&& x.total_nanos() == t.total_nanos() - (later.total_nanos() - earlier.total_nanos())
            &&& !x.in_leap_second()
        }),
        well_inside_chrono_range(
            (t.total_nanos() - (later.total_nanos() - earlier.total_nanos())) / 1_000_000_000,
        ) ==> r is Some,
{
    let base = chrono::DateTime::from_timestamp(t.secs, t.nanos).unwrap();
    let l = chrono::DateTime::from_timestamp(later.secs, later.nanos).unwrap();
    let e = chrono::DateTime::from_timestamp(earlier.secs, earlier.nanos).unwrap();
    match base.checked_sub_signed(l - e) {
        Some(d) => Some(UtcTime { secs: d.timestamp(), nanos: d.timestamp_subsec_nanos() }),
        None => None,
    }
}

/// Calls `t.checked_sub_signed(TimeDelta::try_minutes(minutes)?)`: `t` moved
/// back by whole minutes, or nothing where `chrono` cannot represent the span
/// or the result (there `t - Duration::minutes(minutes)` panics). Besides
/// naming the result, the contract claims what `chrono`'s source shows outside
/// leap seconds: the seconds move and the nanoseconds stay, and the result
/// comes back for a span that `TimeDelta` holds (`minutes` well inside its
/// limit of `i64::MAX` milliseconds) and an instant well inside the range of
/// `chrono`.
#[verifier::external_body]
pub(crate) fn minus_minutes(t: &UtcTime, minutes: i64) -> (r: Option<UtcTime>)
    ensures
        match r {
            Some(x) => spec_minus_minutes(t.timestamp(), t.subsec_nanos(), minutes) == Some(
                (x.timestamp(), x.subsec_nanos()),
            ),
            None => spec_minus_minutes(t.timestamp(), t.subsec_nanos(), minutes) is None,
        },
        r matches Some(x) ==> (!t.in_leap_second() ==> {
            &&& x.timestamp() == t.timestamp() - 60 * minutes
            &&& x.subsec_nanos() == t.subsec_nanos()
        }),
        -100_000_000_000 <= minutes <= 100_000_000_000 && well_inside_chrono_range(
            t.timestamp() - 60 * minutes,
        ) ==> r is Some,
{
    let base = chrono::DateTime::from_timestamp(t.secs, t.nanos).unwrap();
    let shifted = match chrono::TimeDelta::try_minutes(minutes) {
        Some(span) => base.checked_sub_signed(span),
        None => None,
    };
    match shifted {
        Some(d) => Some(UtcTime { secs: d.timestamp(), nanos: d.timestamp_subsec_nanos() }),
        None => None,
    }
}

} // verus!
