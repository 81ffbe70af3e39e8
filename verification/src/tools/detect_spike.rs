//! Spike detection tool: the current time range and the baseline range it is
//! compared with, of the same length and ending where the current one starts.
//! The metrics of both are fetched, and the signals computed in floating point,
//! by the caller.

use crate::errors::{AgentError, Fault, ToolError};
use crate::time::{
    format_rfc3339, from_timestamp_nanos, instant_or, minus_minutes, minus_span, parse_rfc3339,
    four_digit_year, spec_minus_minutes, spec_minus_span, spec_rfc3339_text, utc_now,
    well_inside_chrono_range, UtcTime,
};
use crate::tools::interval::interval_value;
use crate::tools::window::{invalid_window_message, resolve_window, window_text};
use crate::types::RangeSpec;
use vstd::prelude::*;

verus! {

pub use crate::tools::interval::parse_interval_ms;

/// The two ranges a spike detection compares.
pub struct SpikeRanges {
    /// The current range, as requested or derived
    pub current: RangeSpec,
    /// The baseline range, written in RFC 3339
    pub baseline: RangeSpec,
    /// The instant the current range starts at
    pub current_start: UtcTime,
    /// The instant the current range ends at
    pub current_end: UtcTime,
    /// The instant the baseline range starts at
    pub baseline_start: UtcTime,
}

/// The default start of the current range in nanoseconds since the epoch: `now`,
/// in whole seconds, less the window.
pub open spec fn default_start_nanos(now_secs: i64, window_ms: i64) -> int {
    now_secs * 1_000_000_000 - window_ms * 1_000_000
}

/// Whether the default start lies in the range of nanoseconds that `i64` holds,
/// the range of `DateTime::from_timestamp_nanos`.
pub open spec fn default_start_fits(now_secs: i64, window_ms: i64) -> bool {
    i64::MIN <= default_start_nanos(now_secs, window_ms) <= i64::MAX
}

/// The default start of the current range as a timestamp and nanoseconds.
pub open spec fn default_start(now_secs: i64, window_ms: i64) -> (i64, u32) {
    let n = default_start_nanos(now_secs, window_ms);
    ((n / 1_000_000_000) as i64, (n % 1_000_000_000) as u32)
}

/// The default start is exactly the window before `now`, in whole seconds: its
/// nanoseconds since the epoch are those of `now`'s second less the window's
/// milliseconds, a million nanoseconds each, and it lies outside a leap second.
pub proof fn lemma_default_start_is_window_before_now(now_secs: i64, window_ms: i64)
    requires
        default_start_fits(now_secs, window_ms),
    ensures
        ({
            let s = default_start(now_secs, window_ms);
            &&& s.0 * 1_000_000_000 + s.1 == now_secs * 1_000_000_000 - window_ms * 1_000_000
            &&& s.1 < 1_000_000_000
        }),
{
    let n = now_secs * 1_000_000_000 - window_ms * 1_000_000;
    assert(n == (n / 1_000_000_000) * 1_000_000_000 + n % 1_000_000_000) by (nonlinear_arith);
    assert(0 <= n % 1_000_000_000 < 1_000_000_000) by (nonlinear_arith);
    assert(-9_223_372_037 <= n / 1_000_000_000 <= 9_223_372_036) by (nonlinear_arith)
        requires
            i64::MIN <= n <= i64::MAX,
    ;
}

/// The texts of the current range. Each end is kept where it is given; a
/// missing start is `now` less the window, a missing end is `now`.
pub open spec fn current_texts(
    from: Option<Seq<char>>,
    to: Option<Seq<char>>,
    window_ms: i64,
    now: UtcTime,
) -> (Seq<char>, Seq<char>) {
    (
        match from {
            Some(f) => f,
            None => {
                let s = default_start(now.timestamp(), window_ms);
                spec_rfc3339_text(s.0, s.1)
            },
        },
        match to {
            Some(t) => t,
            None => spec_rfc3339_text(now.timestamp(), now.subsec_nanos()),
        },
    )
}

/// Fifteen minutes before `now`, the start used where the requested one does
/// not parse.
pub open spec fn quarter_hour_before(now: UtcTime) -> (i64, u32) {
    ((now.timestamp() - 900) as i64, now.subsec_nanos())
}

/// An optional text by its characters.
pub open spec fn opt_view(s: Option<String>) -> Option<Seq<char>> {
    match s {
        Some(x) => Some(x@),
        None => None,
    }
}

/// Whether a spike detection at `now` is sure to complete: the window is an
/// interval, a missing start lies in the range of `DateTime::from_timestamp_nanos`,
/// and `now` lies in the years 0000 to 9999.
pub open spec fn spike_completes(from: Option<Seq<char>>, window: Option<Seq<char>>, now: UtcTime) -> bool {
    &&& interval_value(window_text(window)) matches Some(ms)
    &&& from is None ==> default_start_fits(now.timestamp(), ms)
    &&& four_digit_year(now.timestamp() as int)
}

/// What a spike detection at `now` gives for the requested ends and window.
/// The window is read first, and a window that is not an interval is refused
/// with its message. The current range keeps each given end and fills a missing
/// one: the start with `now` less the window, the end with `now`. The instants
/// of its ends are what the texts parse to, or fifteen minutes before `now` and
/// `now`; a filled end stands for the instant it was written from. The baseline
/// ends where the current range starts and is moved back by its width. The
/// detection stops only where an instant it needs lies far from the epoch, and
/// it completes whenever `spike_completes` holds.
pub open spec fn spike_outcome(
    from: Option<Seq<char>>,
    to: Option<Seq<char>>,
    window: Option<Seq<char>>,
    now: UtcTime,
    r: Result<SpikeRanges, ToolError>,
) -> bool {
    let w = window_text(window);
    &&& spike_completes(from, window, now) ==> r is Ok
    &&& match r {
        Ok(p) => interval_value(w) matches Some(ms) && {
            let (cf, ct) = current_texts(from, to, ms, now);
            let start = (p.current_start.timestamp(), p.current_start.subsec_nanos());
            let end = (p.current_end.timestamp(), p.current_end.subsec_nanos());
            let base = (p.baseline_start.timestamp(), p.baseline_start.subsec_nanos());
            &&& from is None ==> default_start_fits(now.timestamp(), ms)
            &&& p.current.from@ == cf
            &&& p.current.to@ == ct
            &&& spec_minus_minutes(now.timestamp(), now.subsec_nanos(), 15) is Some
            &&& start == instant_or(cf, quarter_hour_before(now))
            &&& end == instant_or(ct, (now.timestamp(), now.subsec_nanos()))
            &&& from is None ==> start == default_start(now.timestamp(), ms)
            &&& from is None ==> p.current_start.total_nanos() == now.timestamp() * 1_000_000_000
                - ms * 1_000_000
            &&& from is None && to is None && four_digit_year(now.timestamp() as int)
                ==> p.current_end.total_nanos() - p.current_start.total_nanos() == ms * 1_000_000
                + now.subsec_nanos()
            &&& to is None && four_digit_year(now.timestamp() as int) ==> end == (
                now.timestamp(),
                now.subsec_nanos(),
            )
            &&& spec_minus_span(start.0, start.1, end.0, end.1, start.0, start.1) == Some(base)
            &&& p.baseline.from@ == spec_rfc3339_text(base.0, base.1)
            &&& p.baseline.to@ == spec_rfc3339_text(start.0, start.1)
            &&& !p.current_start.in_leap_second() && !p.current_end.in_leap_second() ==> {
                &&& p.baseline_start.total_nanos() == p.current_start.total_nanos() - (
                p.current_end.total_nanos() - p.current_start.total_nanos())
                &&& !p.baseline_start.in_leap_second()
            }
        },
        Err(ToolError::Failed(e)) => interval_value(w) is None && (e matches AgentError::Other(m)
            && m@ == invalid_window_message(w)),
        Err(ToolError::Aborted(_)) => interval_value(w) matches Some(ms) && {
            let (cf, ct) = current_texts(from, to, ms, now);
            let start = instant_or(cf, quarter_hour_before(now));
            let end = instant_or(ct, (now.timestamp(), now.subsec_nanos()));
            let start_nanos = start.0 * 1_000_000_000 + start.1;
            let end_nanos = end.0 * 1_000_000_000 + end.1;
            &&& {
                ||| from is None && !default_start_fits(now.timestamp(), ms)
                ||| spec_minus_minutes(now.timestamp(), now.subsec_nanos(), 15) is None
                ||| spec_minus_span(start.0, start.1, end.0, end.1, start.0, start.1) is None
            }
            &&& {
                ||| from is None && !default_start_fits(now.timestamp(), ms)
                ||| !well_inside_chrono_range(now.timestamp() - 900)
                ||| !well_inside_chrono_range(
                    (start_nanos - (end_nanos - start_nanos)) / 1_000_000_000,
                )
            }
        },
    }
}

/// Determines the current and baseline ranges of a spike detection at `now`.
pub fn plan_spike_ranges(
    from: Option<String>,
    to: Option<String>,
    window: Option<String>,
    now: &UtcTime,
) -> (r: Result<SpikeRanges, ToolError>)
    requires
        !now.in_leap_second(),
    ensures
        spike_outcome(opt_view(from), opt_view(to), opt_view(window), *now, r),
{
    let ghost from_view = opt_view(from);
    let ghost to_view = opt_view(to);
    let (_window, window_ms) = match resolve_window(window) {
        Ok(resolved) => resolved,
        Err(e) => {
            return Err(ToolError::Failed(e));
        },
    };
    let cur_from = match from {
        Some(f) => f,
        None => {
            let nanos: i128 = (now.timestamp_secs() as i128) * 1_000_000_000 - (window_ms as i128)
                * 1_000_000;
            if nanos < -9223372036854775808i128 || nanos > 9223372036854775807i128 {
                return Err(ToolError::Aborted(Fault::TimeOutOfRange));
            }
            let start = from_timestamp_nanos(nanos as i64);
            proof {
                lemma_default_start_is_window_before_now(now.timestamp(), window_ms);
            }
            format_rfc3339(&start)
        },
    };
    let cur_to = match to {
        Some(t) => t,
        None => format_rfc3339(now),
    };
    assert((cur_from@, cur_to@) == current_texts(from_view, to_view, window_ms, *now));
    let fallback = match minus_minutes(now, 15) {
        Some(t) => t,
        None => {
            return Err(ToolError::Aborted(Fault::TimeOutOfRange));
        },
    };
    let current_start = match parse_rfc3339(cur_from.as_str()) {
        Ok(t) => t,
        Err(_) => fallback,
    };
    let current_end = match parse_rfc3339(cur_to.as_str()) {
        Ok(t) => t,
        Err(_) => now.copy(),
    };
    let baseline_start = match minus_span(&current_start, &current_end, &current_start) {
        Some(t) => t,
        None => {
            return Err(ToolError::Aborted(Fault::TimeOutOfRange));
        },
    };
    let base_from = format_rfc3339(&baseline_start);
    let base_to = format_rfc3339(&current_start);
    Ok(SpikeRanges {
        current: RangeSpec { from: cur_from, to: cur_to },
        baseline: RangeSpec { from: base_from, to: base_to },
        current_start,
        current_end,
        baseline_start,
    })
}

/// Determines the current and baseline ranges of a spike detection at the
/// current time: what `plan_spike_ranges` gives at some instant after the
/// epoch and outside a leap second, the one the clock reads.
pub fn plan_spike_ranges_now(
    from: Option<String>,
    to: Option<String>,
    window: Option<String>,
) -> (r: Result<SpikeRanges, ToolError>)
    ensures
        exists|now: UtcTime|
            #![trigger spike_outcome(opt_view(from), opt_view(to), opt_view(window), now, r)]
            now.timestamp() >= 0 && !now.in_leap_second() && spike_outcome(
                opt_view(from),
                opt_view(to),
                opt_view(window),
                now,
                r,
            ),
{
    let now = utc_now();
    let ghost (f, t, w) = (opt_view(from), opt_view(to), opt_view(window));
    let r = plan_spike_ranges(from, to, window, &now);
    assert(spike_outcome(f, t, w, now, r));
    r
}

} // verus!
