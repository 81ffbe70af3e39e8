//! Fetch metrics tool: authentication and API metrics of one tenant over a time
//! range. The library checks the range and prepares the figures; the rates are
//! turned into floating point by the caller.

use crate::errors::AgentError;
use crate::es::at_least_one;
use crate::text::{join3, join4};
use crate::time::{
    div_toward_zero, format_rfc3339, is_not_after, parse_rfc3339, seconds_since, spec_parse_rfc3339,
    spec_rfc3339_text, spec_seconds_since, UtcTime,
};
use crate::types::{rate_of, rate_spec, Rate};
use vstd::prelude::*;

verus! {

/// Request parameters for fetching metrics.
pub struct FetchMetricsRequest {
    /// The tenant identifier to fetch metrics for
    pub tenant: String,
    /// Start time in ISO8601/RFC3339 format
    pub from: String,
    /// End time in ISO8601/RFC3339 format
    pub to: String,
}

/// Whether the instant `a` is not after `b`, both as timestamp and nanoseconds.
pub open spec fn pair_not_after(a: (i64, u32), b: (i64, u32)) -> bool {
    a.0 < b.0 || (a.0 == b.0 && a.1 <= b.1)
}

/// The range `[from, to)` read from its two texts, or the message of the
/// time-format error.
pub open spec fn time_range_spec(from: Seq<char>, to: Seq<char>) -> Result<
    ((i64, u32), (i64, u32)),
    Seq<char>,
> {
    match spec_parse_rfc3339(from) {
        Err(e) => Err("invalid from time '"@ + from + "': "@ + e),
        Ok(f) => match spec_parse_rfc3339(to) {
            Err(e) => Err("invalid to time '"@ + to + "': "@ + e),
            Ok(t) => if pair_not_after(t, f) {
                Err("End time must be after start time"@)
            } else {
                Ok((f, t))
            },
        },
    }
}

/// Parse and validate time range: both ends must be RFC 3339 instants and the
/// end must come after the start.
pub fn parse_time_range(from: &str, to: &str) -> (r: Result<(UtcTime, UtcTime), AgentError>)
    ensures
        match r {
            Ok((f, t)) => time_range_spec(from@, to@) == Ok::<((i64, u32), (i64, u32)), Seq<char>>(
                ((f.timestamp(), f.subsec_nanos()), (t.timestamp(), t.subsec_nanos())),
            ),
            Err(e) => e matches AgentError::TimeFormat(m) && time_range_spec(from@, to@) == Err::<
                ((i64, u32), (i64, u32)),
                Seq<char>,
            >(m@),
        },
{
    let from_dt = match parse_rfc3339(from) {
        Ok(t) => t,
        Err(e) => {
            return Err(
                AgentError::TimeFormat(join4("invalid from time '", from, "': ", e.as_str())),
            );
        },
    };
    let to_dt = match parse_rfc3339(to) {
        Ok(t) => t,
        Err(e) => {
            return Err(
                AgentError::TimeFormat(join4("invalid to time '", to, "': ", e.as_str())),
            );
        },
    };
    if is_not_after(&to_dt, &from_dt) {
        return Err(AgentError::TimeFormat("End time must be after start time".to_owned()));
    }
    Ok((from_dt, to_dt))
}

/// Calculate rates safely: the failure rate of the authentications, zero where
/// there were none. The success rate is its complement, and zero where there
/// were none.
pub fn calculate_rates(total_auth: u64, total_failures: u64) -> (r: Rate)
    ensures
        r == rate_spec(total_failures, total_auth),
        r.well_formed(),
{
    rate_of(total_failures, total_auth)
}

/// What the metrics of a request are computed over.
pub struct MetricsPlan {
    /// The start, written back in RFC 3339 for the queries
    pub from: String,
    /// The end, written back in RFC 3339 for the queries
    pub to: String,
    /// The length of the range in whole seconds, at least one
    pub window_secs: i64,
    /// The label of the range, `from..to` as requested
    pub window_label: String,
}

impl MetricsPlan {
    /// The API requests per second of the range.
    pub fn requests_per_second(&self, api_count: u64) -> (r: Rate)
        requires
            self.window_secs >= 1,
        ensures
            r == rate_spec(api_count, self.window_secs as u64),
            r.well_formed(),
    {
        rate_of(api_count, self.window_secs as u64)
    }
}

/// Checks the range of a request and prepares what its metrics are computed over.
pub fn plan_metrics(input: &FetchMetricsRequest) -> (r: Result<MetricsPlan, AgentError>)
    ensures
        match r {
            Ok(p) => time_range_spec(input.from@, input.to@) matches Ok((f, t)) && {
                &&& p.from@ == spec_rfc3339_text(f.0, f.1)
                &&& p.to@ == spec_rfc3339_text(t.0, t.1)
                &&& p.window_secs == at_least_one(spec_seconds_since(t.0, t.1, f.0, f.1))
                &&& p.window_label@ == input.from@ + ".."@ + input.to@
                &&& p.window_secs >= 1
                &&& spec_seconds_since(t.0, t.1, f.0, f.1) >= 1 ==> p.window_secs
                    == spec_seconds_since(t.0, t.1, f.0, f.1)
                &&& spec_seconds_since(t.0, t.1, f.0, f.1) < 1 ==> p.window_secs == 1
                &&& f.1 < 1_000_000_000 && t.1 < 1_000_000_000 ==> {
                    let exact = div_toward_zero(
                        (t.0 * 1_000_000_000 + t.1) - (f.0 * 1_000_000_000 + f.1),
                        1_000_000_000,
                    );
                    &&& exact >= 1 ==> p.window_secs == exact
                    &&& exact < 1 ==> p.window_secs == 1
                }
            },
            Err(e) => e matches AgentError::TimeFormat(m) && time_range_spec(
                input.from@,
                input.to@,
            ) == Err::<((i64, u32), (i64, u32)), Seq<char>>(m@),
        },
{
    let (from_dt, to_dt) = parse_time_range(input.from.as_str(), input.to.as_str())?;
    let secs = seconds_since(&to_dt, &from_dt);
    let window_secs = if secs >= 1 {
        secs
    } else {
        1
    };
    Ok(MetricsPlan {
        from: format_rfc3339(&from_dt),
        to: format_rfc3339(&to_dt),
        window_secs,
        window_label: join3(input.from.as_str(), "..", input.to.as_str()),
    })
}

} // verus!
