//! Common data structures of the analysis results that hold no measurement
//! in floating point.

use crate::json::{JsonNumber, NumberView};
use vstd::prelude::*;

verus! {

/// Time range specification: start and end in ISO8601/RFC3339.
pub struct RangeSpec {
    /// Start time (ISO8601/RFC3339)
    pub from: String,
    /// End time (ISO8601/RFC3339)
    pub to: String,
}

/// An identifier (an IP address, an endpoint) and how often it occurs.
pub struct TopCount {
    /// The identifier (e.g., IP address, endpoint)
    pub key: String,
    /// Number of occurrences
    pub count: u64,
}

impl TopCount {
    pub open spec fn view(&self) -> (Seq<char>, u64) {
        (self.key@, self.count)
    }
}

/// The IP addresses with the most failed authentications in one time window.
pub struct TimeWindowIps {
    /// Window start time (ISO8601/RFC3339)
    pub start: String,
    /// Window end time (ISO8601/RFC3339)
    pub end: String,
    /// Top IP addresses with failed authentication attempts
    pub top_failed_ips: Vec<TopCount>,
}

/// The value of a list of counts.
pub open spec fn counts_view(v: Seq<TopCount>) -> Seq<(Seq<char>, u64)> {
    v.map_values(|t: TopCount| t.view())
}

/// Overall and time-windowed failed-authentication counts by IP.
pub type CountsAndIps = (Vec<TopCount>, Vec<TimeWindowIps>);

/// A ratio of two counts, as the tools report rates: zero where nothing was counted.
pub enum Rate {
    /// Nothing was counted: the rate is zero.
    Zero,
    /// `numerator` out of `denominator`, which is positive.
    Fraction { numerator: u64, denominator: u64 },
}

impl Rate {
    pub open spec fn well_formed(self) -> bool {
        self matches Rate::Fraction { denominator, .. } ==> denominator > 0
    }
}

/// The rate of `part` in `whole`: zero where `whole` is zero.
pub open spec fn rate_spec(part: u64, whole: u64) -> Rate {
    if whole == 0 {
        Rate::Zero
    } else {
        Rate::Fraction { numerator: part, denominator: whole }
    }
}

/// The rate of `part` in `whole`: zero where `whole` is zero.
pub fn rate_of(part: u64, whole: u64) -> (r: Rate)
    ensures
        r == rate_spec(part, whole),
        r.well_formed(),
        whole > 0 ==> r == (Rate::Fraction { numerator: part, denominator: whole }),
        whole == 0 ==> r == Rate::Zero,
{
    if whole > 0 {
        Rate::Fraction { numerator: part, denominator: whole }
    } else {
        Rate::Zero
    }
}

/// A rate is `part` out of `whole` for every positive `whole`, whatever `part`
/// is, `part == whole` (every event counted) and `part == 0` included; it is zero
/// only where nothing was counted.
pub proof fn lemma_rate_is_part_over_whole(part: u64, whole: u64)
    ensures
        whole > 0 ==> rate_spec(part, whole) == (Rate::Fraction { numerator: part, denominator: whole }),
        whole > 0 ==> rate_spec(whole, whole) == (Rate::Fraction { numerator: whole, denominator: whole }),
        rate_spec(part, whole) == Rate::Zero <==> whole == 0,
        rate_spec(part, whole).well_formed(),
{
}

/// The counts behind the statistics of one API endpoint.
pub struct EndpointCounts {
    /// API endpoint path
    pub endpoint: String,
    /// Total number of requests to this endpoint
    pub count: u64,
    /// 95th percentile latency in milliseconds, where Elasticsearch gave a number
    pub p95_latency: Option<JsonNumber>,
    /// Requests answered with an error status
    pub error_count: u64,
}

impl EndpointCounts {
    pub open spec fn view(&self) -> (Seq<char>, u64, Option<NumberView>, u64) {
        (
            self.endpoint@,
            self.count,
            match self.p95_latency {
                Some(n) => Some(n.view()),
                None => None,
            },
            self.error_count,
        )
    }

    /// The error rate of the endpoint: errors among all its requests.
    pub fn error_rate(&self) -> (r: Rate)
        ensures
            r == rate_spec(self.error_count, self.count),
            r.well_formed(),
    {
        rate_of(self.error_count, self.count)
    }
}

} // verus!
