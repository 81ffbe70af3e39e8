//! The Elasticsearch queries of the analysis and what it reads from the answers.
//!
//! Each query is an [`EsRequest`]: the URL to post to and the JSON body. The
//! readers take the answer as a [`Json`] document and extract the counts,
//! keys and buckets, with the defaults the analysis uses where a field is
//! missing.

use crate::errors::AgentError;
use crate::json::{
    array, fractional, items_at_or_empty, lemma_view_items, number_at, obj1, obj2, obj3, obj4,
    object, object1, object2, object3, object4, str_at_or_empty, text, text_eq, u64_at_or_zero,
    uint, unsigned, view_items, Json, JsonNumber, JsonView, NumberView,
};
use crate::text::{
    join3, lemma_text_less_irreflexive, lemma_text_less_total, lemma_text_less_transitive,
    text_less, text_lt, trim_end_char, trim_end_matches_char,
};
use crate::time::{
    div_toward_zero, format_millis_utc, instant_or, parse_rfc3339, seconds_since, spec_millis_rfc3339_text,
    spec_seconds_since, utc_now, UtcTime,
};
use crate::types::{
    counts_view, rate_of, rate_spec, CountsAndIps, EndpointCounts, Rate, TimeWindowIps, TopCount,
};
use vstd::prelude::*;

verus! {

/// No documents, only aggregations.
pub const DEFAULT_QUERY_SIZE: u64 = 0;

pub const DEFAULT_TOP_N: usize = 10;

pub const AUTH_LOGS_INDEX: &'static str = "auth-logs";

pub const API_LOGS_INDEX: &'static str = "api-logs";

/// How many tenants one aggregation lists at most.
pub const TENANT_BUCKETS: u64 = 1000;

/// A query to send: where, and what.
pub struct EsRequest {
    pub url: String,
    pub body: Json,
}

// ---------------------------------------------------------------------------
// Names and URLs
// ---------------------------------------------------------------------------

pub open spec fn auth_logs_index() -> Seq<char> {
    AUTH_LOGS_INDEX@
}

pub open spec fn api_logs_index() -> Seq<char> {
    API_LOGS_INDEX@
}

pub open spec fn tenant_field() -> Seq<char> {
    "tenant_id.keyword"@
}

/// The URL of an action on an index: the cluster URL without trailing slashes,
/// then `/`, the index and the action.
pub open spec fn index_url_spec(es_url: Seq<char>, index: Seq<char>, action: Seq<char>) -> Seq<
    char,
> {
    trim_end_char(es_url, '/') + "/"@ + index + action
}

pub fn index_url(es_url: &str, index: &str, action: &str) -> (r: String)
    ensures
        r@ == index_url_spec(es_url@, index@, action@),
{
    let base = trim_end_matches_char(es_url, '/');
    let mut r = join3(base.as_str(), "/", index);
    r.append(action);
    r
}

/// The cluster URL, once trimmed, does not end with a slash, and is a prefix of
/// what was given: the URLs never hold `//` before the index.
pub proof fn lemma_trimmed_url_has_no_trailing_slash(es_url: Seq<char>)
    ensures
        trim_end_char(es_url, '/').len() == 0 || trim_end_char(es_url, '/').last() != '/',
        trim_end_char(es_url, '/').len() <= es_url.len(),
        trim_end_char(es_url, '/') == es_url.take(trim_end_char(es_url, '/').len() as int),
    decreases es_url.len(),
{
    if es_url.len() > 0 && es_url.last() == '/' {
        lemma_trimmed_url_has_no_trailing_slash(es_url.drop_last());
        let t = trim_end_char(es_url, '/');
        assert(es_url.drop_last().take(t.len() as int) =~= es_url.take(t.len() as int));
    } else {
        assert(es_url.take(es_url.len() as int) =~= es_url);
    }
}

/// The URL that resolves an index, as the health check asks it.
pub fn resolve_index_url(es_url: &str, index: &str) -> (r: String)
    ensures
        r@ == es_url@ + "/_resolve/index/"@ + index@,
{
    join3(es_url, "/_resolve/index/", index)
}

/// The `Authorization` header value that carries an API key on queries.
pub fn api_key_header(key: &str) -> (r: String)
    ensures
        r@ == "ApiKey "@ + key@,
{
    let mut r = "ApiKey ".to_owned();
    r.append(key);
    r
}

/// The `Authorization` header value of the health check.
pub fn health_api_key_header(key: &str) -> (r: String)
    ensures
        r@ == "Apikey "@ + key@,
{
    let mut r = "Apikey ".to_owned();
    r.append(key);
    r
}

// ---------------------------------------------------------------------------
// Pieces of query bodies
// ---------------------------------------------------------------------------

/// `{"term": {field: value}}`
pub open spec fn term_spec(field: Seq<char>, value: JsonView) -> JsonView {
    obj1("term"@, obj1(field, value))
}

/// `{"range": {"ts": {"gte": from, "lt": to}}}`
pub open spec fn ts_range_spec(from: Seq<char>, to: Seq<char>) -> JsonView {
    obj1("range"@, obj1("ts"@, obj2("gte"@, JsonView::Str(from), "lt"@, JsonView::Str(to))))
}

/// `{"term": {"success": false}}`
pub open spec fn failure_term_spec() -> JsonView {
    term_spec("success"@, JsonView::Bool(false))
}

/// `{"bool": {"filter": filters}}`
pub open spec fn bool_filter_spec(filters: Seq<JsonView>) -> JsonView {
    obj1("bool"@, obj1("filter"@, JsonView::Array(filters)))
}

/// `{"percentiles": {"field": "latency_ms", "percents": [95.0]}}`
pub open spec fn p95_agg_spec() -> JsonView {
    obj1(
        "percentiles"@,
        obj2(
            "field"@,
            JsonView::Str("latency_ms"@),
            "percents"@,
            JsonView::Array(seq![JsonView::Number(NumberView::Float("95.0"@))]),
        ),
    )
}

/// `{"filter": {"terms": {"status_code": [429, 500, 502]}}}`
pub open spec fn error_count_agg_spec() -> JsonView {
    obj1(
        "filter"@,
        obj1(
            "terms"@,
            obj1("status_code"@, JsonView::Array(seq![uint(429), uint(500), uint(502)])),
        ),
    )
}

/// `{"terms": {"field": field, "size": size}}`
pub open spec fn terms_agg_spec(field: Seq<char>, size: u64) -> JsonView {
    obj1("terms"@, obj2("field"@, JsonView::Str(field), "size"@, uint(size)))
}

fn term(field: &str, value: Json) -> (r: Json)
    ensures
        r@ == term_spec(field@, value@),
{
    object1("term", object1(field, value))
}

fn ts_range(from: &str, to: &str) -> (r: Json)
    ensures
        r@ == ts_range_spec(from@, to@),
{
    object1("range", object1("ts", object2("gte", text(from), "lt", text(to))))
}

fn failure_term() -> (r: Json)
    ensures
        r@ == failure_term_spec(),
{
    term("success", Json::Bool(false))
}

fn bool_filter(filters: Vec<Json>) -> (r: Json)
    ensures
        r@ == bool_filter_spec(filters@.map_values(|j: Json| j@)),
{
    object1("bool", object1("filter", array(filters)))
}

fn p95_agg() -> (r: Json)
    ensures
        r@ == p95_agg_spec(),
{
    let items = vec![fractional("95.0")];
    assert(items@.map_values(|j: Json| j@) =~= seq![JsonView::Number(NumberView::Float("95.0"@))]);
    let percents = array(items);
    object1("percentiles", object2("field", text("latency_ms"), "percents", percents))
}

fn error_count_agg() -> (r: Json)
    ensures
        r@ == error_count_agg_spec(),
{
    let items = vec![unsigned(429), unsigned(500), unsigned(502)];
    assert(items@.map_values(|j: Json| j@) =~= seq![uint(429), uint(500), uint(502)]);
    let codes = array(items);
    object1("filter", object1("terms", object1("status_code", codes)))
}

fn terms_agg(field: &str, size: u64) -> (r: Json)
    ensures
        r@ == terms_agg_spec(field@, size),
{
    object1("terms", object2("field", text(field), "size", unsigned(size)))
}

/// The filters on the time range, preceded by `first` where there is one, and
/// followed by the failure term where `failures_only`.
pub open spec fn filters_spec(
    first: Option<JsonView>,
    from: Seq<char>,
    to: Seq<char>,
    failures_only: bool,
) -> Seq<JsonView> {
    let head = match first {
        Some(f) => seq![f, ts_range_spec(from, to)],
        None => seq![ts_range_spec(from, to)],
    };
    if failures_only {
        head.push(failure_term_spec())
    } else {
        head
    }
}

// ---------------------------------------------------------------------------
// Queries
// ---------------------------------------------------------------------------

/// The body that counts authentication documents in a time range, of one tenant
/// where `tenant` is given, and only failures where `failures_only`.
pub open spec fn count_body_spec(
    tenant: Option<Seq<char>>,
    from: Seq<char>,
    to: Seq<char>,
    failures_only: bool,
) -> JsonView {
    let first = match tenant {
        Some(t) => Some(term_spec(tenant_field(), JsonView::Str(t))),
        None => None,
    };
    obj1("query"@, bool_filter_spec(filters_spec(first, from, to, failures_only)))
}

fn count_body(tenant: Option<&str>, from: &str, to: &str, failures_only: bool) -> (r: Json)
    ensures
        r@ == count_body_spec(
            match tenant {
                Some(t) => Some(t@),
                None => None,
            },
            from@,
            to@,
            failures_only,
        ),
{
    let mut filters: Vec<Json> = Vec::new();
    match tenant {
        Some(t) => {
            filters.push(term("tenant_id.keyword", text(t)));
        },
        None => {},
    }
    filters.push(ts_range(from, to));
    if failures_only {
        filters.push(failure_term());
    }
    let ghost tv = match tenant {
        Some(t) => Some(t@),
        None => None::<Seq<char>>,
    };
    let ghost first = match tv {
        Some(t) => Some(term_spec(tenant_field(), JsonView::Str(t))),
        None => None,
    };
    assert(filters@.map_values(|j: Json| j@) =~= filters_spec(first, from@, to@, failures_only));
    object1("query", bool_filter(filters))
}

/// Count documents by tenant: the authentication documents of `tenant` in
/// `[from, to)`, only the failed ones where `only_failures`.
pub fn count_by_tenant_request(
    es_url: &str,
    tenant: &str,
    from: &str,
    to: &str,
    only_failures: bool,
) -> (r: EsRequest)
    ensures
        r.url@ == index_url_spec(es_url@, auth_logs_index(), "/_count"@),
        r.body@ == count_body_spec(Some(tenant@), from@, to@, only_failures),
{
    EsRequest {
        url: index_url(es_url, AUTH_LOGS_INDEX, "/_count"),
        body: count_body(Some(tenant), from, to, only_failures),
    }
}

/// Count all authentication documents in `[from, to)`, only the failed ones
/// where `add_failure_term`.
pub fn count_request(es_url: &str, from: &str, to: &str, add_failure_term: bool) -> (r: EsRequest)
    ensures
        r.url@ == index_url_spec(es_url@, auth_logs_index(), "/_count"@),
        r.body@ == count_body_spec(None, from@, to@, add_failure_term),
{
    EsRequest {
        url: index_url(es_url, AUTH_LOGS_INDEX, "/_count"),
        body: count_body(None, from, to, add_failure_term),
    }
}

/// The failure count of a tenant is asked with the very query of its total
/// count, narrowed by one more filter: failed authentications only.
pub proof fn lemma_failure_count_narrows_total(
    tenant: Option<Seq<char>>,
    from: Seq<char>,
    to: Seq<char>,
)
    ensures
        ({
            let first = match tenant {
                Some(t) => Some(term_spec(tenant_field(), JsonView::Str(t))),
                None => None,
            };
            &&& count_body_spec(tenant, from, to, false) == obj1(
                "query"@,
                bool_filter_spec(filters_spec(first, from, to, false)),
            )
            &&& count_body_spec(tenant, from, to, true) == obj1(
                "query"@,
                bool_filter_spec(filters_spec(first, from, to, false).push(failure_term_spec())),
            )
        }),
{
}

/// Tenant isolation: every query about one tenant filters on that tenant
/// first, and on the requested time range next.
pub proof fn lemma_tenant_queries_filter_by_tenant(
    tenant: Seq<char>,
    from: Seq<char>,
    to: Seq<char>,
    window: Seq<char>,
    top_n: u64,
    only_failures: bool,
)
    ensures
        count_body_spec(Some(tenant), from, to, only_failures).get("query"@) matches Some(q)
            && q.get("bool"@) matches Some(b) && b.get("filter"@) matches Some(JsonView::Array(f))
            && f[0] == term_spec(tenant_field(), JsonView::Str(tenant))
            && f[1] == ts_range_spec(from, to),
        api_percentiles_body_spec(tenant, from, to).get("query"@) matches Some(q)
            && q.get("bool"@) matches Some(b)
            && b.get("filter"@) matches Some(JsonView::Array(f))
            && f == seq![term_spec("tenant_id"@, JsonView::Str(tenant)), ts_range_spec(from, to)],
        auth_failed_ips_body_spec(tenant, from, to, window, top_n).get("query"@) matches Some(q)
            && q.get("bool"@) matches Some(b) && b.get("filter"@) matches Some(JsonView::Array(f))
            && f == seq![term_spec(tenant_field(), JsonView::Str(tenant)), ts_range_spec(from, to)],
        api_endpoints_body_spec(tenant, from, to, top_n).get("query"@) matches Some(q)
            && q.get("bool"@) matches Some(b)
            && b.get("filter"@) matches Some(JsonView::Array(f))
            && f == seq![term_spec("tenant_id"@, JsonView::Str(tenant)), ts_range_spec(from, to)],
{
    reveal_with_fuel(crate::json::member, 4);
    reveal_strlit("size");
    reveal_strlit("query");
    reveal_strlit("track_total_hits");
    assert("size"@.len() == 4);
    assert("query"@.len() == 5);
    assert("track_total_hits"@.len() == 16);
}

/// The body of the API latency query of one tenant.
pub open spec fn api_percentiles_body_spec(
    tenant: Seq<char>,
    from: Seq<char>,
    to: Seq<char>,
) -> JsonView {
    obj4(
        "size"@,
        uint(DEFAULT_QUERY_SIZE),
        "track_total_hits"@,
        JsonView::Bool(true),
        "query"@,
        bool_filter_spec(
            seq![term_spec("tenant_id"@, JsonView::Str(tenant)), ts_range_spec(from, to)],
        ),
        "aggs"@,
        obj1("percentiles_agg"@, p95_agg_spec()),
    )
}

/// The 95th percentile of API latency and the count of API requests of a tenant.
pub fn api_percentiles_and_count_request(es_url: &str, tenant: &str, from: &str, to: &str) -> (r:
    EsRequest)
    ensures
        r.url@ == index_url_spec(es_url@, api_logs_index(), "/_search"@),
        r.body@ == api_percentiles_body_spec(tenant@, from@, to@),
{
    let filters = vec![term("tenant_id", text(tenant)), ts_range(from, to)];
    let query = bool_filter(filters);
    assert(filters@.map_values(|j: Json| j@) =~= seq![
        term_spec("tenant_id"@, JsonView::Str(tenant@)),
        ts_range_spec(from@, to@),
    ]);
    let body = object4(
        "size",
        unsigned(DEFAULT_QUERY_SIZE),
        "track_total_hits",
        Json::Bool(true),
        "query",
        query,
        "aggs",
        object1("percentiles_agg", p95_agg()),
    );
    EsRequest { url: index_url(es_url, API_LOGS_INDEX, "/_search"), body }
}

/// The body of the tenant listing: over all documents, or over a time range.
pub open spec fn tenant_ids_body_spec(range: Option<(Seq<char>, Seq<char>)>) -> JsonView {
    let query = match range {
        Some((from, to)) => ts_range_spec(from, to),
        None => obj1("match_all"@, JsonView::Object(Seq::empty())),
    };
    obj3(
        "size"@,
        uint(DEFAULT_QUERY_SIZE),
        "query"@,
        query,
        "aggs"@,
        obj1("tenant_aggregation"@, terms_agg_spec(tenant_field(), TENANT_BUCKETS)),
    )
}

/// The aggregation of tenant IDs over all indices; the cluster URL is taken as
/// it is given.
pub fn tenant_ids_request(es_url: &str, time_range: Option<(&str, &str)>) -> (r: EsRequest)
    ensures
        r.url@ == es_url@ + "/"@ + "*"@ + "/_search"@,
        r.body@ == tenant_ids_body_spec(
            match time_range {
                Some((from, to)) => Some((from@, to@)),
                None => None,
            },
        ),
{
    let query = match time_range {
        Some((from, to)) => ts_range(from, to),
        None => {
            let members: Vec<(String, Json)> = Vec::new();
            let r = object(members);
            assert(r@ == JsonView::Object(Seq::empty())) by {
                assert(members@.map_values(|e: (String, Json)| (e.0@, e.1@)) =~= Seq::empty());
            }
            object1("match_all", r)
        },
    };
    let body = object3(
        "size",
        unsigned(DEFAULT_QUERY_SIZE),
        "query",
        query,
        "aggs",
        object1("tenant_aggregation", terms_agg("tenant_id.keyword", TENANT_BUCKETS)),
    );
    let mut url = join3(es_url, "/", "*");
    url.append("/_search");
    EsRequest { url, body }
}

/// Configuration for fetching authentication failed IPs with windowing.
pub struct AuthFailedIpsConfig<'a> {
    pub es_url: &'a str,
    pub tenant: &'a str,
    pub from: &'a str,
    pub to: &'a str,
    pub window: &'a str,
    pub window_ms: i64,
    pub top_n: usize,
    pub auth: &'a Option<String>,
}

/// `{"filter": {"term": {"success": false}},
///   "aggs": {"top_ips": {"terms": {"field": "ip", "size": top_n}}}}`
pub open spec fn failed_ips_agg_spec(top_n: u64) -> JsonView {
    obj2("filter"@, failure_term_spec(), "aggs"@, obj1("top_ips"@, terms_agg_spec("ip"@, top_n)))
}

fn failed_ips_agg(top_n: u64) -> (r: Json)
    ensures
        r@ == failed_ips_agg_spec(top_n),
{
    object2("filter", failure_term(), "aggs", object1("top_ips", terms_agg("ip", top_n)))
}

/// The body of the failed-authentication query: top IPs overall and per window.
pub open spec fn auth_failed_ips_body_spec(
    tenant: Seq<char>,
    from: Seq<char>,
    to: Seq<char>,
    window: Seq<char>,
    top_n: u64,
) -> JsonView {
    obj3(
        "size"@,
        uint(DEFAULT_QUERY_SIZE),
        "query"@,
        bool_filter_spec(
            seq![term_spec(tenant_field(), JsonView::Str(tenant)), ts_range_spec(from, to)],
        ),
        "aggs"@,
        obj2(
            "overall_failed_ips"@,
            failed_ips_agg_spec(top_n),
            "time_buckets"@,
            obj2(
                "date_histogram"@,
                obj4(
                    "field"@,
                    JsonView::Str("ts"@),
                    "fixed_interval"@,
                    JsonView::Str(window),
                    "min_doc_count"@,
                    uint(0),
                    "format"@,
                    JsonView::Str("strict_date_time"@),
                ),
                "aggs"@,
                obj1("failed_in_window"@, failed_ips_agg_spec(top_n)),
            ),
        ),
    )
}

/// The failed authentications of a tenant by IP, overall and per time window.
pub fn auth_failed_ips_request(config: &AuthFailedIpsConfig) -> (r: EsRequest)
    ensures
        r.url@ == index_url_spec(config.es_url@, auth_logs_index(), "/_search"@),
        r.body@ == auth_failed_ips_body_spec(
            config.tenant@,
            config.from@,
            config.to@,
            config.window@,
            config.top_n as u64,
        ),
{
    let top_n = config.top_n as u64;
    let filters = vec![
        term("tenant_id.keyword", text(config.tenant)),
        ts_range(config.from, config.to),
    ];
    assert(filters@.map_values(|j: Json| j@) =~= seq![
        term_spec(tenant_field(), JsonView::Str(config.tenant@)),
        ts_range_spec(config.from@, config.to@),
    ]);
    let query = bool_filter(filters);
    let histogram = object4(
        "field",
        text("ts"),
        "fixed_interval",
        text(config.window),
        "min_doc_count",
        unsigned(0),
        "format",
        text("strict_date_time"),
    );
    let time_buckets = object2(
        "date_histogram",
        histogram,
        "aggs",
        object1("failed_in_window", failed_ips_agg(top_n)),
    );
    let aggs = object2("overall_failed_ips", failed_ips_agg(top_n), "time_buckets", time_buckets);
    let body = object3("size", unsigned(DEFAULT_QUERY_SIZE), "query", query, "aggs", aggs);
    EsRequest { url: index_url(config.es_url, AUTH_LOGS_INDEX, "/_search"), body }
}

/// The body of the endpoint query: the `top_n` busiest endpoints of a tenant
/// with their latency percentile and error count.
pub open spec fn api_endpoints_body_spec(
    tenant: Seq<char>,
    from: Seq<char>,
    to: Seq<char>,
    top_n: u64,
) -> JsonView {
    obj3(
        "size"@,
        uint(DEFAULT_QUERY_SIZE),
        "query"@,
        bool_filter_spec(
            seq![term_spec("tenant_id"@, JsonView::Str(tenant)), ts_range_spec(from, to)],
        ),
        "aggs"@,
        obj1(
            "by_endpoint"@,
            obj2(
                "terms"@,
                obj2("field"@, JsonView::Str("endpoint"@), "size"@, uint(top_n)),
                "aggs"@,
                obj2("percentiles"@, p95_agg_spec(), "error_count"@, error_count_agg_spec()),
            ),
        ),
    )
}

/// The top API endpoints of a tenant with their failure statistics.
pub fn api_endpoints_request(es_url: &str, tenant: &str, from: &str, to: &str, top_n: usize) -> (r:
    EsRequest)
    ensures
        r.url@ == index_url_spec(es_url@, api_logs_index(), "/_search"@),
        r.body@ == api_endpoints_body_spec(tenant@, from@, to@, top_n as u64),
{
    let filters = vec![term("tenant_id", text(tenant)), ts_range(from, to)];
    assert(filters@.map_values(|j: Json| j@) =~= seq![
        term_spec("tenant_id"@, JsonView::Str(tenant@)),
        ts_range_spec(from@, to@),
    ]);
    let query = bool_filter(filters);
    let by_endpoint = object2(
        "terms",
        object2("field", text("endpoint"), "size", unsigned(top_n as u64)),
        "aggs",
        object2("percentiles", p95_agg(), "error_count", error_count_agg()),
    );
    let body = object3(
        "size",
        unsigned(DEFAULT_QUERY_SIZE),
        "query",
        query,
        "aggs",
        object1("by_endpoint", by_endpoint),
    );
    EsRequest { url: index_url(es_url, API_LOGS_INDEX, "/_search"), body }
}

/// The body of the API statistics query over all tenants.
pub open spec fn api_stats_body_spec(from: Seq<char>, to: Seq<char>) -> JsonView {
    obj4(
        "size"@,
        uint(DEFAULT_QUERY_SIZE),
        "track_total_hits"@,
        JsonView::Bool(true),
        "query"@,
        bool_filter_spec(seq![ts_range_spec(from, to)]),
        "aggs"@,
        obj2("latency_percentiles"@, p95_agg_spec(), "error_count"@, error_count_agg_spec()),
    )
}

/// The API latency percentile, request count and error count in a time range.
pub fn api_stats_request(es_url: &str, from: &str, to: &str) -> (r: EsRequest)
    ensures
        r.url@ == index_url_spec(es_url@, api_logs_index(), "/_search"@),
        r.body@ == api_stats_body_spec(from@, to@),
{
    let filters = vec![ts_range(from, to)];
    assert(filters@.map_values(|j: Json| j@) =~= seq![ts_range_spec(from@, to@)]);
    let query = bool_filter(filters);
    let body = object4(
        "size",
        unsigned(DEFAULT_QUERY_SIZE),
        "track_total_hits",
        Json::Bool(true),
        "query",
        query,
        "aggs",
        object2("latency_percentiles", p95_agg(), "error_count", error_count_agg()),
    );
    EsRequest { url: index_url(es_url, API_LOGS_INDEX, "/_search"), body }
}

// ---------------------------------------------------------------------------
// Reading the answers
// ---------------------------------------------------------------------------

/// The member names of a path, as texts.
pub open spec fn path_view(path: Seq<&str>) -> Seq<Seq<char>> {
    path.map_values(|s: &str| s@)
}

fn u64_at(v: &Json, path: &[&str]) -> (r: u64)
    ensures
        r == u64_at_or_zero(v@, path_view(path@)),
{
    match v.at_path(path) {
        Some(x) => match x.as_u64() {
            Some(u) => u,
            None => 0,
        },
        None => 0,
    }
}

/// The document count of a `_count` answer, zero where it has none.
pub fn count_from_response(response: &Json) -> (r: u64)
    ensures
        r == u64_at_or_zero(response@, seq!["count"@]),
{
    let path: [&str; 1] = ["count"];
    assert(path_view(path@) =~= seq!["count"@]);
    u64_at(response, &path)
}

fn number_at_path(v: &Json, path: &[&str]) -> (r: Option<JsonNumber>)
    ensures
        match r {
            Some(n) => number_at(v@, path_view(path@)) == Some(n.view()),
            None => number_at(v@, path_view(path@)) is None,
        },
{
    match v.at_path(path) {
        Some(x) => match x.as_number() {
            Some(n) => Some(n.copy()),
            None => None,
        },
        None => None,
    }
}

fn str_at_path(v: &Json, path: &[&str]) -> (r: String)
    ensures
        r@ == str_at_or_empty(v@, path_view(path@)),
{
    match v.at_path(path) {
        Some(x) => match x.as_str() {
            Some(s) => s.to_owned(),
            None => String::new(),
        },
        None => String::new(),
    }
}

fn items_at_path<'a>(v: &'a Json, path: &[&str]) -> (r: Option<&'a Vec<Json>>)
    ensures
        match r {
            Some(items) => items_at_or_empty(v@, path_view(path@)) == view_items(items@),
            None => items_at_or_empty(v@, path_view(path@)) == Seq::<JsonView>::empty(),
        },
{
    match v.at_path(path) {
        Some(x) => x.as_array(),
        None => None,
    }
}

pub open spec fn hits_total_path() -> Seq<Seq<char>> {
    seq!["hits"@, "total"@, "value"@]
}

/// The total hit count of a `_search` answer, zero where it has none.
pub fn total_hits(response: &Json) -> (r: u64)
    ensures
        r == u64_at_or_zero(response@, hits_total_path()),
{
    let path: [&str; 3] = ["hits", "total", "value"];
    assert(path_view(path@) =~= hits_total_path());
    u64_at(response, &path)
}

/// Where the 95th percentile of an aggregation named `agg` sits in an answer.
pub open spec fn p95_path(agg: Seq<char>) -> Seq<Seq<char>> {
    seq!["aggregations"@, agg, "values"@, "95.0"@]
}

/// The 95th percentile latency and the API request count of a tenant's answer.
pub fn api_percentiles_and_count_from_response(response: &Json) -> (r: (Option<JsonNumber>, u64))
    ensures
        match r.0 {
            Some(n) => number_at(response@, p95_path("percentiles_agg"@)) == Some(n.view()),
            None => number_at(response@, p95_path("percentiles_agg"@)) is None,
        },
        r.1 == u64_at_or_zero(response@, hits_total_path()),
{
    let count = total_hits(response);
    let path: [&str; 4] = ["aggregations", "percentiles_agg", "values", "95.0"];
    assert(path_view(path@) =~= p95_path("percentiles_agg"@));
    (number_at_path(response, &path), count)
}

pub open spec fn error_count_path() -> Seq<Seq<char>> {
    seq!["aggregations"@, "error_count"@, "doc_count"@]
}

/// The 95th percentile latency, the request count and the error count of the
/// API statistics answer.
pub fn api_stats_from_response(response: &Json) -> (r: (Option<JsonNumber>, u64, u64))
    ensures
        match r.0 {
            Some(n) => number_at(response@, p95_path("latency_percentiles"@)) == Some(n.view()),
            None => number_at(response@, p95_path("latency_percentiles"@)) is None,
        },
        r.1 == u64_at_or_zero(response@, hits_total_path()),
        r.2 == u64_at_or_zero(response@, error_count_path()),
{
    let total = total_hits(response);
    let path: [&str; 4] = ["aggregations", "latency_percentiles", "values", "95.0"];
    assert(path_view(path@) =~= p95_path("latency_percentiles"@));
    let p95 = number_at_path(response, &path);
    let errors_path: [&str; 3] = ["aggregations", "error_count", "doc_count"];
    assert(path_view(errors_path@) =~= error_count_path());
    (p95, total, u64_at(response, &errors_path))
}

/// The key and document count of a terms bucket, where it has both.
pub open spec fn bucket_count(b: JsonView) -> Option<(Seq<char>, u64)> {
    match b.get("key"@) {
        Some(k) => match k.as_str() {
            Some(key) => match b.get("doc_count"@) {
                Some(c) => match c.as_u64() {
                    Some(count) => Some((key, count)),
                    None => None,
                },
                None => None,
            },
            None => None,
        },
        None => None,
    }
}

/// The key and count of each bucket that has both, in bucket order.
pub open spec fn top_counts(buckets: Seq<JsonView>) -> Seq<(Seq<char>, u64)>
    decreases buckets.len(),
{
    if buckets.len() == 0 {
        Seq::empty()
    } else {
        let before = top_counts(buckets.drop_last());
        match bucket_count(buckets.last()) {
            Some(p) => before.push(p),
            None => before,
        }
    }
}

/// No bucket gives no entry.
pub proof fn lemma_top_counts_of_no_buckets()
    ensures
        top_counts(Seq::<JsonView>::empty()) == Seq::<(Seq<char>, u64)>::empty(),
{
}

/// One more bucket adds exactly one entry at the end, its key and document
/// count, where it has a text key and an unsigned count, whatever came before;
/// any other bucket adds nothing. So every such bucket is kept, in order.
pub proof fn lemma_top_counts_push(buckets: Seq<JsonView>, b: JsonView)
    ensures
        b.get("key"@) matches Some(k) ==> (k.as_str() matches Some(key) ==> (b.get(
            "doc_count"@,
        ) matches Some(c) ==> (c.as_u64() matches Some(n) ==> top_counts(buckets.push(b))
            == top_counts(buckets).push((key, n))))),
        (match (b.get("key"@), b.get("doc_count"@)) {
            (Some(k), Some(c)) => k.as_str() is None || c.as_u64() is None,
            _ => true,
        }) ==> top_counts(buckets.push(b)) == top_counts(buckets),
        top_counts(buckets.push(b)).len() <= top_counts(buckets).len() + 1,
{
    let all = buckets.push(b);
    assert(all.drop_last() =~= buckets);
    assert(all.last() == b);
    assert(top_counts(all) == match bucket_count(b) {
        Some(p) => top_counts(buckets).push(p),
        None => top_counts(buckets),
    });
    if let Some(k) = b.get("key"@) {
        if let Some(key) = k.as_str() {
            if let Some(c) = b.get("doc_count"@) {
                if let Some(n) = c.as_u64() {
                    assert(bucket_count(b) == Some((key, n)));
                    assert(top_counts(all) == top_counts(buckets).push((key, n)));
                }
            }
        }
    }
}

/// The top counts hold at most one entry per bucket.
pub proof fn lemma_top_counts_at_most_one_per_bucket(buckets: Seq<JsonView>)
    ensures
        top_counts(buckets).len() <= buckets.len(),
    decreases buckets.len(),
{
    if buckets.len() > 0 {
        lemma_top_counts_at_most_one_per_bucket(buckets.drop_last());
    }
}

/// Helper function to extract top IPs from Elasticsearch response: the buckets
/// at `path`, each that has a text key and a document count.
pub fn extract_top_ips_from_response(response: &Json, path: &[&str]) -> (r: Vec<TopCount>)
    ensures
        counts_view(r@) == top_counts(items_at_or_empty(response@, path_view(path@))),
{
    let items = match items_at_path(response, path) {
        Some(items) => items,
        None => {
            let r: Vec<TopCount> = Vec::new();
            assert(counts_view(r@) =~= Seq::<(Seq<char>, u64)>::empty());
            return r;
        },
    };
    let ghost iv = view_items(items@);
    proof {
        lemma_view_items(items@);
    }
    let mut out: Vec<TopCount> = Vec::new();
    let mut i: usize = 0;
    assert(iv.take(0) =~= Seq::<JsonView>::empty());
    assert(counts_view(out@) =~= Seq::<(Seq<char>, u64)>::empty());
    while i < items.len()
        invariant
            0 <= i <= items.len(),
            iv == view_items(items@),
            iv.len() == items@.len(),
            forall|k: int| 0 <= k < items.len() ==> #[trigger] iv[k] == items@[k]@,
            counts_view(out@) == top_counts(iv.take(i as int)),
        decreases items.len() - i,
    {
        let bucket = &items[i];
        assert(iv.take(i + 1).drop_last() =~= iv.take(i as int));
        assert(iv.take(i + 1).last() == bucket@);
        let key = match bucket.get("key") {
            Some(k) => k.as_str(),
            None => None,
        };
        let count = match bucket.get("doc_count") {
            Some(c) => c.as_u64(),
            None => None,
        };
        match (key, count) {
            (Some(k), Some(c)) => {
                let ghost before = out@;
                out.push(TopCount { key: k.to_owned(), count: c });
                assert(counts_view(out@) =~= counts_view(before).push((k@, c)));
            },
            _ => {},
        }
        i = i + 1;
    }
    assert(iv.take(i as int) =~= iv);
    out
}

/// The end of a time window: the RFC 3339 text, in UTC and milliseconds, of the
/// instant `start_ms + window_ms`; the start label where that instant leaves
/// the range of `i64` or of `chrono`.
pub open spec fn end_label(start_ms: i64, window_ms: i64, start: Seq<char>) -> Seq<char> {
    let end = start_ms + window_ms;
    if i64::MIN <= end <= i64::MAX {
        match spec_millis_rfc3339_text(end as i64) {
            Some(text) => text,
            None => start,
        }
    } else {
        start
    }
}

/// Helper function to format end time for time windows: the window's end
/// instant in ISO8601/RFC3339.
pub fn format_end_time(start_ms: i64, window_ms: i64, start_str: &str) -> (r: String)
    ensures
        r@ == end_label(start_ms, window_ms, start_str@),
{
    let end: i128 = start_ms as i128 + window_ms as i128;
    if end < -9223372036854775808i128 || end > 9223372036854775807i128 {
        return start_str.to_owned();
    }
    match format_millis_utc(end as i64) {
        Some(text) => text,
        None => start_str.to_owned(),
    }
}

/// The start of a time bucket in milliseconds: its key, or zero.
pub open spec fn bucket_start_ms(b: JsonView) -> i64 {
    match b.get("key"@) {
        Some(k) => match k.as_i64() {
            Some(v) => v,
            None => 0,
        },
        None => 0,
    }
}

pub open spec fn failed_in_window_path() -> Seq<Seq<char>> {
    seq!["failed_in_window"@, "top_ips"@, "buckets"@]
}

/// What one time bucket contributes: start label, end time and top failed IPs.
pub open spec fn window_ips_spec(b: JsonView, window_ms: i64) -> (
    Seq<char>,
    Seq<char>,
    Seq<(Seq<char>, u64)>,
) {
    let start = str_at_or_empty(b, seq!["key_as_string"@]);
    (
        start,
        end_label(bucket_start_ms(b), window_ms, start),
        top_counts(items_at_or_empty(b, failed_in_window_path())),
    )
}

impl TimeWindowIps {
    pub open spec fn view(&self) -> (Seq<char>, Seq<char>, Seq<(Seq<char>, u64)>) {
        (self.start@, self.end@, counts_view(self.top_failed_ips@))
    }
}

/// Helper function to process time buckets into windowed IP statistics, one
/// entry per bucket in order.
pub fn process_time_buckets(buckets: &Vec<Json>, window_ms: i64) -> (r: Vec<TimeWindowIps>)
    ensures
        r.len() == buckets.len(),
        forall|i: int|
            0 <= i < r.len() ==> #[trigger] r@[i].view() == window_ips_spec(
                buckets@[i]@,
                window_ms,
            ),
{
    let mut out: Vec<TimeWindowIps> = Vec::new();
    let mut i: usize = 0;
    while i < buckets.len()
        invariant
            0 <= i <= buckets.len(),
            out.len() == i,
            forall|k: int|
                0 <= k < i ==> #[trigger] out@[k].view() == window_ips_spec(
                    buckets@[k]@,
                    window_ms,
                ),
        decreases buckets.len() - i,
    {
        let bucket = &buckets[i];
        let start_ms: i64 = match bucket.get("key") {
            Some(k) => match k.as_i64() {
                Some(v) => v,
                None => 0,
            },
            None => 0,
        };
        let start_path: [&str; 1] = ["key_as_string"];
        assert(path_view(start_path@) =~= seq!["key_as_string"@]);
        let start = str_at_path(bucket, &start_path);
        let end = format_end_time(start_ms, window_ms, start.as_str());
        let ips_path: [&str; 3] = ["failed_in_window", "top_ips", "buckets"];
        assert(path_view(ips_path@) =~= failed_in_window_path());
        let failed_ips = extract_top_ips_from_response(bucket, &ips_path);
        out.push(TimeWindowIps { start, end, top_failed_ips: failed_ips });
        i = i + 1;
    }
    out
}

pub open spec fn overall_failed_ips_path() -> Seq<Seq<char>> {
    seq!["aggregations"@, "overall_failed_ips"@, "top_ips"@, "buckets"@]
}

pub open spec fn time_buckets_path() -> Seq<Seq<char>> {
    seq!["aggregations"@, "time_buckets"@, "buckets"@]
}

/// The overall and windowed failed-authentication counts of an answer.
pub fn auth_failed_ips_from_response(response: &Json, window_ms: i64) -> (r: CountsAndIps)
    ensures
        ({
            let (overall, windowed) = r;
            let buckets = items_at_or_empty(response@, time_buckets_path());
            &&& counts_view(overall@) == top_counts(
                items_at_or_empty(response@, overall_failed_ips_path()),
            )
            &&& windowed.len() == buckets.len()
            &&& forall|i: int|
                0 <= i < windowed.len() ==> #[trigger] windowed@[i].view() == window_ips_spec(
                    buckets[i],
                    window_ms,
                )
        }),
{
    let overall_path: [&str; 4] = ["aggregations", "overall_failed_ips", "top_ips", "buckets"];
    assert(path_view(overall_path@) =~= overall_failed_ips_path());
    let overall = extract_top_ips_from_response(response, &overall_path);
    let buckets_path: [&str; 3] = ["aggregations", "time_buckets", "buckets"];
    assert(path_view(buckets_path@) =~= time_buckets_path());
    let windowed = match items_at_path(response, &buckets_path) {
        Some(buckets) => {
            proof {
                lemma_view_items(buckets@);
            }
            process_time_buckets(buckets, window_ms)
        },
        None => Vec::new(),
    };
    (overall, windowed)
}

pub open spec fn endpoint_buckets_path() -> Seq<Seq<char>> {
    seq!["aggregations"@, "by_endpoint"@, "buckets"@]
}

/// What one endpoint bucket gives: the endpoint (or the empty text), the
/// request count, the latency percentile where it is a number, and the error
/// count, counts zero where missing.
pub open spec fn endpoint_spec(b: JsonView) -> (Seq<char>, u64, Option<NumberView>, u64) {
    (
        str_at_or_empty(b, seq!["key"@]),
        u64_at_or_zero(b, seq!["doc_count"@]),
        number_at(b, seq!["percentiles"@, "values"@, "95.0"@]),
        u64_at_or_zero(b, seq!["error_count"@, "doc_count"@]),
    )
}

/// The counts of each endpoint bucket of an answer, in bucket order.
pub fn endpoint_counts_from_response(response: &Json) -> (r: Vec<EndpointCounts>)
    ensures
        r.len() == items_at_or_empty(response@, endpoint_buckets_path()).len(),
        forall|i: int|
            0 <= i < r.len() ==> #[trigger] r@[i].view() == endpoint_spec(
                items_at_or_empty(response@, endpoint_buckets_path())[i],
            ),
{
    let buckets_path: [&str; 3] = ["aggregations", "by_endpoint", "buckets"];
    assert(path_view(buckets_path@) =~= endpoint_buckets_path());
    let mut out: Vec<EndpointCounts> = Vec::new();
    let buckets = match items_at_path(response, &buckets_path) {
        Some(b) => b,
        None => {
            return out;
        },
    };
    proof {
        lemma_view_items(buckets@);
    }
    let ghost bv = view_items(buckets@);
    let key_path: [&str; 1] = ["key"];
    let count_path: [&str; 1] = ["doc_count"];
    let p95_path: [&str; 3] = ["percentiles", "values", "95.0"];
    let errors_path: [&str; 2] = ["error_count", "doc_count"];
    assert(path_view(key_path@) =~= seq!["key"@]);
    assert(path_view(count_path@) =~= seq!["doc_count"@]);
    assert(path_view(p95_path@) =~= seq!["percentiles"@, "values"@, "95.0"@]);
    assert(path_view(errors_path@) =~= seq!["error_count"@, "doc_count"@]);
    let mut i: usize = 0;
    while i < buckets.len()
        invariant
            0 <= i <= buckets.len(),
            bv == view_items(buckets@),
            bv.len() == buckets@.len(),
            bv == items_at_or_empty(response@, endpoint_buckets_path()),
            forall|k: int| 0 <= k < buckets.len() ==> #[trigger] bv[k] == buckets@[k]@,
            path_view(key_path@) == seq!["key"@],
            path_view(count_path@) == seq!["doc_count"@],
            path_view(p95_path@) == seq!["percentiles"@, "values"@, "95.0"@],
            path_view(errors_path@) == seq!["error_count"@, "doc_count"@],
            out.len() == i,
            forall|k: int| 0 <= k < i ==> #[trigger] out@[k].view() == endpoint_spec(bv[k]),
        decreases buckets.len() - i,
    {
        let bucket = &buckets[i];
        let stats = EndpointCounts {
            endpoint: str_at_path(bucket, &key_path),
            count: u64_at(bucket, &count_path),
            p95_latency: number_at_path(bucket, &p95_path),
            error_count: u64_at(bucket, &errors_path),
        };
        out.push(stats);
        i = i + 1;
    }
    out
}

pub open spec fn tenant_buckets_path() -> Seq<Seq<char>> {
    seq!["aggregations"@, "tenant_aggregation"@, "buckets"@]
}

/// The text key of a bucket, where it has one.
pub open spec fn bucket_key(b: JsonView) -> Option<Seq<char>> {
    match b.get("key"@) {
        Some(k) => k.as_str(),
        None => None,
    }
}

/// The keys of the buckets that have a text key.
pub open spec fn bucket_keys(buckets: Seq<JsonView>) -> Set<Seq<char>> {
    Set::new(
        |k: Seq<char>|
            exists|i: int| 0 <= i < buckets.len() && #[trigger] bucket_key(buckets[i]) == Some(k),
    )
}

/// One more bucket adds its text key, if any, to the keys seen.
proof fn lemma_bucket_keys_step(buckets: Seq<JsonView>, i: int)
    requires
        0 <= i < buckets.len(),
    ensures
        bucket_keys(buckets.take(i + 1)) == match bucket_key(buckets[i]) {
            Some(k) => bucket_keys(buckets.take(i)).insert(k),
            None => bucket_keys(buckets.take(i)),
        },
{
    let seen = bucket_keys(buckets.take(i));
    let next = bucket_keys(buckets.take(i + 1));
    let expected = match bucket_key(buckets[i]) {
        Some(k) => seen.insert(k),
        None => seen,
    };
    assert forall|x: Seq<char>| next.contains(x) implies expected.contains(x) by {
        let j = choose|j: int|
            0 <= j < buckets.take(i + 1).len() && #[trigger] bucket_key(buckets.take(i + 1)[j])
                == Some(x);
        if j < i {
            assert(buckets.take(i)[j] == buckets.take(i + 1)[j]);
        }
    }
    assert forall|x: Seq<char>| expected.contains(x) implies next.contains(x) by {
        if bucket_key(buckets[i]) == Some(x) {
            assert(bucket_key(buckets.take(i + 1)[i]) == Some(x));
        } else {
            let j = choose|j: int|
                0 <= j < buckets.take(i).len() && #[trigger] bucket_key(buckets.take(i)[j]) == Some(
                    x,
                );
            assert(buckets.take(i + 1)[j] == buckets.take(i)[j]);
        }
    }
    assert(next =~= expected);
}

/// Texts in strictly increasing order: sorted, and none twice.
pub open spec fn strictly_sorted(v: Seq<Seq<char>>) -> bool {
    forall|i: int, j: int| 0 <= i < j < v.len() ==> text_less(#[trigger] v[i], #[trigger] v[j])
}

pub open spec fn texts_view(v: Seq<String>) -> Seq<Seq<char>> {
    v.map_values(|s: String| s@)
}

/// The tenant listing depends only on which tenant keys occur: two strictly
/// sorted lists of texts with the same elements are the same list. So the order
/// of the buckets, and keys that occur more than once, do not change it.
pub proof fn lemma_sorted_lists_with_same_elements_are_equal(a: Seq<Seq<char>>, b: Seq<Seq<char>>)
    requires
        strictly_sorted(a),
        strictly_sorted(b),
        a.to_set() == b.to_set(),
    ensures
        a == b,
    decreases a.len(),
{
    if a.len() == 0 {
        if b.len() > 0 {
            assert(b.to_set().contains(b[0]));
        }
        assert(a =~= b);
    } else if b.len() == 0 {
        assert(a.to_set().contains(a[0]));
    } else {
        assert(b.to_set().contains(a[0]));
        let j = choose|j: int| 0 <= j < b.len() && b[j] == a[0];
        assert(a.to_set().contains(b[0]));
        let k = choose|k: int| 0 <= k < a.len() && a[k] == b[0];
        if j > 0 {
            assert(text_less(b[0], b[j]));
            if k == 0 {
                lemma_text_less_irreflexive(a[0]);
            } else {
                assert(text_less(a[0], a[k]));
                lemma_text_less_transitive(a[0], b[0], a[0]);
                lemma_text_less_irreflexive(a[0]);
            }
        }
        assert(a[0] == b[0]);
        let ra = a.drop_first();
        let rb = b.drop_first();
        assert forall|i: int, l: int| 0 <= i < l < ra.len() implies text_less(
            #[trigger] ra[i],
            #[trigger] ra[l],
        ) by {
            assert(ra[i] == a[i + 1] && ra[l] == a[l + 1]);
        }
        assert forall|i: int, l: int| 0 <= i < l < rb.len() implies text_less(
            #[trigger] rb[i],
            #[trigger] rb[l],
        ) by {
            assert(rb[i] == b[i + 1] && rb[l] == b[l + 1]);
        }
        assert(ra.to_set() =~= rb.to_set()) by {
            assert forall|x: Seq<char>| ra.to_set().contains(x) implies rb.to_set().contains(x) by {
                let i = choose|i: int| 0 <= i < ra.len() && ra[i] == x;
                assert(a[i + 1] == x);
                assert(text_less(a[0], x));
                assert(b.to_set().contains(x));
                let l = choose|l: int| 0 <= l < b.len() && b[l] == x;
                if l == 0 {
                    lemma_text_less_irreflexive(x);
                }
                assert(rb[l - 1] == x);
            }
            assert forall|x: Seq<char>| rb.to_set().contains(x) implies ra.to_set().contains(x) by {
                let i = choose|i: int| 0 <= i < rb.len() && rb[i] == x;
                assert(b[i + 1] == x);
                assert(text_less(b[0], x));
                assert(a.to_set().contains(x));
                let l = choose|l: int| 0 <= l < a.len() && a[l] == x;
                if l == 0 {
                    lemma_text_less_irreflexive(x);
                }
                assert(ra[l - 1] == x);
            }
        }
        lemma_sorted_lists_with_same_elements_are_equal(ra, rb);
        assert(a =~= seq![a[0]] + ra);
        assert(b =~= seq![b[0]] + rb);
    }
}

/// Adds `key` to a strictly sorted list of texts where it is not already there.
fn insert_sorted(list: &mut Vec<String>, key: &str)
    requires
        strictly_sorted(texts_view(old(list)@)),
    ensures
        strictly_sorted(texts_view(final(list)@)),
        texts_view(final(list)@).to_set() == texts_view(old(list)@).to_set().insert(key@),
{
    let ghost before = texts_view(list@);
    let mut p: usize = 0;
    while p < list.len() && text_lt(list[p].as_str(), key)
        invariant
            0 <= p <= list.len(),
            list@ == old(list)@,
            before == texts_view(list@),
            strictly_sorted(before),
            forall|k: int| 0 <= k < p ==> text_less(#[trigger] before[k], key@),
        decreases list.len() - p,
    {
        p = p + 1;
    }
    if p < list.len() && text_eq(&list[p], key) {
        assert(texts_view(list@).to_set() =~= before.to_set().insert(key@)) by {
            assert(before[p as int] == key@);
        }
        return;
    }
    proof {
        if p < list.len() {
            lemma_text_less_total(before[p as int], key@);
        }
    }
    list.insert(p, key.to_owned());
    let ghost after = texts_view(list@);
    assert(after =~= before.insert(p as int, key@));
    assert forall|i: int, j: int| 0 <= i < j < after.len() implies text_less(
        #[trigger] after[i],
        #[trigger] after[j],
    ) by {
        if j < p {
        } else if j == p {
        } else if i < p {
            assert(text_less(before[i], key@));
            assert(text_less(key@, before[p as int]));
            if j - 1 > p {
                assert(text_less(before[p as int], before[j - 1]));
                lemma_text_less_transitive(key@, before[p as int], before[j - 1]);
            }
            lemma_text_less_transitive(before[i], key@, before[j - 1]);
        } else if i == p {
            if j - 1 > p {
                assert(text_less(before[p as int], before[j - 1]));
                lemma_text_less_transitive(key@, before[p as int], before[j - 1]);
            }
        } else {
        }
    }
    assert(after.to_set() =~= before.to_set().insert(key@)) by {
        assert forall|x: Seq<char>| after.to_set().contains(x) implies before.to_set().insert(
            key@,
        ).contains(x) by {
            let k = choose|k: int| 0 <= k < after.len() && after[k] == x;
            if k < p {
                assert(before[k] == x);
            } else if k > p {
                assert(before[k - 1] == x);
            }
        }
        assert forall|x: Seq<char>|
            before.to_set().insert(key@).contains(x) implies after.to_set().contains(x) by {
            if x == key@ {
                assert(after[p as int] == x);
            } else {
                let k = choose|k: int| 0 <= k < before.len() && before[k] == x;
                if k < p {
                    assert(after[k] == x);
                } else {
                    assert(after[k + 1] == x);
                }
            }
        }
    }
}

fn missing_tenant_buckets() -> (e: AgentError)
    ensures
        e matches AgentError::Other(m) && m@ == "missing aggregations.tenant_aggregation.buckets"@,
{
    AgentError::Other("missing aggregations.tenant_aggregation.buckets".to_owned())
}

/// A count of seconds, raised to one where it is smaller.
pub open spec fn at_least_one(secs: i64) -> i64 {
    if secs >= 1 {
        secs
    } else {
        1
    }
}

/// A length of one second or more is kept as it is, whatever its size; a
/// shorter one counts as one second.
pub proof fn lemma_at_least_one_keeps_lengths(secs: i64)
    ensures
        secs >= 1 ==> at_least_one(secs) == secs,
        secs < 1 ==> at_least_one(secs) == 1,
        at_least_one(secs) >= 1,
        at_least_one(secs) >= secs,
{
}

/// Fetch all unique tenant IDs: the text keys of the tenant buckets, sorted,
/// none twice; an error where the answer has no bucket array.
///
/// The keys are gathered in a strictly sorted `Vec`, the order a `BTreeSet`
/// yields them in: vstd specifies `BTreeSet` only for keys whose comparison
/// obeys its laws, and it states those laws for no `String`, so with a
/// `BTreeSet<String>` not even the size after one insertion follows.
pub fn tenant_ids_from_response(response: &Json) -> (r: Result<Vec<String>, AgentError>)
    ensures
        match r {
            Ok(ids) => {
                &&& response@.at_path(tenant_buckets_path()) matches Some(b) && b.as_array() is Some
                &&& strictly_sorted(texts_view(ids@))
                &&& texts_view(ids@).to_set() == bucket_keys(
                    items_at_or_empty(response@, tenant_buckets_path()),
                )
            },
            Err(e) => {
                &&& !(response@.at_path(tenant_buckets_path()) matches Some(b)
                    && b.as_array() is Some)
                &&& e matches AgentError::Other(m)
                &&& m@ == "missing aggregations.tenant_aggregation.buckets"@
            },
        },
{
    let buckets_path: [&str; 3] = ["aggregations", "tenant_aggregation", "buckets"];
    assert(path_view(buckets_path@) =~= tenant_buckets_path());
    let buckets = match response.at_path(&buckets_path) {
        Some(b) => match b.as_array() {
            Some(items) => items,
            None => {
                return Err(missing_tenant_buckets());
            },
        },
        None => {
            return Err(missing_tenant_buckets());
        },
    };
    proof {
        lemma_view_items(buckets@);
    }
    let ghost bv = view_items(buckets@);
    let mut ids: Vec<String> = Vec::new();
    let mut i: usize = 0;
    assert(texts_view(ids@).to_set() =~= Set::<Seq<char>>::empty());
    while i < buckets.len()
        invariant
            0 <= i <= buckets.len(),
            bv == view_items(buckets@),
            bv.len() == buckets@.len(),
            bv == items_at_or_empty(response@, tenant_buckets_path()),
            forall|k: int| 0 <= k < buckets.len() ==> #[trigger] bv[k] == buckets@[k]@,
            strictly_sorted(texts_view(ids@)),
            texts_view(ids@).to_set() == bucket_keys(bv.take(i as int)),
        decreases buckets.len() - i,
    {
        let bucket = &buckets[i];
        proof {
            lemma_bucket_keys_step(bv, i as int);
        }
        let key = match bucket.get("key") {
            Some(k) => k.as_str(),
            None => None,
        };
        match key {
            Some(key) => insert_sorted(&mut ids, key),
            None => {},
        }
        i = i + 1;
    }
    assert(bv.take(i as int) =~= bv);
    Ok(ids)
}

/// The length in whole seconds, at least one, of the range from `from` to `to`,
/// where an end that does not parse stands for `now`.
pub open spec fn snapshot_secs_spec(from: Seq<char>, to: Seq<char>, now: UtcTime) -> i64 {
    let n = (now.timestamp(), now.subsec_nanos());
    let f = instant_or(from, n);
    let t = instant_or(to, n);
    at_least_one(spec_seconds_since(t.0, t.1, f.0, f.1))
}

/// The length in whole seconds, at least one, of the range a snapshot covers,
/// with `now` standing for an end that does not parse.
pub fn window_secs_at(from: &str, to: &str, now: &UtcTime) -> (r: i64)
    ensures
        r == snapshot_secs_spec(from@, to@, *now),
        r >= 1,
        ({
            let n = (now.timestamp(), now.subsec_nanos());
            let f = instant_or(from@, n);
            let t = instant_or(to@, n);
            let d = spec_seconds_since(t.0, t.1, f.0, f.1);
            &&& d >= 1 ==> r == d
            &&& d < 1 ==> r == 1
            &&& f.1 < 1_000_000_000 && t.1 < 1_000_000_000 ==> {
                let exact = div_toward_zero(
                    (t.0 * 1_000_000_000 + t.1) - (f.0 * 1_000_000_000 + f.1),
                    1_000_000_000,
                );
                &&& exact >= 1 ==> r == exact
                &&& exact < 1 ==> r == 1
            }
        }),
{
    let from_t = match parse_rfc3339(from) {
        Ok(t) => t,
        Err(_) => now.copy(),
    };
    let to_t = match parse_rfc3339(to) {
        Ok(t) => t,
        Err(_) => now.copy(),
    };
    let secs = seconds_since(&to_t, &from_t);
    if secs >= 1 {
        secs
    } else {
        1
    }
}

/// The length in whole seconds, at least one, of the range a snapshot covers.
/// An end that does not parse is taken as the current time.
pub fn snapshot_window_secs(from: &str, to: &str) -> (r: i64)
    ensures
        r >= 1,
        exists|now: UtcTime|
            #![trigger snapshot_secs_spec(from@, to@, now)]
            now.timestamp() >= 0 && !now.in_leap_second() && r == snapshot_secs_spec(
                from@,
                to@,
                now,
            ),
{
    let now = utc_now();
    let r = window_secs_at(from, to, &now);
    assert(r == snapshot_secs_spec(from@, to@, now));
    r
}

/// The rates of a metrics snapshot.
pub struct SnapshotRates {
    /// Failed authentications among all authentications
    pub fail_rate: Rate,
    /// API errors among all API requests
    pub api_error_rate: Rate,
    /// API requests per second of the range
    pub rps: Rate,
}

/// The rates of a snapshot from its counts and the length of its range.
pub fn snapshot_rates(
    total_auth: u64,
    failed_auth: u64,
    api_requests: u64,
    api_errors: u64,
    window_secs: i64,
) -> (r: SnapshotRates)
    requires
        window_secs >= 1,
    ensures
        r.fail_rate == rate_spec(failed_auth, total_auth),
        r.api_error_rate == rate_spec(api_errors, api_requests),
        r.rps == rate_spec(api_requests, window_secs as u64),
        r.fail_rate.well_formed(),
        r.api_error_rate.well_formed(),
        r.rps.well_formed(),
{
    SnapshotRates {
        fail_rate: rate_of(failed_auth, total_auth),
        api_error_rate: rate_of(api_errors, api_requests),
        rps: rate_of(api_requests, window_secs as u64),
    }
}

} // verus!
