use hal9000::errors::AgentError;
use hal9000::es::{
    api_percentiles_and_count_from_response, api_stats_from_response, auth_failed_ips_from_response,
    count_from_response, endpoint_counts_from_response, extract_top_ips_from_response,
    process_time_buckets, snapshot_rates, snapshot_window_secs, tenant_ids_from_response, total_hits,
};
use hal9000::json::{Json, JsonNumber};
use hal9000::types::Rate;
use serde_json::Value;

fn from_value(v: &Value) -> Json {
    match v {
        Value::Null => Json::Null,
        Value::Bool(b) => Json::Bool(*b),
        Value::Number(n) => Json::Number(if let Some(u) = n.as_u64() {
            JsonNumber::PosInt(u)
        } else if let Some(i) = n.as_i64() {
            JsonNumber::NegInt(i)
        } else {
            JsonNumber::Float(n.to_string())
        }),
        Value::String(s) => Json::Str(s.clone()),
        Value::Array(items) => Json::Array(items.iter().map(from_value).collect()),
        Value::Object(m) => Json::Object(m.iter().map(|(k, v)| (k.clone(), from_value(v))).collect()),
    }
}

fn doc(text: &str) -> Json {
    from_value(&serde_json::from_str(text).unwrap())
}

fn pairs(v: &[hal9000::types::TopCount]) -> Vec<(String, u64)> {
    v.iter().map(|t| (t.key.clone(), t.count)).collect()
}

fn float_text(n: &Option<JsonNumber>) -> Option<String> {
    match n {
        Some(JsonNumber::Float(s)) => Some(s.clone()),
        Some(JsonNumber::PosInt(u)) => Some(u.to_string()),
        Some(JsonNumber::NegInt(i)) => Some(i.to_string()),
        None => None,
    }
}

#[test]
fn counts_default_to_zero() {
    assert_eq!(count_from_response(&doc(r#"{"count": 42}"#)), 42);
    assert_eq!(count_from_response(&doc(r#"{"count": "42"}"#)), 0);
    assert_eq!(count_from_response(&doc(r#"{"count": -3}"#)), 0);
    assert_eq!(count_from_response(&doc(r#"{}"#)), 0);
    assert_eq!(count_from_response(&doc(r#"[1]"#)), 0);
    assert_eq!(total_hits(&doc(r#"{"hits":{"total":{"value":7}}}"#)), 7);
    assert_eq!(total_hits(&doc(r#"{"hits":{"total":7}}"#)), 0);
}

#[test]
fn percentile_and_count_of_a_tenant() {
    let answer = doc(r#"{"hits":{"total":{"value":12}},"aggregations":{"percentiles_agg":{"values":{"95.0":123.5}}}}"#);
    let (p95, count) = api_percentiles_and_count_from_response(&answer);
    assert_eq!(count, 12);
    assert_eq!(float_text(&p95), Some("123.5".to_string()));
    let (missing, zero) = api_percentiles_and_count_from_response(&doc(r#"{"aggregations":{"percentiles_agg":{"values":{"95.0":null}}}}"#));
    assert!(missing.is_none());
    assert_eq!(zero, 0);
}

#[test]
fn api_statistics() {
    let answer = doc(r#"{"hits":{"total":{"value":100}},"aggregations":{"latency_percentiles":{"values":{"95.0":80}},"error_count":{"doc_count":4}}}"#);
    let (p95, total, errors) = api_stats_from_response(&answer);
    assert_eq!(float_text(&p95), Some("80".to_string()));
    assert_eq!(total, 100);
    assert_eq!(errors, 4);
}

#[test]
fn top_ips_skip_incomplete_buckets() {
    let answer = doc(r#"{"aggregations":{"overall_failed_ips":{"top_ips":{"buckets":[
        {"key":"10.0.0.1","doc_count":9},{"key":5,"doc_count":3},{"key":"10.0.0.2"},{"key":"10.0.0.3","doc_count":1}]}}}}"#);
    let ips = extract_top_ips_from_response(&answer, &["aggregations", "overall_failed_ips", "top_ips", "buckets"]);
    assert_eq!(pairs(&ips), vec![("10.0.0.1".to_string(), 9), ("10.0.0.3".to_string(), 1)]);
    assert!(extract_top_ips_from_response(&answer, &["aggregations", "missing"]).is_empty());
    assert!(extract_top_ips_from_response(&answer, &["aggregations"]).is_empty());
}

#[test]
fn time_buckets_one_entry_each() {
    let answer = doc(r#"[
        {"key":1735689600000,"key_as_string":"2025-01-01T00:00:00.000Z","failed_in_window":{"top_ips":{"buckets":[{"key":"1.1.1.1","doc_count":2}]}}},
        {"key_as_string":"2025-01-01T00:15:00.000Z"},
        {"key":-9000000,"failed_in_window":{}}]"#);
    let buckets = match &answer {
        Json::Array(items) => items,
        _ => unreachable!(),
    };
    let windows = process_time_buckets(buckets, 900_000);
    assert_eq!(windows.len(), 3);
    assert_eq!(windows[0].start, "2025-01-01T00:00:00.000Z");
    assert_eq!(windows[0].end, "2025-01-01T00:15:00.000Z");
    assert_eq!(pairs(&windows[0].top_failed_ips), vec![("1.1.1.1".to_string(), 2)]);
    assert_eq!(windows[1].end, "1970-01-01T00:15:00.000Z");
    assert!(windows[1].top_failed_ips.is_empty());
    assert_eq!(windows[2].start, "");
    assert_eq!(windows[2].end, "1969-12-31T21:45:00.000Z");
}

#[test]
fn time_bucket_end_beyond_range_keeps_start() {
    let answer = doc(r#"[{"key":9223372036854775000,"key_as_string":"far"},{"key":9000000000000000,"key_as_string":"later"}]"#);
    let buckets = match &answer {
        Json::Array(items) => items,
        _ => unreachable!(),
    };
    let windows = process_time_buckets(buckets, 900_000);
    assert_eq!(windows[0].end, "far");
    assert_eq!(windows[1].end, "later");
}

#[test]
fn failed_ips_overall_and_windowed() {
    let answer = doc(r#"{"aggregations":{
        "overall_failed_ips":{"top_ips":{"buckets":[{"key":"9.9.9.9","doc_count":5}]}},
        "time_buckets":{"buckets":[{"key":0,"key_as_string":"1970-01-01T00:00:00.000Z"}]}}}"#);
    let (overall, windowed) = auth_failed_ips_from_response(&answer, 60_000);
    assert_eq!(pairs(&overall), vec![("9.9.9.9".to_string(), 5)]);
    assert_eq!(windowed.len(), 1);
    assert_eq!(windowed[0].end, "1970-01-01T00:01:00.000Z");
    let (none, no_windows) = auth_failed_ips_from_response(&doc("{}"), 60_000);
    assert!(none.is_empty() && no_windows.is_empty());
}

#[test]
fn endpoint_counts_with_defaults() {
    let answer = doc(r#"{"aggregations":{"by_endpoint":{"buckets":[
        {"key":"/login","doc_count":10,"percentiles":{"values":{"95.0":250.0}},"error_count":{"doc_count":3}},
        {"doc_count":4}]}}}"#);
    let stats = endpoint_counts_from_response(&answer);
    assert_eq!(stats.len(), 2);
    assert_eq!(stats[0].endpoint, "/login");
    assert_eq!(stats[0].count, 10);
    assert_eq!(float_text(&stats[0].p95_latency), Some("250.0".to_string()));
    assert_eq!(stats[0].error_count, 3);
    assert!(matches!(stats[0].error_rate(), Rate::Fraction { numerator: 3, denominator: 10 }));
    assert_eq!(stats[1].endpoint, "");
    assert!(stats[1].p95_latency.is_none());
    assert_eq!(stats[1].error_count, 0);
    let empty = endpoint_counts_from_response(&doc(r#"{"aggregations":{}}"#));
    assert!(empty.is_empty());
}

#[test]
fn endpoint_without_requests_has_zero_error_rate() {
    let stats = endpoint_counts_from_response(&doc(r#"{"aggregations":{"by_endpoint":{"buckets":[{"key":"/x","doc_count":0}]}}}"#));
    assert!(matches!(stats[0].error_rate(), Rate::Zero));
}

#[test]
fn tenants_sorted_and_unique() {
    let answer = doc(r#"{"aggregations":{"tenant_aggregation":{"buckets":[
        {"key":"zeta"},{"key":"acme"},{"key":7},{"key":"beta"},{"key":"acme"},{"doc_count":1},{"key":"Zulu"}]}}}"#);
    let ids = match tenant_ids_from_response(&answer) {
        Ok(ids) => ids,
        Err(_) => panic!("buckets are present"),
    };
    assert_eq!(ids, vec!["Zulu", "acme", "beta", "zeta"]);
}

#[test]
fn tenant_order_ignores_bucket_order() {
    let a = doc(r#"{"aggregations":{"tenant_aggregation":{"buckets":[{"key":"b"},{"key":"a"},{"key":"c"}]}}}"#);
    let b = doc(r#"{"aggregations":{"tenant_aggregation":{"buckets":[{"key":"c"},{"key":"a"},{"key":"b"},{"key":"a"}]}}}"#);
    let ra = tenant_ids_from_response(&a).ok().unwrap();
    let rb = tenant_ids_from_response(&b).ok().unwrap();
    assert_eq!(ra, rb);
}

#[test]
fn tenants_need_bucket_array() {
    for text in [r#"{}"#, r#"{"aggregations":{"tenant_aggregation":{"buckets":{}}}}"#] {
        match tenant_ids_from_response(&doc(text)) {
            Err(AgentError::Other(m)) => assert_eq!(m, "missing aggregations.tenant_aggregation.buckets"),
            _ => panic!("expected the missing-buckets error"),
        }
    }
    let empty = tenant_ids_from_response(&doc(r#"{"aggregations":{"tenant_aggregation":{"buckets":[]}}}"#));
    assert!(matches!(empty, Ok(ref v) if v.is_empty()));
}

#[test]
fn snapshot_window_and_rates() {
    assert_eq!(snapshot_window_secs("2025-01-01T00:00:00Z", "2025-01-01T01:00:00Z"), 3600);
    assert_eq!(snapshot_window_secs("2025-01-01T01:00:00Z", "2025-01-01T00:00:00Z"), 1);
    assert_eq!(snapshot_window_secs("2025-01-01T00:00:00Z", "2025-01-01T00:00:00.5Z"), 1);
    assert_eq!(snapshot_window_secs("garbage", "garbage"), 1);
    assert!(snapshot_window_secs("2000-01-01T00:00:00Z", "garbage") > 700_000_000);
    let rates = snapshot_rates(10, 2, 0, 0, 60);
    assert!(matches!(rates.fail_rate, Rate::Fraction { numerator: 2, denominator: 10 }));
    assert!(matches!(rates.api_error_rate, Rate::Zero));
    assert!(matches!(rates.rps, Rate::Fraction { numerator: 0, denominator: 60 }));
}
