use hal9000::es::{
    api_endpoints_request, api_key_header, api_percentiles_and_count_request, api_stats_request,
    auth_failed_ips_request, count_by_tenant_request, count_request, health_api_key_header,
    index_url, resolve_index_url, tenant_ids_request, AuthFailedIpsConfig, EsRequest,
};
use hal9000::json::{Json, JsonNumber};
use serde_json::{Number, Value};

fn to_value(j: &Json) -> Value {
    match j {
        Json::Null => Value::Null,
        Json::Bool(b) => Value::Bool(*b),
        Json::Number(JsonNumber::PosInt(u)) => Value::Number(Number::from(*u)),
        Json::Number(JsonNumber::NegInt(i)) => Value::Number(Number::from(*i)),
        Json::Number(JsonNumber::Float(s)) => {
            Value::Number(Number::from_f64(s.parse::<f64>().unwrap()).unwrap())
        }
        Json::Str(s) => Value::String(s.clone()),
        Json::Array(items) => Value::Array(items.iter().map(to_value).collect()),
        Json::Object(entries) => {
            let mut m = serde_json::Map::new();
            for (k, v) in entries {
                m.insert(k.clone(), to_value(v));
            }
            Value::Object(m)
        }
    }
}

fn body(r: &EsRequest) -> Value {
    to_value(&r.body)
}

fn parse(text: &str) -> Value {
    serde_json::from_str(text).unwrap()
}

#[test]
fn urls_drop_trailing_slashes_of_the_cluster() {
    assert_eq!(index_url("http://es:9200//", "auth-logs", "/_count"), "http://es:9200/auth-logs/_count");
    assert_eq!(index_url("http://es:9200", "api-logs", "/_search"), "http://es:9200/api-logs/_search");
    assert_eq!(index_url("///", "x", "/_search"), "/x/_search");
}

#[test]
fn health_and_auth_headers() {
    assert_eq!(resolve_index_url("http://es:9200", "auth-logs"), "http://es:9200/_resolve/index/auth-logs");
    assert_eq!(api_key_header("k3y"), "ApiKey k3y");
    assert_eq!(health_api_key_header("k3y"), "Apikey k3y");
}

#[test]
fn count_by_tenant_query() {
    let r = count_by_tenant_request("http://es:9200/", "acme", "2025-01-01T00:00:00Z", "2025-01-01T01:00:00Z", false);
    assert_eq!(r.url, "http://es:9200/auth-logs/_count");
    assert_eq!(
        body(&r),
        parse(r#"{"query":{"bool":{"filter":[{"term":{"tenant_id.keyword":"acme"}},{"range":{"ts":{"gte":"2025-01-01T00:00:00Z","lt":"2025-01-01T01:00:00Z"}}}]}}}"#)
    );
    let f = count_by_tenant_request("http://es:9200", "acme", "a", "b", true);
    assert_eq!(
        body(&f),
        parse(r#"{"query":{"bool":{"filter":[{"term":{"tenant_id.keyword":"acme"}},{"range":{"ts":{"gte":"a","lt":"b"}}},{"term":{"success":false}}]}}}"#)
    );
}

#[test]
fn count_query_over_all_tenants() {
    let r = count_request("http://es:9200", "a", "b", true);
    assert_eq!(r.url, "http://es:9200/auth-logs/_count");
    assert_eq!(
        body(&r),
        parse(r#"{"query":{"bool":{"filter":[{"range":{"ts":{"gte":"a","lt":"b"}}},{"term":{"success":false}}]}}}"#)
    );
}

#[test]
fn api_percentiles_query() {
    let r = api_percentiles_and_count_request("http://es:9200", "acme", "a", "b");
    assert_eq!(r.url, "http://es:9200/api-logs/_search");
    assert_eq!(
        body(&r),
        parse(r#"{"size":0,"track_total_hits":true,"query":{"bool":{"filter":[{"term":{"tenant_id":"acme"}},{"range":{"ts":{"gte":"a","lt":"b"}}}]}},"aggs":{"percentiles_agg":{"percentiles":{"field":"latency_ms","percents":[95.0]}}}}"#)
    );
}

#[test]
fn tenant_ids_query() {
    let r = tenant_ids_request("http://es:9200/", None);
    assert_eq!(r.url, "http://es:9200//*/_search");
    assert_eq!(
        body(&r),
        parse(r#"{"size":0,"query":{"match_all":{}},"aggs":{"tenant_aggregation":{"terms":{"field":"tenant_id.keyword","size":1000}}}}"#)
    );
    let ranged = tenant_ids_request("http://es:9200", Some(("a", "b")));
    assert_eq!(
        body(&ranged),
        parse(r#"{"size":0,"query":{"range":{"ts":{"gte":"a","lt":"b"}}},"aggs":{"tenant_aggregation":{"terms":{"field":"tenant_id.keyword","size":1000}}}}"#)
    );
}

#[test]
fn auth_failed_ips_query() {
    let auth = Some("k".to_string());
    let config = AuthFailedIpsConfig {
        es_url: "http://es:9200",
        tenant: "acme",
        from: "a",
        to: "b",
        window: "15m",
        window_ms: 900_000,
        top_n: 5,
        auth: &auth,
    };
    let r = auth_failed_ips_request(&config);
    assert_eq!(r.url, "http://es:9200/auth-logs/_search");
    assert_eq!(
        body(&r),
        parse(r#"{"size":0,"query":{"bool":{"filter":[{"term":{"tenant_id.keyword":"acme"}},{"range":{"ts":{"gte":"a","lt":"b"}}}]}},
        "aggs":{"overall_failed_ips":{"filter":{"term":{"success":false}},"aggs":{"top_ips":{"terms":{"field":"ip","size":5}}}},
        "time_buckets":{"date_histogram":{"field":"ts","fixed_interval":"15m","min_doc_count":0,"format":"strict_date_time"},
        "aggs":{"failed_in_window":{"filter":{"term":{"success":false}},"aggs":{"top_ips":{"terms":{"field":"ip","size":5}}}}}}}}"#)
    );
}

#[test]
fn api_endpoints_query() {
    let r = api_endpoints_request("http://es:9200", "acme", "a", "b", 5);
    assert_eq!(r.url, "http://es:9200/api-logs/_search");
    assert_eq!(
        body(&r),
        parse(r#"{"size":0,"query":{"bool":{"filter":[{"term":{"tenant_id":"acme"}},{"range":{"ts":{"gte":"a","lt":"b"}}}]}},
        "aggs":{"by_endpoint":{"terms":{"field":"endpoint","size":5},"aggs":{"percentiles":{"percentiles":{"field":"latency_ms","percents":[95.0]}},
        "error_count":{"filter":{"terms":{"status_code":[429,500,502]}}}}}}}"#)
    );
}

#[test]
fn api_stats_query() {
    let r = api_stats_request("http://es:9200", "a", "b");
    assert_eq!(r.url, "http://es:9200/api-logs/_search");
    assert_eq!(
        body(&r),
        parse(r#"{"size":0,"track_total_hits":true,"query":{"bool":{"filter":[{"range":{"ts":{"gte":"a","lt":"b"}}}]}},
        "aggs":{"latency_percentiles":{"percentiles":{"field":"latency_ms","percents":[95.0]}},"error_count":{"filter":{"terms":{"status_code":[429,500,502]}}}}}"#)
    );
}
