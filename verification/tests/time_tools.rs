use hal9000::errors::{AgentError, Fault, ToolError};
use hal9000::tools::contextualize::{auth_failed_ips_config, plan_context, ContextualizeRequest, CONTEXT_TOP_N};
use hal9000::tools::detect_spike::{plan_spike_ranges, plan_spike_ranges_now};
use hal9000::tools::fetch_metrics::{calculate_rates, parse_time_range, plan_metrics, FetchMetricsRequest};
use hal9000::types::Rate;

fn request(from: &str, to: &str) -> FetchMetricsRequest {
    FetchMetricsRequest { tenant: "acme".to_string(), from: from.to_string(), to: to.to_string() }
}

fn time_format_message(e: AgentError) -> String {
    match e {
        AgentError::TimeFormat(m) => m,
        _ => panic!("expected a time format error"),
    }
}

#[test]
fn time_range_must_be_ordered() {
    assert!(parse_time_range("2025-01-01T00:00:00Z", "2025-01-01T01:00:00Z").is_ok());
    let same = parse_time_range("2025-01-01T00:00:00Z", "2025-01-01T00:00:00Z");
    assert_eq!(time_format_message(same.err().unwrap()), "End time must be after start time");
    let reversed = parse_time_range("2025-01-01T01:00:00Z", "2025-01-01T00:00:00Z");
    assert_eq!(time_format_message(reversed.err().unwrap()), "End time must be after start time");
}

#[test]
fn time_range_reports_which_end_is_malformed() {
    let chrono_message = chrono::DateTime::parse_from_rfc3339("yesterday").unwrap_err().to_string();
    let from_err = parse_time_range("yesterday", "2025-01-01T00:00:00Z").err().unwrap();
    assert_eq!(time_format_message(from_err), format!("invalid from time 'yesterday': {}", chrono_message));
    let to_err = parse_time_range("2025-01-01T00:00:00Z", "yesterday").err().unwrap();
    assert_eq!(time_format_message(to_err), format!("invalid to time 'yesterday': {}", chrono_message));
}

#[test]
fn metrics_plan_normalizes_to_utc() {
    let plan = match plan_metrics(&request("2025-01-01T02:00:00+02:00", "2025-01-01T01:30:00Z")) {
        Ok(p) => p,
        Err(_) => panic!("range is valid"),
    };
    assert_eq!(plan.from, "2025-01-01T00:00:00+00:00");
    assert_eq!(plan.to, "2025-01-01T01:30:00+00:00");
    assert_eq!(plan.window_secs, 5400);
    assert_eq!(plan.window_label, "2025-01-01T02:00:00+02:00..2025-01-01T01:30:00Z");
    assert!(matches!(plan.requests_per_second(10_800), Rate::Fraction { numerator: 10_800, denominator: 5400 }));
}

#[test]
fn metrics_plan_short_range_counts_one_second() {
    let plan = plan_metrics(&request("2025-01-01T00:00:00Z", "2025-01-01T00:00:00.250Z")).ok().unwrap();
    assert_eq!(plan.window_secs, 1);
}

#[test]
fn rates_are_zero_without_authentications() {
    assert!(matches!(calculate_rates(0, 0), Rate::Zero));
    assert!(matches!(calculate_rates(0, 3), Rate::Zero));
    assert!(matches!(calculate_rates(8, 2), Rate::Fraction { numerator: 2, denominator: 8 }));
}

#[test]
fn formatting_writes_what_chrono_writes() {
    let plan = plan_metrics(&request("2024-02-29T23:59:59.123+01:00", "2024-03-01T00:00:00Z")).ok().unwrap();
    assert_eq!(plan.from, "2024-02-29T22:59:59.123+00:00");
    assert_eq!(plan.to, "2024-03-01T00:00:00+00:00");
}

fn instant(text: &str) -> hal9000::time::UtcTime {
    match parse_time_range(text, "9999-12-31T23:59:59Z") {
        Ok((t, _)) => t,
        Err(_) => panic!("a valid instant"),
    }
}

#[test]
fn spike_baseline_precedes_current_with_same_length() {
    let now = instant("2025-06-01T12:00:00Z");
    let ranges = match plan_spike_ranges(
        Some("2025-06-01T10:00:00Z".to_string()),
        Some("2025-06-01T11:30:00Z".to_string()),
        None,
        &now,
    ) {
        Ok(r) => r,
        Err(_) => panic!("valid request"),
    };
    assert_eq!(ranges.current.from, "2025-06-01T10:00:00Z");
    assert_eq!(ranges.current.to, "2025-06-01T11:30:00Z");
    assert_eq!(ranges.baseline.from, "2025-06-01T08:30:00+00:00");
    assert_eq!(ranges.baseline.to, "2025-06-01T10:00:00+00:00");
}

#[test]
fn spike_defaults_to_window_before_now() {
    let now = instant("2025-06-01T12:00:00Z");
    let ranges = plan_spike_ranges(None, None, Some("60s".to_string()), &now).ok().unwrap();
    assert_eq!(ranges.current.from, "2025-06-01T11:59:00+00:00");
    assert_eq!(ranges.current.to, "2025-06-01T12:00:00+00:00");
    assert_eq!(ranges.baseline.from, "2025-06-01T11:58:00+00:00");
    assert_eq!(ranges.baseline.to, ranges.current.from);
    let default = plan_spike_ranges(None, None, None, &now).ok().unwrap();
    assert_eq!(default.current.from, "2025-06-01T11:45:00+00:00");
}

#[test]
fn spike_defaults_only_the_missing_end() {
    let now = instant("2025-06-01T12:00:00.250Z");
    let ranges = plan_spike_ranges(Some("2025-06-01T11:00:00Z".to_string()), None, None, &now).ok().unwrap();
    assert_eq!(ranges.current.from, "2025-06-01T11:00:00Z");
    assert_eq!(ranges.current.to, "2025-06-01T12:00:00.250+00:00");
    assert_eq!(ranges.baseline.from, "2025-06-01T09:59:59.750+00:00");
    let ranges = plan_spike_ranges(None, Some("2025-06-01T11:30:00Z".to_string()), Some("1h".to_string()), &now)
        .ok()
        .unwrap();
    assert_eq!(ranges.current.from, "2025-06-01T11:00:00+00:00");
    assert_eq!(ranges.current.to, "2025-06-01T11:30:00Z");
    assert_eq!(ranges.baseline.from, "2025-06-01T10:30:00+00:00");
}

#[test]
fn spike_unparsable_ends_fall_back() {
    let now = instant("2025-06-01T12:00:00Z");
    let ranges = plan_spike_ranges(Some("soon".to_string()), Some("later".to_string()), None, &now)
        .ok()
        .unwrap();
    assert_eq!(ranges.current.from, "soon");
    assert_eq!(ranges.current.to, "later");
    assert_eq!(ranges.baseline.to, "2025-06-01T11:45:00+00:00");
    assert_eq!(ranges.baseline.from, "2025-06-01T11:30:00+00:00");
}

#[test]
fn spike_rejects_bad_window() {
    let now = instant("2025-06-01T12:00:00Z");
    match plan_spike_ranges(None, None, Some("abc".to_string()), &now) {
        Err(ToolError::Failed(AgentError::Other(m))) => {
            assert_eq!(m, "Invalid window format (expected e.g. '15m', got 'abc')")
        }
        _ => panic!("expected the window error"),
    }
    assert!(matches!(
        plan_spike_ranges(None, None, Some("20000000000d".to_string()), &now),
        Err(ToolError::Aborted(Fault::TimeOutOfRange))
    ));
    assert!(plan_spike_ranges(Some("2025-06-01T10:00:00Z".to_string()), None, Some("20000000000d".to_string()), &now).is_ok());
    match plan_spike_ranges(None, None, Some("9223372036854775807d".to_string()), &now) {
        Err(ToolError::Failed(AgentError::Other(m))) => {
            assert_eq!(m, "Invalid window format (expected e.g. '15m', got '9223372036854775807d')")
        }
        _ => panic!("expected the window error"),
    }
}

#[test]
fn spike_now_keeps_requested_range() {
    let ranges = plan_spike_ranges_now(
        Some("2025-06-01T10:00:00Z".to_string()),
        Some("2025-06-01T11:00:00Z".to_string()),
        Some("1h".to_string()),
    )
    .ok()
    .unwrap();
    assert_eq!(ranges.baseline.from, "2025-06-01T09:00:00+00:00");
    assert_eq!(ranges.baseline.to, "2025-06-01T10:00:00+00:00");
}

#[test]
fn context_window_defaults_and_config() {
    let plan = plan_context(None).ok().unwrap();
    assert_eq!(plan.window, "15m");
    assert_eq!(plan.window_ms, 900_000);
    match plan_context(Some("2x".to_string())) {
        Err(AgentError::Other(m)) => {
            assert_eq!(m, "Invalid window format (expected e.g. '15m', got '2x')")
        }
        _ => panic!("expected the window error"),
    }
    let cfg = hal9000::config::Config { es_url: "http://es:9200".to_string(), es_api_key: "k".to_string() };
    let input = ContextualizeRequest {
        tenant: "acme".to_string(),
        from: "a".to_string(),
        to: "b".to_string(),
        window: Some("1h".to_string()),
    };
    let plan = plan_context(input.window.clone()).ok().unwrap();
    let auth = Some("k".to_string());
    let config = auth_failed_ips_config(&cfg, &input, &plan, &auth);
    assert_eq!(config.es_url, "http://es:9200");
    assert_eq!(config.window, "1h");
    assert_eq!(config.window_ms, 3_600_000);
    assert_eq!(config.top_n, CONTEXT_TOP_N);
    assert_eq!(CONTEXT_TOP_N, 5);
}

#[test]
fn spike_range_may_start_in_a_leap_second() {
    let now = instant("2025-06-01T12:00:00Z");
    let ranges = plan_spike_ranges(
        Some("2016-12-31T23:59:60Z".to_string()),
        Some("2017-01-01T00:00:10Z".to_string()),
        None,
        &now,
    )
    .ok()
    .unwrap();
    assert_eq!(ranges.baseline.to, "2016-12-31T23:59:60+00:00");
    assert_eq!(ranges.baseline.from, "2016-12-31T23:59:50+00:00");
}

#[test]
fn spike_defaults_end_at_the_clock_reading() {
    let ranges = plan_spike_ranges_now(None, None, Some("1h".to_string())).ok().unwrap();
    let start = instant(&ranges.current.from);
    let end = instant(&ranges.current.to);
    let length = parse_time_range(&ranges.current.from, &ranges.current.to);
    assert!(length.is_ok());
    assert_eq!(ranges.baseline.to, ranges.current.from);
    assert!(start.timestamp_secs() <= end.timestamp_secs() - 3599);
    assert!(start.timestamp_secs() >= end.timestamp_secs() - 3600);
}
