use probe_metrics::collectors::http::{
    classify_http_error, parse_body_hash, HttpCollector, HttpResult,
};
use probe_metrics::collectors::{Collector, CollectorErrors, NodeInfo, ProbeResponse, ResultItem};
use probe_metrics::config::{Duration, HttpConfig, MetricConfig};
use probe_metrics::metric::{MetricKind, SampleValue};
use probe_metrics::reading::Reading;

fn collector() -> HttpCollector {
    HttpCollector::new(Box::leak(Box::new(HttpConfig {
        common_config: MetricConfig {
            prefix: "p_".to_string(),
            name: None,
            endpoint: "https://example.com/health".to_string(),
            frequency: Duration::from_secs(15),
            network: None,
        },
        method: "GET".to_string(),
        body: None,
        headers: vec![],
        regex: Some("ok".to_string()),
    })))
}

fn node() -> NodeInfo {
    NodeInfo {
        country_code: "JP".to_string(),
        continent_code: "AS".to_string(),
        city: "Tokyo".to_string(),
        isp: "Net".to_string(),
        operating_system: "linux".to_string(),
        geohash: Some("xn774".to_string()),
    }
}

#[test]
fn body_hash_is_read_from_its_first_sixteen_digits() {
    assert_eq!(parse_body_hash("00000000000000ff"), 255);
    assert_eq!(parse_body_hash("ffffffffffffffff"), u64::MAX);
    assert_eq!(parse_body_hash("FFFFFFFFFFFFFFFF0123"), u64::MAX);
    assert_eq!(parse_body_hash("0123456789abcdefdeadbeef"), 0x0123456789abcdef);
    assert_eq!(parse_body_hash("+123456789abcdef0"), 0x123456789abcdef);
    assert_eq!(parse_body_hash("0123456789abcde"), 0);
    assert_eq!(parse_body_hash(""), 0);
    assert_eq!(parse_body_hash("0123456789abcdeg"), 0);
    assert_eq!(parse_body_hash("-123456789abcdef"), 0);
    assert_eq!(parse_body_hash("0+23456789abcdef"), 0);
    for text in ["e3b0c44298fc1c149afbf4c8996fb924", "+000000000000000", "1234567890ABCDEF"] {
        assert_eq!(parse_body_hash(text), u64::from_str_radix(&text[0..16], 16).unwrap());
    }
}

#[test]
fn answer_gives_six_samples() {
    let samples = collector()
        .handle_response(ProbeResponse {
            node_info: Some(node()),
            results: vec![ResultItem {
                endpoint: "e".to_string(),
                duration: Some(Reading::Value(250_000_000)),
                error: None,
                result: Some(HttpResult {
                    status_code: 204,
                    body_hash: "00000000000000ffaa".to_string(),
                    matches: vec!["ok".to_string(), "ok".to_string()],
                }),
            }],
        })
        .unwrap();
    let names: Vec<&str> = samples.iter().map(|s| s.name.as_str()).collect();
    assert_eq!(
        names,
        vec![
            "p_http_request_duration_ms",
            "p_http_status_code",
            "p_http_body_hash",
            "p_http_regex_match_count",
            "p_http_request_success_total",
            "p_http_request_total",
        ]
    );
    assert_eq!(samples[0].value, SampleValue::Measure(Reading::Value(250_000_000)));
    assert_eq!(samples[0].kind, MetricKind::Histogram);
    assert_eq!(samples[1].value, SampleValue::Count(204));
    assert_eq!(samples[1].labels.get("status_code").map(|s| s.as_str()), Some("204"));
    assert!(samples[0].labels.get("status_code").is_none());
    assert_eq!(samples[2].value, SampleValue::Count(255));
    assert_eq!(samples[3].value, SampleValue::Count(2));
    assert_eq!(samples[3].labels.get("match_count").map(|s| s.as_str()), Some("2"));
    assert_eq!(samples[4].value, SampleValue::Count(1));
    assert_eq!(samples[5].kind, MetricKind::Counter);
    for sample in &samples {
        assert_eq!(sample.labels.get("geohash").map(|s| s.as_str()), Some("xn774"));
        assert_eq!(
            sample.labels.get("endpoint").map(|s| s.as_str()),
            Some("https://example.com/health")
        );
    }
}

#[test]
fn http_error_text_gives_two_counters() {
    let samples = collector()
        .handle_response(ProbeResponse {
            node_info: Some(node()),
            results: vec![ResultItem {
                endpoint: "e".to_string(),
                duration: None,
                error: Some("Failed to execute HTTP Request".to_string()),
                result: None,
            }],
        })
        .unwrap();
    assert_eq!(samples.len(), 2);
    assert_eq!(samples[0].name, "p_http_request_error_total");
    assert_eq!(samples[1].name, "p_http_request_total");
    assert_eq!(samples[0].labels.get("error_type").map(|s| s.as_str()), Some("http_request_failed"));
}

#[test]
fn http_errors_are_classified() {
    assert_eq!(classify_http_error("no record found for Query"), "dns_resolution_failed");
    assert_eq!(classify_http_error("connection refused"), "connection_refused");
    assert_eq!(classify_http_error("connection timed out"), "timeout");
    assert_eq!(classify_http_error("name resolution failed"), "resolution_failed");
    assert_eq!(classify_http_error("server misbehaving"), "server_misbehaving");
    assert_eq!(classify_http_error("network is unreachable"), "network_unreachable");
    assert_eq!(classify_http_error("Failed to execute HTTP Request"), "http_request_failed");
    assert_eq!(classify_http_error("teapot"), "unknown_error");
}

#[test]
fn http_response_that_lacks_its_parts_is_an_error() {
    let c = collector();
    assert_eq!(
        c.handle_response(ProbeResponse { node_info: None, results: vec![] }).unwrap_err(),
        CollectorErrors::MissingNodeInfo("https://example.com/health".to_string())
    );
    assert_eq!(
        c.handle_response(ProbeResponse { node_info: Some(node()), results: vec![] }).unwrap_err(),
        CollectorErrors::MissingData("https://example.com/health".to_string(), "no_results")
    );
    assert_eq!(
        c.handle_response(ProbeResponse {
            node_info: Some(node()),
            results: vec![ResultItem {
                endpoint: "e".to_string(),
                duration: None,
                error: None,
                result: None
            }],
        })
        .unwrap_err(),
        CollectorErrors::MissingData("https://example.com/health".to_string(), "http_result")
    );
    assert_eq!(c.register_metrics().len(), 7);
}
