use probe_metrics::collector::{DnsMetrics, LocationInfo, MetricUpdate, MetricsEngine};
use probe_metrics::collectors::CollectorErrors;
use probe_metrics::config::Duration;
use probe_metrics::metric::{LabelSet, MetricKind, SampleValue};
use probe_metrics::reading::{reading_or_zero, Reading};
use probe_metrics::web::MetricsError;

#[test]
fn share_of_nothing_in_nothing_is_zero() {
    assert_eq!(Reading::Value(0).share(Reading::Value(0)), Reading::Value(0));
    assert_eq!(Reading::Value(5).share(Reading::Value(0)), Reading::Value(0));
    assert_eq!(Reading::Value(5).share(Reading::Value(-3)), Reading::Value(0));
    assert_eq!(Reading::Value(5).share(Reading::Invalid), Reading::Value(0));
    assert_eq!(Reading::Invalid.share(Reading::Invalid), Reading::Value(0));
}

#[test]
fn share_lies_between_zero_and_one() {
    for whole in [1i64, 2, 3, 7, 10, 1_000_000, i64::MAX] {
        for part in [0i64, 1, whole / 3, whole / 2, whole - 1, whole] {
            match Reading::Value(part).share(Reading::Value(whole)) {
                Reading::Value(s) => assert!((0..=1_000_000).contains(&s)),
                Reading::Invalid => panic!("the share of a part in its whole is a number"),
            }
        }
    }
    assert_eq!(Reading::Value(1).share(Reading::Value(3)), Reading::Value(333_333));
    assert_eq!(Reading::Value(10).share(Reading::Value(10)), Reading::Value(1_000_000));
    assert_eq!(Reading::Value(-1).share(Reading::Value(3)), Reading::Value(-333_333));
    assert_eq!(Reading::Value(30).share(Reading::Value(10)), Reading::Value(3_000_000));
    assert_eq!(Reading::Invalid.share(Reading::Value(10)), Reading::Invalid);
    assert_eq!(Reading::Value(i64::MAX).share(Reading::Value(1)), Reading::Invalid);
    assert_eq!(Reading::Value(i64::MIN).share(Reading::Value(1)), Reading::Invalid);
}

#[test]
fn readings_add_and_scale() {
    assert_eq!(Reading::from_units(4), Reading::Value(4_000_000));
    assert_eq!(Reading::from_units(i64::MAX), Reading::Invalid);
    assert_eq!(Reading::Value(2).plus(Reading::Value(3)), Reading::Value(5));
    assert_eq!(Reading::Value(i64::MAX).plus(Reading::Value(1)), Reading::Invalid);
    assert_eq!(Reading::Value(2).plus(Reading::Invalid), Reading::Invalid);
    assert_eq!(Reading::Value(7).times(8), Reading::Value(56));
    assert_eq!(Reading::Value(i64::MAX).times(2), Reading::Invalid);
    assert_eq!(Reading::Invalid.times(0), Reading::Invalid);
    assert_eq!(Reading::Value(3).times_fraction(3, 2), Reading::Value(4));
    assert_eq!(Reading::Value(-3).times_fraction(3, 2), Reading::Value(-4));
    assert_eq!(Reading::Value(100).times_fraction(2, 1), Reading::Value(200));
    assert_eq!(Reading::Value(i64::MAX).times_fraction(2, 1), Reading::Invalid);
    assert_eq!(reading_or_zero(None), Reading::Value(0));
    assert_eq!(reading_or_zero(Some(Reading::Invalid)), Reading::Invalid);
}

#[test]
fn readings_are_told_apart() {
    assert!(Reading::Value(-1).is_finite());
    assert!(!Reading::Invalid.is_finite());
    assert!(Reading::Value(1).is_above_zero());
    assert!(!Reading::Value(0).is_above_zero());
    assert!(!Reading::Invalid.is_above_zero());
    assert!(Reading::Value(1_000_001).is_above_one());
    assert!(!Reading::Value(1_000_000).is_above_one());
    assert!(Reading::Value(0).is_non_negative());
    assert!(!Reading::Value(-1).is_non_negative());
    assert!(!Reading::Invalid.is_non_negative());
}

#[test]
fn label_set_keeps_each_key_once() {
    let mut labels = LabelSet::new();
    assert_eq!(labels.len(), 0);
    labels.insert("a", "1".to_string());
    labels.insert("b", "2".to_string());
    labels.insert("a", "3".to_string());
    assert_eq!(labels.len(), 2);
    assert_eq!(labels.key_at(0), "a");
    assert_eq!(labels.value_at(0), "3");
    assert_eq!(labels.key_at(1), "b");
    assert_eq!(labels.get("b").map(|s| s.as_str()), Some("2"));
    assert_eq!(labels.get("c"), None);
    assert_eq!(labels.position("b"), Some(1));
    let copy = labels.duplicate();
    labels.insert("b", "9".to_string());
    assert_eq!(copy.get("b").map(|s| s.as_str()), Some("2"));
    assert_eq!(copy.len(), 2);
}

#[test]
fn errors_in_words() {
    assert_eq!(
        CollectorErrors::Measurement { metric: "unknown".to_string(), reason: "boom".to_string() }
            .to_string(),
        "Failed to measure unknown: boom"
    );
    assert_eq!(
        CollectorErrors::Timeout(Duration::from_secs(60)).to_string(),
        "Request timeout after 60s"
    );
    assert_eq!(
        CollectorErrors::Timeout(Duration::from_millis(1500)).to_string(),
        "Request timeout after 1.5s"
    );
    assert_eq!(CollectorErrors::Config("x".to_string()).to_string(), "Configuration error: x");
    assert_eq!(
        CollectorErrors::MissingNodeInfo("site".to_string()).to_string(),
        "Failed to get node info for site"
    );
    assert_eq!(
        CollectorErrors::MissingData("site".to_string(), "dns_result").to_string(),
        "Missing crucial data for site - dns_result"
    );
    assert_eq!(CollectorErrors::Config("x".to_string()).kind(), "configuration");
    assert_eq!(CollectorErrors::MissingData("s".to_string(), "p").kind(), "missing_data");
    assert_eq!(MetricsError::Generic("closed".to_string()).to_string(), "closed");
}

fn location() -> LocationInfo {
    LocationInfo {
        country_code: "BR".to_string(),
        continent: "SA".to_string(),
        city: "Recife".to_string(),
        isp: "Oi".to_string(),
    }
}

#[test]
fn registry_update_gives_the_samples_of_a_lookup() {
    let metrics = DnsMetrics::new("edge");
    assert_eq!(metrics.families.len(), 9);
    assert_eq!(metrics.families[0].name, "edge_dns_lookup_duration_seconds");
    assert_eq!(
        metrics.families[0].label_names,
        vec!["country_code", "continent", "city", "isp", "record_type"]
    );
    assert_eq!(metrics.families[2].label_names, vec!["country_code", "continent", "city", "isp"]);
    assert_eq!(metrics.families[3].kind, MetricKind::Counter);
    assert_eq!(metrics.families[3].label_names[4], "error_type");
    let samples = metrics.update(&location(), "A", Reading::Value(200_000), true, 3, 300);
    let names: Vec<&str> = samples.iter().map(|s| s.name.as_str()).collect();
    assert_eq!(
        names,
        vec![
            "edge_dns_lookup_duration_seconds",
            "edge_dns_lookup_success_ratio",
            "edge_dns_records_returned",
            "edge_dns_record_ttl",
            "edge_dns_response_percentiles_seconds",
            "edge_dns_response_percentiles_seconds",
            "edge_dns_response_percentiles_seconds",
        ]
    );
    assert_eq!(samples[0].value, SampleValue::Measure(Reading::Value(200_000)));
    assert_eq!(samples[0].labels.get("record_type").map(|s| s.as_str()), Some("A"));
    assert_eq!(samples[1].value, SampleValue::Measure(Reading::Value(1_000_000)));
    assert_eq!(samples[2].value, SampleValue::Count(3));
    assert_eq!(samples[3].value, SampleValue::Count(300));
    assert_eq!(samples[4].labels.get("percentile").map(|s| s.as_str()), Some("p50"));
    assert_eq!(samples[4].value, SampleValue::Measure(Reading::Value(200_000)));
    assert_eq!(samples[5].value, SampleValue::Measure(Reading::Value(300_000)));
    assert_eq!(samples[6].value, SampleValue::Measure(Reading::Value(400_000)));
    let failed = metrics.update(&location(), "A", Reading::Value(1), false, 0, 0);
    assert_eq!(failed.len(), 8);
    assert_eq!(failed[1].value, SampleValue::Measure(Reading::Value(0)));
    assert_eq!(failed[2].name, "edge_dns_lookup_failures_total");
    assert_eq!(failed[2].labels.get("error_type").map(|s| s.as_str()), Some("timeout"));
    assert_eq!(failed[2].value, SampleValue::Count(1));
}

fn update(prefix: &str) -> MetricUpdate {
    MetricUpdate {
        prefix: prefix.to_string(),
        location: location(),
        record_type: "MX".to_string(),
        duration: Reading::Value(1_000),
        success: true,
        record_count: 1,
        ttl: 60,
    }
}

#[test]
fn derived_percentiles_that_are_no_valid_number_are_withheld() {
    let metrics = DnsMetrics::new("edge");
    let samples = metrics.update(&location(), "A", Reading::Value(i64::MAX), true, 1, 1);
    let names: Vec<&str> = samples.iter().map(|s| s.name.as_str()).collect();
    assert_eq!(
        names,
        vec![
            "edge_dns_lookup_duration_seconds",
            "edge_dns_lookup_success_ratio",
            "edge_dns_records_returned",
            "edge_dns_record_ttl",
            "edge_dns_response_percentiles_seconds",
        ]
    );
    assert_eq!(samples[4].labels.get("percentile").map(|s| s.as_str()), Some("p50"));
    assert_eq!(metrics.update(&location(), "A", Reading::Value(-2), true, 1, 1).len(), 5);
    assert_eq!(metrics.update(&location(), "A", Reading::Invalid, true, 1, 1).len(), 5);
    assert_eq!(metrics.update(&location(), "A", Reading::Value(0), true, 1, 1).len(), 7);
}

#[test]
fn spans_of_time_in_words() {
    let cases = [
        (0u64, 0u32),
        (60, 0),
        (1, 500_000_000),
        (60, 1),
        (0, 1),
        (0, 999),
        (0, 1_000),
        (0, 1_500),
        (0, 999_999),
        (0, 1_000_000),
        (0, 10_500_000),
        (0, 999_999_999),
        (3, 10),
        (3, 100_000_000),
        (3, 120_000),
        (u64::MAX, 999_999_999),
        (12, 345_678_900),
    ];
    for (secs, nanos) in cases {
        let expected = format!("{:?}", std::time::Duration::new(secs, nanos));
        assert_eq!(Duration { secs, nanos }.to_string(), expected);
    }
    assert_eq!(Duration::from_secs(60).to_string(), "60s");
    assert_eq!(Duration::from_millis(1500).to_string(), "1.5s");
    assert_eq!(Duration::from_millis(20).to_string(), "20ms");
    assert_eq!(Duration { secs: 0, nanos: 1_500 }.to_string(), "1.5\u{b5}s");
    assert_eq!(Duration { secs: 1, nanos: 2_000_000_001 }.to_string(), "3.000000001s");
    assert_eq!(Duration { secs: 0, nanos: 1_000_000_000 }.to_string(), "1s");
    assert_eq!(
        Duration { secs: u64::MAX, nanos: 4_000_000_000 }.to_string(),
        "18446744073709551619s"
    );
}

#[test]
fn registry_registers_a_prefix_once() {
    let mut engine = MetricsEngine::new();
    assert_eq!(engine.len(), 0);
    assert!(!engine.contains("a"));
    let first = engine.update_metrics(update("a"));
    assert!(engine.contains("a"));
    assert!(!engine.contains("b"));
    assert_eq!(first.register.map(|list| list.len()), Some(9));
    assert_eq!(first.samples.len(), 7);
    assert_eq!(engine.len(), 1);
    let second = engine.update_metrics(update("a"));
    assert!(second.register.is_none());
    assert_eq!(second.samples.len(), 7);
    assert_eq!(engine.len(), 1);
    let third = engine.update_metrics(update("b"));
    assert_eq!(third.register.unwrap()[0].name, "b_dns_lookup_duration_seconds");
    assert_eq!(engine.len(), 2);
}
