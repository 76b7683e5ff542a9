use probe_metrics::collectors::dns::{classify_dns_error, DnsCollector, DnsResponse, DnsResult};
use probe_metrics::collectors::fingerprint::record_hash;
use probe_metrics::collectors::{Collector, CollectorErrors, NodeInfo, ProbeResponse, ResultItem};
use probe_metrics::config::{DnsConfig, Duration, LookupTypes, MetricConfig};
use probe_metrics::metric::{MetricKind, MetricSample, SampleValue};
use probe_metrics::reading::Reading;

fn dns_config(name: Option<&str>, lookup_type: LookupTypes) -> &'static DnsConfig {
    Box::leak(Box::new(DnsConfig {
        common_config: MetricConfig {
            prefix: "probe_".to_string(),
            name: name.map(|n| n.to_string()),
            endpoint: "example.com".to_string(),
            frequency: Duration::from_secs(30),
            network: None,
        },
        lookup_type,
    }))
}

fn node() -> NodeInfo {
    NodeInfo {
        country_code: "AU".to_string(),
        continent_code: "OC".to_string(),
        city: "Sydney".to_string(),
        isp: "Example Net".to_string(),
        operating_system: "linux".to_string(),
        geohash: None,
    }
}

fn result(servers: &[&str], ips: &[&str]) -> DnsResult {
    DnsResult {
        dns_servers: servers.iter().map(|s| s.to_string()).collect(),
        ips: ips.iter().map(|s| s.to_string()).collect(),
        mx: vec!["mail.example.com".to_string()],
        txt: vec![],
        ns: vec![],
        srv: vec![],
        tlsa: vec![],
        soa: vec![],
    }
}

fn response(item: ResultItem<DnsResult>) -> DnsResponse {
    ProbeResponse { node_info: Some(node()), results: vec![item] }
}

fn named<'a>(samples: &'a [MetricSample], name: &str) -> Vec<&'a MetricSample> {
    samples.iter().filter(|s| s.name == name).collect()
}

fn label<'a>(sample: &'a MetricSample, key: &str) -> Option<&'a str> {
    sample.labels.get(key).map(|v| v.as_str())
}

#[test]
fn two_resolvers_give_two_emissions_with_one_fingerprint() {
    let collector = DnsCollector::new(dns_config(None, LookupTypes::IP));
    let samples = collector
        .handle_response(response(ResultItem {
            endpoint: "example.com".to_string(),
            duration: Some(Reading::Value(12_500_000)),
            error: None,
            result: Some(result(&["udp:8.8.8.8:53", "tcp:1.1.1.1:53"], &["1.2.3.4"])),
        }))
        .unwrap();
    assert_eq!(samples.len(), 12);
    let successes = named(&samples, "probe_dns_lookup_success_total");
    assert_eq!(successes.len(), 2);
    assert_eq!(label(successes[0], "dns_server"), Some("Google"));
    assert_eq!(label(successes[1], "dns_server"), Some("Cloudflare"));
    let hashes = named(&samples, "probe_dns_record_hash");
    assert_eq!(hashes.len(), 2);
    let expected = SampleValue::Count(record_hash(&vec!["1.2.3.4".to_string()]));
    assert_eq!(hashes[0].value, expected);
    assert_eq!(hashes[1].value, expected);
    assert_eq!(hashes[0].kind, MetricKind::Gauge);
    assert_eq!(label(hashes[0], "record_type"), Some("ip"));
    let hash_text = record_hash(&vec!["1.2.3.4".to_string()]).to_string();
    assert_eq!(label(successes[0], "record_hash"), Some(hash_text.as_str()));
    assert_eq!(label(successes[1], "record_hash"), Some(hash_text.as_str()));
    for sample in &samples {
        if sample.labels.get("record_type").is_some() {
            assert_eq!(label(sample, "record_hash"), Some(hash_text.as_str()));
        } else {
            assert_eq!(sample.name, "probe_dns_server_lookup_duration_ms");
            assert!(sample.labels.get("record_hash").is_none());
        }
        for index in 0..sample.labels.len() {
            assert_ne!(sample.labels.value_at(index), "1.2.3.4");
        }
    }
    for sample in &samples {
        for key in ["country_code", "continent", "city", "isp", "os", "endpoint", "dns_server"] {
            assert!(sample.labels.get(key).is_some());
        }
    }
    let durations = named(&samples, "probe_dns_server_lookup_duration_ms");
    assert_eq!(durations.len(), 2);
    assert_eq!(durations[0].value, SampleValue::Measure(Reading::Value(12_500_000)));
    assert_eq!(durations[0].kind, MetricKind::Histogram);
    assert!(durations[0].labels.get("record_type").is_none());
    let ratios = named(&samples, "probe_dns_lookup_success_ratio");
    assert_eq!(ratios[0].value, SampleValue::Measure(Reading::Value(1_000_000)));
    assert_eq!(named(&samples, "probe_dns_records_count")[0].value, SampleValue::Count(1));
    assert_eq!(named(&samples, "probe_dns_lookup_total").len(), 2);
    assert_eq!(named(&samples, "probe_dns_lookup_failures_total").len(), 0);
}

#[test]
fn samples_of_one_resolver_come_in_order() {
    let collector = DnsCollector::new(dns_config(Some("site"), LookupTypes::MX));
    let samples = collector
        .handle_response(response(ResultItem {
            endpoint: "example.com".to_string(),
            duration: None,
            error: None,
            result: Some(result(&["9.9.9.9"], &[])),
        }))
        .unwrap();
    let names: Vec<&str> = samples.iter().map(|s| s.name.as_str()).collect();
    assert_eq!(
        names,
        vec![
            "probe_dns_server_lookup_duration_ms",
            "probe_dns_record_hash",
            "probe_dns_records_count",
            "probe_dns_lookup_success_total",
            "probe_dns_lookup_success_ratio",
            "probe_dns_lookup_total",
        ]
    );
    assert_eq!(samples[0].value, SampleValue::Measure(Reading::Value(0)));
    assert_eq!(label(&samples[0], "endpoint"), Some("site"));
    assert_eq!(label(&samples[1], "dns_server"), Some("Quad9"));
    assert_eq!(label(&samples[1], "record_type"), Some("mx"));
    assert_eq!(
        samples[1].value,
        SampleValue::Count(record_hash(&vec!["mail.example.com".to_string()]))
    );
    let keys: Vec<&str> = (0..samples[1].labels.len()).map(|i| samples[1].labels.key_at(i).as_str()).collect();
    assert_eq!(
        keys,
        vec![
            "country_code",
            "continent",
            "city",
            "isp",
            "os",
            "endpoint",
            "dns_server",
            "record_type",
            "record_hash",
        ]
    );
    assert_eq!(
        samples[1].labels.get("record_hash").cloned(),
        Some(record_hash(&vec!["mail.example.com".to_string()]).to_string())
    );
    assert_eq!(
        samples[5].labels.get("record_hash").cloned(),
        Some(record_hash(&vec!["MAIL.example.com".to_string()]).to_string())
    );
}

#[test]
fn record_hash_label_changes_with_the_record_set() {
    let collector = DnsCollector::new(dns_config(None, LookupTypes::IP));
    let hash_label = |ips: &[&str]| {
        let samples = collector
            .handle_response(response(ResultItem {
                endpoint: "example.com".to_string(),
                duration: None,
                error: None,
                result: Some(result(&["8.8.8.8"], ips)),
            }))
            .unwrap();
        samples[2].labels.get("record_hash").cloned().unwrap()
    };
    assert_eq!(hash_label(&["1.2.3.4", "5.6.7.8"]), hash_label(&["5.6.7.8", "1.2.3.4", "1.2.3.4"]));
    assert_ne!(hash_label(&["1.2.3.4"]), hash_label(&["1.2.3.5"]));
    assert_ne!(hash_label(&["1.2.3.4"]), hash_label(&[]));
    assert_eq!(hash_label(&[]), record_hash(&vec![]).to_string());
}

#[test]
fn address_without_decoration_keeps_its_provider() {
    let collector = DnsCollector::new(dns_config(None, LookupTypes::IP));
    let samples = collector
        .handle_response(response(ResultItem {
            endpoint: "example.com".to_string(),
            duration: None,
            error: None,
            result: Some(result(&["2620:119:53::53"], &["1.2.3.4"])),
        }))
        .unwrap();
    assert_eq!(samples.len(), 6);
    let successes = named(&samples, "probe_dns_lookup_success_total");
    assert_eq!(successes.len(), 1);
    assert_eq!(label(successes[0], "dns_server"), Some("OpenDNS"));
    for sample in &samples {
        assert_eq!(label(sample, "dns_server"), Some("OpenDNS"));
    }
}

#[test]
fn lookup_without_records_counts_as_failure() {
    let collector = DnsCollector::new(dns_config(None, LookupTypes::IP));
    let samples = collector
        .handle_response(response(ResultItem {
            endpoint: "example.com".to_string(),
            duration: Some(Reading::Value(1)),
            error: None,
            result: Some(result(&["10.0.0.1"], &[])),
        }))
        .unwrap();
    assert_eq!(named(&samples, "probe_dns_lookup_success_total").len(), 0);
    assert_eq!(named(&samples, "probe_dns_lookup_failures_total").len(), 1);
    assert_eq!(
        named(&samples, "probe_dns_lookup_success_ratio")[0].value,
        SampleValue::Measure(Reading::Value(0))
    );
    assert_eq!(named(&samples, "probe_dns_records_count")[0].value, SampleValue::Count(0));
    assert_eq!(label(&samples[0], "dns_server"), Some("Private Network (10.0.0.0/8)"));
}

#[test]
fn no_valid_resolver_gives_no_sample() {
    let collector = DnsCollector::new(dns_config(None, LookupTypes::IP));
    let samples = collector
        .handle_response(response(ResultItem {
            endpoint: "example.com".to_string(),
            duration: None,
            error: None,
            result: Some(result(&["resolver.local", ""], &["1.2.3.4"])),
        }))
        .unwrap();
    assert!(samples.is_empty());
}

#[test]
fn error_text_gives_one_classified_failure() {
    let collector = DnsCollector::new(dns_config(None, LookupTypes::IP));
    let samples = collector
        .handle_response(response(ResultItem {
            endpoint: "example.com".to_string(),
            duration: None,
            error: Some("dial udp: connection refused".to_string()),
            result: Some(result(&["8.8.8.8"], &["1.2.3.4"])),
        }))
        .unwrap();
    assert_eq!(samples.len(), 1);
    assert_eq!(samples[0].name, "probe_dns_lookup_error_total");
    assert_eq!(samples[0].kind, MetricKind::Counter);
    assert_eq!(samples[0].value, SampleValue::Count(1));
    assert_eq!(label(&samples[0], "error_type"), Some("connection_refused"));
    assert_eq!(label(&samples[0], "country_code"), Some("AU"));
    assert_eq!(label(&samples[0], "os"), Some("linux"));
}

#[test]
fn dns_errors_are_classified_by_the_first_known_phrase() {
    assert_eq!(classify_dns_error("no record found for Query; connection refused"), "no_records");
    assert_eq!(classify_dns_error("connection refused"), "connection_refused");
    assert_eq!(classify_dns_error("connection timed out"), "timeout");
    assert_eq!(classify_dns_error("name resolution failed"), "resolution_failed");
    assert_eq!(classify_dns_error("server misbehaving"), "server_misbehaving");
    assert_eq!(classify_dns_error("network is unreachable"), "network_unreachable");
    assert_eq!(classify_dns_error("Connection Refused"), "unknown_error");
    assert_eq!(classify_dns_error(""), "unknown_error");
}

#[test]
fn response_without_vantage_point_is_an_error() {
    let collector = DnsCollector::new(dns_config(Some("site"), LookupTypes::IP));
    let outcome = collector.handle_response(ProbeResponse { node_info: None, results: vec![] });
    assert_eq!(outcome.unwrap_err(), CollectorErrors::MissingNodeInfo("site".to_string()));
}

#[test]
fn response_without_results_is_an_error() {
    let collector = DnsCollector::new(dns_config(None, LookupTypes::IP));
    let outcome = collector.handle_response(ProbeResponse { node_info: Some(node()), results: vec![] });
    assert_eq!(
        outcome.unwrap_err(),
        CollectorErrors::MissingData("example.com".to_string(), "no_results")
    );
}

#[test]
fn result_without_error_and_payload_is_an_error() {
    let collector = DnsCollector::new(dns_config(None, LookupTypes::IP));
    let outcome = collector.handle_response(response(ResultItem {
        endpoint: "example.com".to_string(),
        duration: Some(Reading::Value(5)),
        error: None,
        result: None,
    }));
    assert_eq!(
        outcome.unwrap_err(),
        CollectorErrors::MissingData("example.com".to_string(), "dns_result")
    );
}

#[test]
fn dns_metrics_are_declared_with_the_prefix() {
    let collector = DnsCollector::new(dns_config(None, LookupTypes::IP));
    let list = collector.register_metrics();
    assert_eq!(list.len(), 8);
    assert_eq!(list[0].name, "probe_dns_lookup_success_total");
    assert_eq!(list[0].help, "Total number of successful DNS lookups");
    assert_eq!(list[0].kind, MetricKind::Counter);
    assert_eq!(list[5].name, "probe_dns_server_lookup_duration_ms");
    assert_eq!(list[5].kind, MetricKind::Histogram);
    let again = collector.register_metrics();
    assert_eq!(
        list.iter().map(|d| d.name.clone()).collect::<Vec<_>>(),
        again.iter().map(|d| d.name.clone()).collect::<Vec<_>>()
    );
    assert_eq!(collector.get_frequency(), Duration::from_secs(30));
}

#[test]
fn failed_cycle_shows_as_one_failure_sample() {
    let collector = DnsCollector::new(dns_config(None, LookupTypes::IP));
    let samples = collector.handle_errors(CollectorErrors::Timeout(Duration::from_secs(60)));
    assert_eq!(samples.len(), 1);
    assert_eq!(samples[0].name, "probe_dns_lookup_error_total");
    assert_eq!(label(&samples[0], "error_type"), Some("timeout"));
    assert_eq!(label(&samples[0], "endpoint"), Some("example.com"));
    assert_eq!(label(&samples[0], "country_code"), Some("unknown"));
    assert_eq!(samples[0].value, SampleValue::Count(1));
}
