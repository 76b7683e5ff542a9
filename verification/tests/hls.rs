use probe_metrics::collectors::hls::{
    classify_hls_error, estimate_buffer, total_phases, ConnectionMetrics, DownloadMetrics,
    FragmentMetrics, HlsCollector, HlsResult, Master, Rendition,
};
use probe_metrics::collectors::{Collector, CollectorErrors, NodeInfo, ProbeResponse, ResultItem};
use probe_metrics::config::{Duration, HlsConfig, MetricConfig};
use probe_metrics::metric::{LabelSet, MetricKind, MetricSample, SampleValue};
use probe_metrics::reading::Reading;

fn collector() -> HlsCollector {
    HlsCollector::new(Box::leak(Box::new(HlsConfig {
        common_config: MetricConfig {
            prefix: "x_".to_string(),
            name: Some("stream".to_string()),
            endpoint: "https://cdn.example/master.m3u8".to_string(),
            frequency: Duration::from_secs(120),
            network: None,
        },
        headers: vec![("Authorization".to_string(), "token".to_string())],
    })))
}

fn node(geohash: Option<&str>) -> NodeInfo {
    NodeInfo {
        country_code: "US".to_string(),
        continent_code: "NA".to_string(),
        city: "Austin".to_string(),
        isp: "Fiber".to_string(),
        operating_system: "windows".to_string(),
        geohash: geohash.map(|g| g.to_string()),
    }
}

fn ms(units: i64) -> Reading {
    Reading::from_units(units)
}

fn connection(dns: Option<i64>, tls: Option<i64>, tcp: i64, ttfb: i64) -> ConnectionMetrics {
    ConnectionMetrics {
        dns_resolve_duration_ms: dns.map(ms),
        tls_handshake_duration_ms: tls.map(ms),
        tcp_connect_duration_ms: ms(tcp),
        http_get_send_duration_ms: None,
        http_ttfb_duration_ms: ms(ttfb),
    }
}

fn fragment(ratio: Reading, duration: Reading) -> FragmentMetrics {
    FragmentMetrics {
        content_fragment_duration_secs: duration,
        download_metrics: None,
        download_ratio: ratio,
        file: "seg0.ts".to_string(),
        metrics: None,
    }
}

fn rendition(fragments: Vec<FragmentMetrics>) -> Rendition {
    Rendition {
        bandwidth: 1_280_000,
        content_fragment_metrics: fragments,
        discontinuity_sequence: 0,
        download_metrics: None,
        file: "720p.m3u8".to_string(),
        metrics: None,
        resolution: "1280x720".to_string(),
        target_duration_secs: 4,
    }
}

fn handle(result: HlsResult) -> Vec<MetricSample> {
    collector()
        .handle_response(ProbeResponse {
            node_info: Some(node(Some("9v6kp"))),
            results: vec![ResultItem {
                endpoint: "https://cdn.example/master.m3u8".to_string(),
                duration: Some(ms(900)),
                error: None,
                result: Some(result),
            }],
        })
        .unwrap()
}

fn named<'a>(samples: &'a [MetricSample], name: &str) -> Vec<&'a MetricSample> {
    samples.iter().filter(|s| s.name == name).collect()
}

fn label<'a>(sample: &'a MetricSample, key: &str) -> Option<&'a str> {
    sample.labels.get(key).map(|v| v.as_str())
}

fn buffer_of(ratio: Reading, duration: Reading) -> Vec<MetricSample> {
    let mut out = Vec::new();
    collector().calculate_buffer_metrics(
        &mut out,
        &LabelSet::new(),
        None,
        &rendition(vec![fragment(ratio, duration)]),
    );
    out
}

#[test]
fn direct_rendition_with_ratio_two() {
    let samples = handle(HlsResult {
        master: None,
        rendition: Some(rendition(vec![fragment(Reading::Value(2_000_000), ms(4))])),
    });
    let estimates = named(&samples, "x_hls_estimated_buffer_ms");
    assert_eq!(estimates.len(), 1);
    assert_eq!(estimates[0].value, SampleValue::Measure(ms(4000)));
    assert_eq!(estimates[0].kind, MetricKind::Gauge);
    assert_eq!(label(estimates[0], "playlist_type"), Some("direct"));
    assert_eq!(label(estimates[0], "resolution"), Some("1280x720"));
    assert_eq!(label(estimates[0], "bandwidth"), Some("1280000"));
    assert_eq!(label(estimates[0], "target_duration_secs"), Some("4"));
    assert_eq!(label(estimates[0], "discontinuity_sequence"), Some("0"));
    assert_eq!(label(estimates[0], "geohash"), Some("9v6kp"));
    assert_eq!(label(estimates[0], "endpoint"), Some("stream"));
    assert_eq!(named(&samples, "x_hls_buffer_calculation_errors").len(), 0);
    assert_eq!(
        named(&samples, "x_hls_buffer_fill_rate")[0].value,
        SampleValue::Measure(Reading::Value(2_000_000))
    );
    let names: Vec<&str> = samples.iter().map(|s| s.name.as_str()).collect();
    assert_eq!(
        names,
        vec![
            "x_hls_total_ms",
            "x_hls_fragment_download_ratio",
            "x_hls_fragment_duration_seconds",
            "x_hls_playlist_chain_load_time",
            "x_hls_initial_buffer_ms",
            "x_hls_buffer_fill_rate",
            "x_hls_estimated_buffer_ms",
        ]
    );
    assert_eq!(samples[0].value, SampleValue::Measure(ms(900)));
    assert!(samples[0].labels.get("playlist_type").is_none());
    assert_eq!(samples[3].value, SampleValue::Measure(ms(0)));
}

#[test]
fn estimate_is_made_only_for_ratio_above_one_and_duration_above_zero() {
    let one = 1_000_000;
    let cases = [
        (Reading::Value(2 * one), Reading::Value(4 * one), Some(4_000 * one)),
        (Reading::Value(one + 1), Reading::Value(1), Some(0)),
        (Reading::Value(1_500_000), Reading::Value(6 * one), Some(3_000 * one)),
        (Reading::Value(3 * one), Reading::Value(1_500_000), Some(3_000 * one)),
        (Reading::Value(one), Reading::Value(4 * one), None),
        (Reading::Value(one - 1), Reading::Value(4 * one), None),
        (Reading::Value(0), Reading::Value(4 * one), None),
        (Reading::Value(-2 * one), Reading::Value(4 * one), None),
        (Reading::Invalid, Reading::Value(4 * one), None),
        (Reading::Value(2 * one), Reading::Value(0), None),
        (Reading::Value(2 * one), Reading::Value(-4 * one), None),
        (Reading::Value(2 * one), Reading::Invalid, None),
        (Reading::Invalid, Reading::Invalid, None),
        (Reading::Value(i64::MAX), Reading::Value(i64::MAX), None),
    ];
    for (ratio, duration, expected) in cases {
        let samples = buffer_of(ratio, duration);
        let gauges = named(&samples, "x_hls_estimated_buffer_ms");
        let errors: Vec<&MetricSample> = named(&samples, "x_hls_buffer_calculation_errors")
            .into_iter()
            .filter(|s| label(s, "error_type") != Some("invalid_download_ratio"))
            .collect();
        match expected {
            Some(value) => {
                assert_eq!(gauges.len(), 1);
                assert_eq!(gauges[0].value, SampleValue::Measure(Reading::Value(value)));
                assert!(errors.is_empty());
            }
            None => {
                assert!(gauges.is_empty());
                assert_eq!(errors.len(), 1);
                assert_eq!(errors[0].value, SampleValue::Count(1));
                assert_eq!(errors[0].kind, MetricKind::Counter);
            }
        }
    }
}

#[test]
fn calculation_errors_name_their_reason() {
    let samples = buffer_of(Reading::Value(500_000), ms(4));
    assert_eq!(label(samples.last().unwrap(), "error_type"), Some("invalid_ratio"));
    assert_eq!(named(&samples, "x_hls_buffer_fill_rate").len(), 1);
    let samples = buffer_of(Reading::Value(2_000_000), ms(0));
    assert_eq!(label(samples.last().unwrap(), "error_type"), Some("invalid_duration"));
    let samples = buffer_of(Reading::Value(2_000_000), Reading::Invalid);
    assert_eq!(label(samples.last().unwrap(), "error_type"), Some("invalid_duration"));
    let samples = buffer_of(Reading::Value(1_000_000), ms(-1));
    assert_eq!(label(samples.last().unwrap(), "error_type"), Some("invalid_ratio"));
    let samples = buffer_of(Reading::Invalid, ms(4));
    assert_eq!(label(samples.last().unwrap(), "error_type"), Some("invalid_ratio"));
    let samples = buffer_of(Reading::Value(0), ms(4));
    let reasons: Vec<Option<&str>> = named(&samples, "x_hls_buffer_calculation_errors")
        .iter()
        .map(|s| label(s, "error_type"))
        .collect();
    assert_eq!(reasons, vec![Some("invalid_download_ratio"), Some("invalid_ratio")]);
    let samples = buffer_of(Reading::Value(i64::MAX), Reading::Value(i64::MAX));
    assert_eq!(label(samples.last().unwrap(), "error_type"), Some("invalid_buffer_ms"));
    let mut out = Vec::new();
    collector().calculate_buffer_metrics(&mut out, &LabelSet::new(), None, &rendition(vec![]));
    let names: Vec<&str> = out.iter().map(|s| s.name.as_str()).collect();
    assert_eq!(names, vec!["x_hls_playlist_chain_load_time", "x_hls_buffer_calculation_errors"]);
    assert_eq!(label(&out[1], "error_type"), Some("no_fragments"));
}

#[test]
fn estimate_follows_the_formula() {
    assert_eq!(estimate_buffer(Reading::Value(2_000_000), ms(4)), ms(4000));
    assert_eq!(estimate_buffer(Reading::Value(1_250_000), Reading::Value(2_000_001)), Reading::Value(500_000_250));
    assert_eq!(estimate_buffer(Reading::Value(1_000_001), Reading::Value(999)), Reading::Value(0));
    assert_eq!(estimate_buffer(Reading::Value(i64::MAX), Reading::Value(i64::MAX)), Reading::Invalid);
}

#[test]
fn load_times_add_the_phases_that_are_present() {
    assert_eq!(total_phases(&connection(Some(5), Some(20), 10, 40)), ms(75));
    assert_eq!(total_phases(&connection(None, None, 10, 40)), ms(50));
    let mut first = fragment(Reading::Value(2_000_000), ms(4));
    first.metrics = Some(connection(None, Some(7), 3, 10));
    first.download_metrics =
        Some(DownloadMetrics { bytes_per_second: ms(1000), size: ms(2000), time_ms: ms(80) });
    let mut direct = rendition(vec![first]);
    direct.metrics = Some(connection(Some(1), None, 2, 3));
    let master = Master {
        metrics: Some(connection(Some(5), Some(20), 10, 40)),
        download_metrics: None,
        renditions: vec![],
    };
    let mut out = Vec::new();
    collector().calculate_buffer_metrics(&mut out, &LabelSet::new(), Some(&master), &direct);
    assert_eq!(out[0].name, "x_hls_playlist_chain_load_time");
    assert_eq!(out[0].value, SampleValue::Measure(ms(81)));
    assert_eq!(out[0].kind, MetricKind::Histogram);
    assert_eq!(out[1].name, "x_hls_initial_buffer_ms");
    assert_eq!(out[1].value, SampleValue::Measure(ms(181)));
    let mut out = Vec::new();
    collector().calculate_buffer_metrics(&mut out, &LabelSet::new(), None, &direct);
    assert_eq!(out[0].value, SampleValue::Measure(ms(6)));
    assert_eq!(out[1].value, SampleValue::Measure(ms(106)));
}

#[test]
fn download_time_counts_without_connection_timings() {
    let mut first = fragment(Reading::Value(2_000_000), ms(4));
    first.download_metrics =
        Some(DownloadMetrics { bytes_per_second: ms(1), size: ms(1), time_ms: ms(80) });
    let mut out = Vec::new();
    collector().calculate_buffer_metrics(&mut out, &LabelSet::new(), None, &rendition(vec![first]));
    assert_eq!(out[1].name, "x_hls_initial_buffer_ms");
    assert_eq!(out[1].value, SampleValue::Measure(ms(80)));
}

#[test]
fn derived_values_that_are_no_valid_number_are_left_out() {
    let mut direct = rendition(vec![fragment(Reading::Value(2_000_000), ms(4))]);
    direct.metrics = Some(ConnectionMetrics {
        dns_resolve_duration_ms: Some(Reading::Invalid),
        tls_handshake_duration_ms: None,
        tcp_connect_duration_ms: ms(1),
        http_get_send_duration_ms: None,
        http_ttfb_duration_ms: ms(1),
    });
    let mut out = Vec::new();
    collector().calculate_buffer_metrics(&mut out, &LabelSet::new(), None, &direct);
    assert!(named(&out, "x_hls_playlist_chain_load_time").is_empty());
    assert!(named(&out, "x_hls_initial_buffer_ms").is_empty());
    assert_eq!(named(&out, "x_hls_estimated_buffer_ms").len(), 1);
    direct.metrics = Some(connection(None, None, -5, 1));
    let mut out = Vec::new();
    collector().calculate_buffer_metrics(&mut out, &LabelSet::new(), None, &direct);
    assert!(named(&out, "x_hls_playlist_chain_load_time").is_empty());
    direct.metrics = Some(ConnectionMetrics {
        dns_resolve_duration_ms: None,
        tls_handshake_duration_ms: None,
        tcp_connect_duration_ms: Reading::Value(i64::MAX),
        http_get_send_duration_ms: None,
        http_ttfb_duration_ms: Reading::Value(1),
    });
    let mut out = Vec::new();
    collector().calculate_buffer_metrics(&mut out, &LabelSet::new(), None, &direct);
    assert!(named(&out, "x_hls_playlist_chain_load_time").is_empty());
}

#[test]
fn master_playlist_and_its_renditions() {
    let mut first = fragment(Reading::Value(3_000_000), ms(2));
    first.metrics = Some(connection(Some(1), Some(2), 3, 4));
    first.download_metrics =
        Some(DownloadMetrics { bytes_per_second: ms(500_000), size: ms(1_000_000), time_ms: ms(2000) });
    let master = Master {
        metrics: Some(connection(None, Some(30), 12, 45)),
        download_metrics: Some(DownloadMetrics {
            bytes_per_second: ms(10_000),
            size: ms(2_048),
            time_ms: ms(200),
        }),
        renditions: vec![rendition(vec![first]), rendition(vec![])],
    };
    let samples = handle(HlsResult { master: Some(master), rendition: None });
    let names: Vec<&str> = samples.iter().map(|s| s.name.as_str()).collect();
    assert_eq!(
        names,
        vec![
            "x_hls_total_ms",
            "x_hls_master_tcp_connect_ms",
            "x_hls_master_ttfb_ms",
            "x_hls_master_dns_resolve_ms",
            "x_hls_master_tls_handshake_ms",
            "x_hls_master_size_bytes",
            "x_hls_master_download_ms",
            "x_hls_master_bitrate",
            "x_hls_renditions_count",
            "x_hls_fragment_download_ratio",
            "x_hls_fragment_download_ms",
            "x_hls_fragment_size_bytes",
            "x_hls_fragment_bandwidth_bytes_per_second",
            "x_hls_fragment_tcp_connect_ms",
            "x_hls_fragment_ttfb_ms",
            "x_hls_fragment_dns_resolve_ms",
            "x_hls_fragment_tls_handshake_ms",
            "x_hls_fragment_duration_seconds",
            "x_hls_playlist_chain_load_time",
            "x_hls_initial_buffer_ms",
            "x_hls_buffer_fill_rate",
            "x_hls_estimated_buffer_ms",
            "x_hls_playlist_chain_load_time",
            "x_hls_buffer_calculation_errors",
        ]
    );
    assert_eq!(samples[1].value, SampleValue::Measure(ms(12)));
    assert_eq!(samples[3].value, SampleValue::Measure(ms(0)));
    assert_eq!(samples[4].value, SampleValue::Measure(ms(30)));
    assert_eq!(samples[5].kind, MetricKind::Gauge);
    assert_eq!(samples[6].kind, MetricKind::Histogram);
    assert_eq!(samples[7].value, SampleValue::Measure(ms(80_000)));
    assert_eq!(samples[8].value, SampleValue::Count(2));
    assert_eq!(label(&samples[9], "playlist_type"), Some("variant"));
    assert_eq!(samples[18].value, SampleValue::Measure(ms(87)));
    assert_eq!(samples[19].value, SampleValue::Measure(ms(87 + 10 + 2000)));
    assert_eq!(samples[21].value, SampleValue::Measure(ms(4000)));
    assert_eq!(label(&samples[23], "error_type"), Some("no_fragments"));
    assert_eq!(label(&samples[23], "country_code"), Some("US"));
}

#[test]
fn master_bitrate_that_is_no_valid_number_is_withheld() {
    for rate in [Reading::Invalid, Reading::Value(-1), Reading::Value(i64::MAX)] {
        let master = Master {
            metrics: None,
            download_metrics: Some(DownloadMetrics {
                bytes_per_second: rate,
                size: ms(2_048),
                time_ms: ms(200),
            }),
            renditions: vec![],
        };
        let samples = handle(HlsResult { master: Some(master), rendition: None });
        let names: Vec<&str> = samples.iter().map(|s| s.name.as_str()).collect();
        assert_eq!(
            names,
            vec![
                "x_hls_total_ms",
                "x_hls_master_size_bytes",
                "x_hls_master_download_ms",
                "x_hls_renditions_count",
            ]
        );
    }
}

#[test]
fn hls_error_text_gives_two_counters() {
    let samples = collector()
        .handle_response(ProbeResponse {
            node_info: Some(node(None)),
            results: vec![ResultItem {
                endpoint: "e".to_string(),
                duration: None,
                error: Some("Failed to parse root m3u8".to_string()),
                result: None,
            }],
        })
        .unwrap();
    assert_eq!(samples.len(), 2);
    assert_eq!(samples[0].name, "x_hls_failures_total");
    assert_eq!(samples[1].name, "x_hls_errors_by_type");
    assert_eq!(label(&samples[0], "error_type"), Some("invalid_manifest"));
    assert_eq!(label(&samples[1], "error_type"), Some("invalid_manifest"));
    assert!(samples[0].labels.get("geohash").is_none());
}

#[test]
fn hls_errors_are_classified() {
    assert_eq!(classify_hls_error("dns error"), "dns_error");
    assert_eq!(classify_hls_error("no record found for Query 404"), "dns_error");
    assert_eq!(classify_hls_error("NoSuchKey"), "not_found");
    assert_eq!(classify_hls_error("the key does not exist"), "not_found");
    assert_eq!(classify_hls_error("Failed to parse root m3u8"), "invalid_manifest");
    assert_eq!(classify_hls_error("connection timed out"), "timeout");
    assert_eq!(classify_hls_error("client error (Connect)"), "connection_error");
    assert_eq!(classify_hls_error("bad certificate 403"), "ssl_error");
    assert_eq!(classify_hls_error("status 404"), "http_404");
    assert_eq!(classify_hls_error("status 403"), "http_403");
    assert_eq!(classify_hls_error("status 500"), "http_500");
    assert_eq!(classify_hls_error("status 502"), "unknown_error");
}

#[test]
fn hls_response_that_lacks_its_parts_is_an_error() {
    let c = collector();
    assert_eq!(
        c.handle_response(ProbeResponse { node_info: None, results: vec![] }).unwrap_err(),
        CollectorErrors::MissingNodeInfo("stream".to_string())
    );
    assert_eq!(
        c.handle_response(ProbeResponse { node_info: Some(node(None)), results: vec![] }).unwrap_err(),
        CollectorErrors::MissingData("stream".to_string(), "no_results")
    );
    assert_eq!(
        c.handle_response(ProbeResponse {
            node_info: Some(node(None)),
            results: vec![ResultItem {
                endpoint: "e".to_string(),
                duration: None,
                error: None,
                result: None
            }],
        })
        .unwrap_err(),
        CollectorErrors::MissingData("stream".to_string(), "hls_result")
    );
    assert_eq!(c.register_metrics().len(), 25);
    assert_eq!(c.handle_errors(CollectorErrors::Config("bad".to_string()))[0].name, "x_hls_failures_total");
}
