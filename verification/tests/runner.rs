use probe_metrics::collectors::dns::{DnsCollector, DnsResponse, DnsResult};
use probe_metrics::collectors::icmp::IcmpCollector;
use probe_metrics::collectors::runner::{request_ceiling, step, CycleAction, CycleEvent, CycleState};
use probe_metrics::collectors::{Collector, NodeInfo, ProbeResponse, ResultItem};
use probe_metrics::config::{DnsConfig, Duration, IcmpConfig, LookupTypes, MetricConfig};
use probe_metrics::metric::SampleValue;

fn dns() -> DnsCollector {
    DnsCollector::new(Box::leak(Box::new(DnsConfig {
        common_config: MetricConfig {
            prefix: "t_".to_string(),
            name: None,
            endpoint: "example.org".to_string(),
            frequency: Duration::from_secs(45),
            network: None,
        },
        lookup_type: LookupTypes::NS,
    })))
}

fn answer(node_info: bool) -> DnsResponse {
    ProbeResponse {
        node_info: if node_info {
            Some(NodeInfo {
                country_code: "FR".to_string(),
                continent_code: "EU".to_string(),
                city: "Paris".to_string(),
                isp: "ISP".to_string(),
                operating_system: "linux".to_string(),
                geohash: None,
            })
        } else {
            None
        },
        results: vec![ResultItem {
            endpoint: "example.org".to_string(),
            duration: None,
            error: None,
            result: Some(DnsResult {
                dns_servers: vec!["1.1.1.1".to_string()],
                ips: vec![],
                mx: vec![],
                txt: vec![],
                ns: vec!["ns1.example.org".to_string()],
                srv: vec![],
                tlsa: vec![],
                soa: vec![],
            }),
        }],
    }
}

#[test]
fn timeout_is_recorded_and_the_cycle_goes_on() {
    let collector = dns();
    let (state, action) = step(&collector, CycleState::Requesting, CycleEvent::TimedOut);
    assert_eq!(state, CycleState::Sleeping);
    match action {
        CycleAction::Record { samples, pause } => {
            assert_eq!(pause, Duration::from_secs(45));
            assert_eq!(samples.len(), 1);
            assert_eq!(samples[0].name, "t_dns_lookup_error_total");
            assert_eq!(samples[0].labels.get("error_type").map(|s| s.as_str()), Some("timeout"));
            assert_eq!(samples[0].value, SampleValue::Count(1));
        }
        _ => panic!("a timeout has to be recorded"),
    }
    let (state, action) = step(&collector, state, CycleEvent::Slept);
    assert_eq!(state, CycleState::Requesting);
    match action {
        CycleAction::Request { request, ceiling } => {
            assert_eq!(ceiling, Duration::from_secs(60));
            assert_eq!(request.targeting.hostnames, vec!["example.org".to_string()]);
            assert_eq!(request.lookup_types, vec!["NS".to_string()]);
            assert!(request.dns_servers.is_empty());
        }
        _ => panic!("the next request has to follow the pause"),
    }
}

#[test]
fn cycle_starts_with_the_declaration_of_the_metrics() {
    let collector = dns();
    let (state, action) = step(&collector, CycleState::Starting, CycleEvent::Start);
    assert_eq!(state, CycleState::Registering);
    match action {
        CycleAction::Register(list) => assert_eq!(list.len(), 8),
        _ => panic!("the metrics have to be declared first"),
    }
    let (state, action) = step(&collector, state, CycleEvent::Registered);
    assert_eq!(state, CycleState::Requesting);
    assert!(matches!(action, CycleAction::Request { .. }));
}

#[test]
fn response_is_turned_into_samples() {
    let collector = dns();
    let (state, action) = step(&collector, CycleState::Requesting, CycleEvent::Responded(answer(true)));
    assert_eq!(state, CycleState::Sleeping);
    match action {
        CycleAction::Record { samples, pause } => {
            assert_eq!(pause, Duration::from_secs(45));
            assert_eq!(samples.len(), 6);
            assert_eq!(samples[3].name, "t_dns_lookup_success_total");
            assert_eq!(samples[3].labels.get("dns_server").map(|s| s.as_str()), Some("Cloudflare"));
        }
        _ => panic!("the samples have to be recorded"),
    }
}

#[test]
fn unusable_response_is_recorded_as_a_failure() {
    let collector = dns();
    let (state, action) = step(&collector, CycleState::Requesting, CycleEvent::Responded(answer(false)));
    assert_eq!(state, CycleState::Sleeping);
    match action {
        CycleAction::Record { samples, .. } => {
            assert_eq!(samples.len(), 1);
            assert_eq!(
                samples[0].labels.get("error_type").map(|s| s.as_str()),
                Some("missing_node_info")
            );
        }
        _ => panic!("the failure has to be recorded"),
    }
}

#[test]
fn failed_request_is_recorded_as_a_failure() {
    let collector = IcmpCollector::new(Box::leak(Box::new(IcmpConfig {
        common_config: MetricConfig {
            prefix: "".to_string(),
            name: Some("gateway".to_string()),
            endpoint: "192.0.2.1".to_string(),
            frequency: Duration::from_secs(5),
            network: None,
        },
    })));
    let (state, action) = step(
        &collector,
        CycleState::Requesting,
        CycleEvent::RequestFailed("429 Too Many Requests".to_string()),
    );
    assert_eq!(state, CycleState::Sleeping);
    match action {
        CycleAction::Record { samples, pause } => {
            assert_eq!(pause, Duration::from_secs(5));
            assert_eq!(samples[0].name, "icmp_ping_failures_total");
            assert_eq!(
                samples[0].labels.get("error_type").map(|s| s.as_str()),
                Some("measurement_failed")
            );
            assert_eq!(samples[0].labels.get("endpoint").map(|s| s.as_str()), Some("gateway"));
        }
        _ => panic!("the failure has to be recorded"),
    }
}

#[test]
fn no_cycle_makes_a_second_request() {
    let collector = dns();
    for event in [CycleEvent::Start, CycleEvent::Registered, CycleEvent::Slept] {
        let (state, action) = step(&collector, CycleState::Requesting, event);
        assert_eq!(state, CycleState::Sleeping);
        match action {
            CycleAction::Record { samples, pause } => {
                assert_eq!(pause, Duration::from_secs(45));
                assert_eq!(samples.len(), 1);
                assert_eq!(
                    samples[0].labels.get("error_type").map(|s| s.as_str()),
                    Some("measurement_failed")
                );
            }
            _ => panic!("a report that is no outcome ends the cycle"),
        }
    }
    let (state, action) = step(&collector, CycleState::Sleeping, CycleEvent::TimedOut);
    assert_eq!(state, CycleState::Requesting);
    assert!(matches!(action, CycleAction::Request { .. }));
    assert_eq!(request_ceiling(), Duration { secs: 60, nanos: 0 });
}
