use probe_metrics::collectors::request::{
    dns_request, hls_request, http_request, icmp_request, make_targeting,
};
use probe_metrics::config::{
    default_metric_clear_timeout, ContinentCode, DnsConfig, Duration, HlsConfig, HttpConfig,
    IcmpConfig, LookupTypes, MetricConfig, MetricType, NetworkCriteria, Policy,
};

fn criteria(country: Option<&str>) -> NetworkCriteria {
    NetworkCriteria {
        proxy: Policy::Denied,
        mobile: Policy::Allowed,
        residential: Policy::Required,
        country_code: country.map(|c| c.to_string()),
        continent_code: Some(ContinentCode::OC),
        isp_regex: Some("Telstra.*".to_string()),
        node_id: Some("node-7".to_string()),
    }
}

fn common(network: Option<NetworkCriteria>) -> MetricConfig {
    MetricConfig {
        prefix: "".to_string(),
        name: None,
        endpoint: "example.com".to_string(),
        frequency: Duration::from_secs(10),
        network,
    }
}

#[test]
fn country_goes_by_its_two_letter_code() {
    let t = make_targeting(&common(Some(criteria(Some("AUS")))), true);
    assert_eq!(t.country_code, Some("AU".to_string()));
    let t = make_targeting(&common(Some(criteria(Some("deu")))), true);
    assert_eq!(t.country_code, Some("DE".to_string()));
    let t = make_targeting(&common(Some(criteria(Some("USA")))), false);
    assert_eq!(t.country_code, Some("US".to_string()));
}

#[test]
fn unknown_country_is_left_out() {
    for code in ["XXX", "AU", "", "AUSTRALIA"] {
        let t = make_targeting(&common(Some(criteria(Some(code)))), true);
        assert_eq!(t.country_code, None);
    }
    assert_eq!(make_targeting(&common(Some(criteria(None))), true).country_code, None);
}

#[test]
fn targeting_carries_the_criteria() {
    let t = make_targeting(&common(Some(criteria(Some("NZL")))), true);
    assert_eq!(t.hostnames, vec!["example.com".to_string()]);
    assert_eq!(t.continent_code, Some("OC".to_string()));
    assert_eq!(t.proxy, "DENIED");
    assert_eq!(t.mobile, "ALLOWED");
    assert_eq!(t.residential, "REQUIRED");
    assert_eq!(t.isp_regex, Some("Telstra.*".to_string()));
    assert_eq!(t.node_id, Some("node-7".to_string()));
    let t = make_targeting(&common(Some(criteria(Some("NZL")))), false);
    assert_eq!(t.isp_regex, None);
    assert_eq!(t.node_id, None);
    assert_eq!(t.country_code, Some("NZ".to_string()));
}

#[test]
fn targeting_without_criteria_allows_everything() {
    let t = make_targeting(&common(None), true);
    assert_eq!(t.hostnames, vec!["example.com".to_string()]);
    assert_eq!(t.country_code, None);
    assert_eq!(t.continent_code, None);
    assert_eq!(t.proxy, "ALLOWED");
    assert_eq!(t.mobile, "ALLOWED");
    assert_eq!(t.residential, "ALLOWED");
    assert_eq!(t.isp_regex, None);
    assert_eq!(t.node_id, None);
}

#[test]
fn requests_carry_what_their_kind_adds() {
    let r = dns_request(&DnsConfig { common_config: common(None), lookup_type: LookupTypes::TLSA });
    assert_eq!(r.lookup_types, vec!["TLSA".to_string()]);
    assert!(r.dns_servers.is_empty());
    let r = icmp_request(&IcmpConfig { common_config: common(Some(criteria(Some("JPN")))) });
    assert_eq!(r.targeting.country_code, Some("JP".to_string()));
    assert_eq!(r.targeting.node_id, None);
    let headers = vec![("A".to_string(), "1".to_string()), ("B".to_string(), "2".to_string())];
    let r = hls_request(&HlsConfig { common_config: common(None), headers: headers.clone() });
    assert_eq!(r.headers, headers);
    let r = http_request(&HttpConfig {
        common_config: common(Some(criteria(None))),
        method: "POST".to_string(),
        body: Some("{}".to_string()),
        headers: headers.clone(),
        regex: None,
    });
    assert_eq!(r.method, "POST");
    assert_eq!(r.body, Some("{}".to_string()));
    assert_eq!(r.headers, headers);
    assert_eq!(r.regex, None);
    assert_eq!(r.return_body, Some(true));
    assert!(r.status_codes.is_empty());
    assert_eq!(r.targeting.node_id, Some("node-7".to_string()));
}

#[test]
fn names_of_the_configuration_values() {
    assert_eq!(Policy::default(), Policy::Allowed);
    assert_eq!(Policy::Required.as_ref(), "Required");
    assert_eq!(Policy::Denied.code(), "DENIED");
    assert_eq!(Policy::from_str("Denied"), Some(Policy::Denied));
    assert_eq!(Policy::from_str("denied"), None);
    assert_eq!(ContinentCode::SA.as_ref(), "SA");
    assert_eq!(ContinentCode::from_str("EU"), Some(ContinentCode::EU));
    assert_eq!(ContinentCode::from_str("XX"), None);
    assert_eq!(LookupTypes::default(), LookupTypes::IP);
    assert_eq!(LookupTypes::SOA.as_ref(), "SOA");
    assert_eq!(LookupTypes::SOA.label(), "soa");
    let probe = MetricType::Icmp(IcmpConfig { common_config: common(None) });
    assert_eq!(probe.as_ref(), "Icmp");
    assert_eq!(common(None).label(), "example.com");
    let mut named = common(None);
    named.name = Some("site".to_string());
    assert_eq!(named.label(), "site");
}

#[test]
fn spans_of_time() {
    assert_eq!(default_metric_clear_timeout(), Duration { secs: 10, nanos: 0 });
    assert_eq!(Duration::from_secs(3).as_secs(), 3);
    assert_eq!(Duration::from_millis(2750), Duration { secs: 2, nanos: 750_000_000 });
    assert_eq!(Duration::from_millis(2750).subsec_nanos(), 750_000_000);
    assert_eq!(Duration::from_millis(u64::MAX).as_secs(), u64::MAX / 1000);
}
