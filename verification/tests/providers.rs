use probe_metrics::collectors::dns::address::{parse_address, IpAddress};
use probe_metrics::collectors::dns::{
    build_provider_map, classify_provider, clean_server, identify_dns_providers, label_address,
    pack_groups, pack_octets,
};

#[test]
fn parses_dotted_decimal() {
    assert_eq!(parse_address("8.8.8.8"), Some(IpAddress::V4([8, 8, 8, 8])));
    assert_eq!(parse_address("255.0.10.199"), Some(IpAddress::V4([255, 0, 10, 199])));
    assert_eq!(parse_address("256.0.0.1"), None);
    assert_eq!(parse_address("01.2.3.4"), None);
    assert_eq!(parse_address("1.2.3"), None);
    assert_eq!(parse_address("1.2.3.4.5"), None);
    assert_eq!(parse_address("1.2.3."), None);
    assert_eq!(parse_address(""), None);
    assert_eq!(parse_address("1.2.3.4 "), None);
}

#[test]
fn parses_colon_hex() {
    assert_eq!(parse_address("::1"), Some(IpAddress::V6([0, 0, 0, 0, 0, 0, 0, 1])));
    assert_eq!(parse_address("::"), Some(IpAddress::V6([0; 8])));
    assert_eq!(
        parse_address("2001:4860:4860::8888"),
        Some(IpAddress::V6([0x2001, 0x4860, 0x4860, 0, 0, 0, 0, 0x8888]))
    );
    assert_eq!(
        parse_address("1:2:3:4:5:6:7:8"),
        Some(IpAddress::V6([1, 2, 3, 4, 5, 6, 7, 8]))
    );
    assert_eq!(
        parse_address("1:2:3:4:5:6:1.2.3.4"),
        Some(IpAddress::V6([1, 2, 3, 4, 5, 6, 0x0102, 0x0304]))
    );
    assert_eq!(
        parse_address("::ffff:10.0.0.1"),
        Some(IpAddress::V6([0, 0, 0, 0, 0, 0xffff, 0x0a00, 0x0001]))
    );
    assert_eq!(
        parse_address("FE80::AbCd"),
        Some(IpAddress::V6([0xfe80, 0, 0, 0, 0, 0, 0, 0xabcd]))
    );
    assert_eq!(parse_address("1:2:3:4:5:6:7::"), Some(IpAddress::V6([1, 2, 3, 4, 5, 6, 7, 0])));
    assert_eq!(parse_address("1:2:3:4:5:6:7:8::"), None);
    assert_eq!(parse_address("1::2::3"), None);
    assert_eq!(parse_address(":::"), None);
    assert_eq!(parse_address("1:2:3"), None);
    assert_eq!(parse_address("12345::"), None);
    assert_eq!(parse_address("1.2.3.4::"), None);
    assert_eq!(parse_address("::1.2.3.4:5"), None);
    assert_eq!(parse_address("g::"), None);
}

#[test]
fn double_colon_stands_for_at_least_one_group() {
    assert_eq!(parse_address("::2:3:4:5:6:7:8"), Some(IpAddress::V6([0, 2, 3, 4, 5, 6, 7, 8])));
    assert_eq!(parse_address("::1:2:3:4:5:6:7:8"), None);
    assert_eq!(parse_address("1:2:3::5:6:7:8"), Some(IpAddress::V6([1, 2, 3, 0, 5, 6, 7, 8])));
    assert_eq!(parse_address("1:2:3:4::5:6:7:8"), None);
    assert_eq!(parse_address("1::8"), Some(IpAddress::V6([1, 0, 0, 0, 0, 0, 0, 8])));
    assert_eq!(parse_address("1:2:3:4:5::1.2.3.4"), Some(IpAddress::V6([1, 2, 3, 4, 5, 0, 0x102, 0x304])));
    assert_eq!(parse_address("1:2:3:4:5:6::1.2.3.4"), None);
    assert_eq!(parse_address("::1.2.3.4"), Some(IpAddress::V6([0, 0, 0, 0, 0, 0, 0x102, 0x304])));
    assert_eq!(parse_address("1:2:3:4:5:6:7:1.2.3.4"), None);
    assert_eq!(parse_address("1:2:3:4:5:1.2.3.4"), None);
    assert_eq!(parse_address("::01.2.3.4"), None);
    assert_eq!(parse_address("::1.2.3.256"), None);
    assert_eq!(parse_address("0000:0000:0000:0000:0000:0000:0000:0001"), Some(IpAddress::V6([0, 0, 0, 0, 0, 0, 0, 1])));
    assert_eq!(parse_address("1:"), None);
    assert_eq!(parse_address(":1"), None);
    assert_eq!(parse_address(":"), None);
    assert_eq!(parse_address("fe80::1%eth0"), None);
    assert_eq!(parse_address("[::1]"), None);
    assert_eq!(parse_address("1.2.3.4.::"), None);
    assert_eq!(parse_address("+1.2.3.4"), None);
    assert_eq!(parse_address("1.2.3.-4"), None);
    assert_eq!(parse_address("1..3.4"), None);
    assert_eq!(parse_address("0.0.0.0"), Some(IpAddress::V4([0, 0, 0, 0])));
    assert_eq!(parse_address("00.0.0.0"), None);
    assert_eq!(parse_address("1.2.3.0004"), None);
}

#[test]
fn classifies_special_ranges() {
    assert_eq!(classify_provider("127.0.0.53"), "Localhost");
    assert_eq!(classify_provider("::1"), "Localhost");
    assert_eq!(classify_provider("10.1.2.3"), "Private Network (10.0.0.0/8)");
    assert_eq!(classify_provider("172.20.0.1"), "Private Network (172.16.0.0/12)");
    assert_eq!(classify_provider("192.168.1.1"), "Home Network (192.168.0.0/16)");
    assert_eq!(classify_provider("169.254.1.1"), "Link-local Network");
    assert_eq!(classify_provider("100.100.100.100"), "Tailscale");
    assert_eq!(classify_provider("fd00::1"), "Unique Local Address");
    assert_eq!(classify_provider("fe80::1"), "Link-local Network");
}

#[test]
fn classifies_known_resolvers() {
    assert_eq!(classify_provider("8.8.8.8"), "Google");
    assert_eq!(classify_provider("1.1.1.1"), "Cloudflare");
    assert_eq!(classify_provider("9.9.9.9"), "Quad9");
    assert_eq!(classify_provider("208.67.222.222"), "OpenDNS");
    assert_eq!(classify_provider("94.140.14.14"), "AdGuard");
    assert_eq!(classify_provider("45.90.28.0"), "NextDNS");
    assert_eq!(classify_provider("45.90.30.241"), "NextDNS");
    assert_eq!(classify_provider("2a07:a8c0::f1"), "NextDNS");
    assert_eq!(classify_provider("2a07:a8c1::2a"), "NextDNS");
    assert_eq!(classify_provider("2606:4700:4700::1111"), "Cloudflare");
}

#[test]
fn classifies_by_coarse_bucket() {
    assert_eq!(classify_provider("0.1.2.3"), "Reserved Range");
    assert_eq!(classify_provider("192.0.2.1"), "Reserved Range");
    assert_eq!(classify_provider("198.51.100.1"), "Reserved Range");
    assert_eq!(classify_provider("24.1.1.1"), "ISP DNS");
    assert_eq!(classify_provider("45.90.28.7"), "ISP DNS");
    assert_eq!(classify_provider("5.5.5.5"), "Unknown Public DNS");
    assert_eq!(classify_provider("101.1.1.1"), "Unknown Public DNS");
    assert_eq!(classify_provider("150.1.1.1"), "Enterprise DNS");
    assert_eq!(classify_provider("200.1.1.1"), "Unknown Public DNS");
    assert_eq!(classify_provider("2001:db8::1"), "Known IPv6 DNS Provider");
    assert_eq!(classify_provider("2a00::1"), "ISP IPv6 DNS");
    assert_eq!(classify_provider("4000::1"), "Unknown IPv6 DNS");
    assert_eq!(classify_provider("2001:4860:4861::8888"), "Known IPv6 DNS Provider");
    assert_eq!(classify_provider("::ffff:8.8.8.8"), "Unknown IPv6 DNS");
    assert_eq!(classify_provider("::8.8.8.8"), "Unknown IPv6 DNS");
}

#[test]
fn label_goes_by_the_address_and_not_by_its_spelling() {
    for text in [
        "2001:4860:4860::8888",
        "2001:4860:4860:0::8888",
        "2001:4860:4860:0:0:0:0:8888",
        "2001:4860:4860:0000:0000:0000:0000:8888",
        "2001:4860:4860::0:8888",
        "2001:4860:4860::0.0.136.136",
        "2001:4860:4860:0:0:0:0.0.136.136",
    ] {
        assert_eq!(classify_provider(text), "Google");
    }
    assert_eq!(classify_provider("2A10:50C0::AD1:FF"), "AdGuard");
    assert_eq!(classify_provider("2a10:50c0:0:0:0:0:0ad1:00ff"), "AdGuard");
    assert_eq!(classify_provider("2620:00FE::FE"), "Quad9");
    assert_eq!(classify_provider("2620:fe::0009"), "Quad9");
    assert_eq!(classify_provider("2606:4700:4700:0:0:0:0:1111"), "Cloudflare");
    assert_eq!(classify_provider("2620:119:35:0::35"), "OpenDNS");
    assert_eq!(classify_provider("2a07:a8c0::"), "NextDNS");
    assert_eq!(classify_provider("2a07:a8c0:0::F1"), "NextDNS");
    assert_eq!(classify_provider("2A07:A8C1::00e9"), "NextDNS");
    assert_eq!(classify_provider("2a07:a8c1::f2"), "ISP IPv6 DNS");
    assert_eq!(classify_provider("2a07:a8c0::1:1"), "ISP IPv6 DNS");
    let ips = vec!["2001:4860:4860:0:0:0:0:8888".to_string(), "8.8.8.8".to_string()];
    assert_eq!(identify_dns_providers(&ips), vec!["Google".to_string()]);
}

#[test]
fn malformed_input_gets_the_invalid_bucket() {
    assert_eq!(classify_provider(""), "Invalid IP");
    assert_eq!(classify_provider("dns.google"), "Invalid IP");
    assert_eq!(classify_provider("8.8.8.8:53"), "Invalid IP");
    assert_eq!(classify_provider("1.2.3.4\u{e9}"), "Invalid IP");
}

#[test]
fn provider_table_holds_every_entry() {
    let table = build_provider_map();
    let operator = |addr: IpAddress| table.get(&addr).map(|s| s.as_str());
    let named = [
        ("8.8.8.8", "Google"),
        ("8.8.4.4", "Google"),
        ("2001:4860:4860::8888", "Google"),
        ("2001:4860:4860::8844", "Google"),
        ("1.1.1.1", "Cloudflare"),
        ("1.0.0.1", "Cloudflare"),
        ("1.1.1.2", "Cloudflare"),
        ("1.0.0.2", "Cloudflare"),
        ("2606:4700:4700::1111", "Cloudflare"),
        ("2606:4700:4700::1001", "Cloudflare"),
        ("2606:4700:4700::1112", "Cloudflare"),
        ("2606:4700:4700::1002", "Cloudflare"),
        ("9.9.9.9", "Quad9"),
        ("149.112.112.112", "Quad9"),
        ("2620:fe::fe", "Quad9"),
        ("2620:fe::9", "Quad9"),
        ("208.67.222.222", "OpenDNS"),
        ("208.67.220.220", "OpenDNS"),
        ("2620:119:35::35", "OpenDNS"),
        ("2620:119:53::53", "OpenDNS"),
        ("94.140.14.14", "AdGuard"),
        ("94.140.15.15", "AdGuard"),
        ("2a10:50c0::ad1:ff", "AdGuard"),
        ("2a10:50c0::ad2:ff", "AdGuard"),
    ];
    for (text, name) in named {
        assert_eq!(operator(parse_address(text).unwrap()), Some(name));
    }
    let hosts = [0u8, 1, 11, 42, 68, 99, 139, 165, 185, 216, 233, 241];
    for n in 0..=255u8 {
        let expected = if hosts.contains(&n) { Some("NextDNS") } else { None };
        assert_eq!(operator(IpAddress::V4([45, 90, 28, n])), expected);
        assert_eq!(operator(IpAddress::V4([45, 90, 30, n])), expected);
        assert_eq!(operator(IpAddress::V4([45, 90, 29, n])), None);
        assert_eq!(operator(IpAddress::V6([0x2a07, 0xa8c0, 0, 0, 0, 0, 0, n as u16])), expected);
        assert_eq!(operator(IpAddress::V6([0x2a07, 0xa8c1, 0, 0, 0, 0, 0, n as u16])), expected);
        assert_eq!(operator(IpAddress::V6([0x2a07, 0xa8c0, 0, 0, 0, 0, 1, n as u16])), None);
        for text in [format!("45.90.28.{}", n), format!("2a07:a8c1::{:x}", n)] {
            assert_eq!(operator(parse_address(&text).unwrap()), expected);
        }
    }
    assert_eq!(operator(IpAddress::V4([8, 8, 8, 9])), None);
    assert_eq!(operator(IpAddress::V6([0, 0, 0, 0, 0, 0, 0x0808, 0x0808])), None);
    assert_eq!(operator(IpAddress::V6([0, 0, 0, 0, 0, 0xffff, 0x0808, 0x0808])), None);
}

#[test]
fn addresses_are_packed_into_their_numbers() {
    assert_eq!(pack_octets(8, 8, 4, 4), 0x0808_0404);
    assert_eq!(pack_octets(255, 255, 255, 255), u32::MAX);
    assert_eq!(pack_octets(0, 0, 0, 1), 1);
    assert_eq!(
        pack_groups(0x2001, 0x4860, 0x4860, 0, 0, 0, 0, 0x8888),
        0x2001_4860_4860_0000_0000_0000_0000_8888
    );
    assert_eq!(pack_groups(0xffff, 0xffff, 0xffff, 0xffff, 0xffff, 0xffff, 0xffff, 0xffff), u128::MAX);
    assert_eq!(
        label_address(&build_provider_map(), &IpAddress::V4([149, 112, 112, 112])),
        "Quad9"
    );
}

#[test]
fn strips_transport_decorations() {
    assert_eq!(clean_server("udp:8.8.8.8:53"), "8.8.8.8");
    assert_eq!(clean_server("tcp:1.1.1.1:53"), "1.1.1.1");
    assert_eq!(clean_server("8.8.4.4:53"), "8.8.4.4");
    assert_eq!(clean_server("udp:9.9.9.9"), "9.9.9.9");
    assert_eq!(clean_server("udp:2606:4700:4700::1111:53"), "2606:4700:4700::1111");
    assert_eq!(clean_server("udp:2620:119:53::53"), "2620:119:53::53");
    assert_eq!(clean_server("tcp:2001:db8::1"), "2001:db8::1");
    assert_eq!(clean_server("udp:1:2:3:4:5:6:7:8:53"), "1:2:3:4:5:6:7:8");
}

#[test]
fn address_without_decoration_is_left_as_it_is() {
    for text in [
        "9.9.9.9",
        "2620:119:53::53",
        "2620:119:35::35",
        "2001:db8::53",
        "::53",
        "1::53:53",
        "fe80::1",
    ] {
        assert_eq!(clean_server(text), text);
    }
    assert_eq!(classify_provider(&clean_server("2620:119:53::53")), "OpenDNS");
}

#[test]
fn only_one_protocol_and_only_a_trailing_port_are_taken_off() {
    assert_eq!(clean_server("udp:udp:1.1.1.1"), "udp:1.1.1.1");
    assert_eq!(clean_server("tcp:udp:1.1.1.1:53"), "udp:1.1.1.1:53");
    assert_eq!(clean_server("1.1:53.1.1"), "1.1:53.1.1");
    assert_eq!(clean_server("resolver.local:53"), "resolver.local:53");
    assert_eq!(clean_server("udp:resolver.local:53"), "resolver.local:53");
    assert_eq!(clean_server("1.1.1.1:5353"), "1.1.1.1:5353");
    assert_eq!(clean_server(":53"), ":53");
    assert_eq!(clean_server(""), "");
    assert_eq!(clean_server("udp:"), "");
}

#[test]
fn two_resolvers_give_two_providers() {
    let ips = vec!["8.8.8.8".to_string(), "1.1.1.1".to_string()];
    assert_eq!(identify_dns_providers(&ips), vec!["Google".to_string(), "Cloudflare".to_string()]);
}

#[test]
fn providers_are_deduplicated_and_invalid_skipped() {
    let ips = vec![
        "8.8.8.8".to_string(),
        "not an address".to_string(),
        "8.8.4.4".to_string(),
        "10.0.0.1".to_string(),
        "2001:4860:4860::8888".to_string(),
    ];
    assert_eq!(
        identify_dns_providers(&ips),
        vec!["Google".to_string(), "Private Network (10.0.0.0/8)".to_string()]
    );
    assert_eq!(identify_dns_providers(&Vec::new()), Vec::<String>::new());
}
