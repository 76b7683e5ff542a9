use probe_metrics::collectors::dns::errors::{DnsErrorParser, DnsErrorType, DnsRecordType};

#[test]
fn parses_missing_records_once_per_type() {
    let message = "no record found for Query { name: Name(\"example.com.\"), query_type: A, query_class: IN }\n\
                   no record found for Query { name: Name(\"example.com.\"), query_type: AAAA, query_class: IN }\n\
                   no record found for Query { name: Name(\"other.com.\"), query_type: A, query_class: IN }";
    assert_eq!(
        DnsErrorParser::parse(message),
        vec![
            DnsErrorType::NoRecord(DnsRecordType::A),
            DnsErrorType::NoRecord(DnsRecordType::AAAA),
        ]
    );
}

#[test]
fn parses_each_record_type() {
    for (name, expected) in [
        ("A", DnsRecordType::A),
        ("AAAA", DnsRecordType::AAAA),
        ("MX", DnsRecordType::MX),
        ("TXT", DnsRecordType::TXT),
        ("NS", DnsRecordType::NS),
        ("SOA", DnsRecordType::SOA),
        ("SRV", DnsRecordType::SRV),
        ("TLSA", DnsRecordType::TLSA),
        ("CAA", DnsRecordType::Unknown),
    ] {
        let line = format!("no record found for Query {{ query_type: {}, query_class: IN }}", name);
        assert_eq!(DnsErrorParser::parse_no_record_error(&line), Some(expected));
        assert_eq!(DnsErrorParser::parse(&line), vec![DnsErrorType::NoRecord(expected)]);
    }
    assert_eq!(DnsErrorParser::parse_no_record_error("query_type: A,"), None);
}

#[test]
fn parses_network_and_timeout_lines() {
    assert_eq!(
        DnsErrorParser::parse("  network error: unreachable  \n\n\trequest timed out\r\nsomething else"),
        vec![
            DnsErrorType::NetworkError("network error: unreachable".to_string()),
            DnsErrorType::Timeout("request timed out".to_string()),
            DnsErrorType::Other("something else".to_string()),
        ]
    );
    assert_eq!(
        DnsErrorParser::parse_network_error("tcp connection refused"),
        Some("tcp connection refused".to_string())
    );
    assert_eq!(DnsErrorParser::parse_network_error("timed out"), None);
    assert_eq!(DnsErrorParser::parse_timeout_error("timed out"), Some("timed out".to_string()));
    assert_eq!(DnsErrorParser::parse_timeout_error("refused"), None);
}

#[test]
fn earlier_rules_win() {
    assert_eq!(
        DnsErrorParser::parse("connection refused after it timed out"),
        vec![DnsErrorType::NetworkError("connection refused after it timed out".to_string())]
    );
    assert_eq!(
        DnsErrorParser::parse("network error: no record found for Query query_type: MX, timed out"),
        vec![DnsErrorType::NoRecord(DnsRecordType::MX)]
    );
}

#[test]
fn blank_text_gives_no_error() {
    assert_eq!(DnsErrorParser::parse(""), Vec::<DnsErrorType>::new());
    assert_eq!(DnsErrorParser::parse("\n \r\n\t\n\u{a0}\u{3000}"), Vec::<DnsErrorType>::new());
}

#[test]
fn repeated_lines_of_other_kinds_are_kept() {
    assert_eq!(
        DnsErrorParser::parse("boom\nboom"),
        vec![DnsErrorType::Other("boom".to_string()), DnsErrorType::Other("boom".to_string())]
    );
}

#[test]
fn record_types_have_names() {
    assert_eq!(DnsRecordType::A.to_string(), "A");
    assert_eq!(DnsRecordType::AAAA.to_string(), "AAAA");
    assert_eq!(DnsRecordType::TLSA.to_string(), "TLSA");
    assert_eq!(DnsRecordType::Unknown.to_string(), "UNKNOWN");
}
