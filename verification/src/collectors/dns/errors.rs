//! The error text of a failed DNS lookup, read line by line.

use vstd::prelude::*;
use crate::text::{chars_of, contains, occurs_in, split, split_ranges, trim_range, trimmed};

verus! {

/// One error that a resolver reported.
#[derive(Debug, Clone, PartialEq, Eq)]
pub enum DnsErrorType {
    NoRecord(DnsRecordType),
    NetworkError(String),
    ConfigurationError(String),
    Timeout(String),
    Other(String),
}

/// The record type that a query asked for.
#[derive(Debug, Clone, Copy, PartialEq, Eq, Hash, Structural)]
pub enum DnsRecordType {
    A,
    AAAA,
    MX,
    TXT,
    NS,
    SOA,
    SRV,
    TLSA,
    Unknown,
}

/// What an error holds, as plain values.
pub ghost enum DnsErrorModel {
    NoRecord(DnsRecordType),
    NetworkError(Seq<char>),
    ConfigurationError(Seq<char>),
    Timeout(Seq<char>),
    Other(Seq<char>),
}

impl View for DnsErrorType {
    type V = DnsErrorModel;

    open spec fn view(&self) -> DnsErrorModel {
        match self {
            DnsErrorType::NoRecord(t) => DnsErrorModel::NoRecord(*t),
            DnsErrorType::NetworkError(s) => DnsErrorModel::NetworkError(s@),
            DnsErrorType::ConfigurationError(s) => DnsErrorModel::ConfigurationError(s@),
            DnsErrorType::Timeout(s) => DnsErrorModel::Timeout(s@),
            DnsErrorType::Other(s) => DnsErrorModel::Other(s@),
        }
    }
}

/// What a list of errors holds, as plain values.
pub open spec fn errors_view(errors: Seq<DnsErrorType>) -> Seq<DnsErrorModel> {
    errors.map_values(|e: DnsErrorType| e@)
}

/// The name of a record type, as it is written in queries.
pub open spec fn record_type_name(t: DnsRecordType) -> Seq<char> {
    match t {
        DnsRecordType::A => "A"@,
        DnsRecordType::AAAA => "AAAA"@,
        DnsRecordType::MX => "MX"@,
        DnsRecordType::TXT => "TXT"@,
        DnsRecordType::NS => "NS"@,
        DnsRecordType::SOA => "SOA"@,
        DnsRecordType::SRV => "SRV"@,
        DnsRecordType::TLSA => "TLSA"@,
        DnsRecordType::Unknown => "UNKNOWN"@,
    }
}

impl DnsRecordType {
    /// The name of the record type.
    pub fn to_string(&self) -> (name: String)
        ensures
            name@ == record_type_name(*self),
    {
        match self {
            DnsRecordType::A => String::from_str("A"),
            DnsRecordType::AAAA => String::from_str("AAAA"),
            DnsRecordType::MX => String::from_str("MX"),
            DnsRecordType::TXT => String::from_str("TXT"),
            DnsRecordType::NS => String::from_str("NS"),
            DnsRecordType::SOA => String::from_str("SOA"),
            DnsRecordType::SRV => String::from_str("SRV"),
            DnsRecordType::TLSA => String::from_str("TLSA"),
            DnsRecordType::Unknown => String::from_str("UNKNOWN"),
        }
    }
}

/// The record type that a line names as the type of its query.
pub open spec fn queried_type(line: Seq<char>) -> DnsRecordType {
    if occurs_in(line, "query_type: A,"@) {
        DnsRecordType::A
    } else if occurs_in(line, "query_type: AAAA,"@) {
        DnsRecordType::AAAA
    } else if occurs_in(line, "query_type: MX,"@) {
        DnsRecordType::MX
    } else if occurs_in(line, "query_type: TXT,"@) {
        DnsRecordType::TXT
    } else if occurs_in(line, "query_type: NS,"@) {
        DnsRecordType::NS
    } else if occurs_in(line, "query_type: SOA,"@) {
        DnsRecordType::SOA
    } else if occurs_in(line, "query_type: SRV,"@) {
        DnsRecordType::SRV
    } else if occurs_in(line, "query_type: TLSA,"@) {
        DnsRecordType::TLSA
    } else {
        DnsRecordType::Unknown
    }
}

/// Whether a line reports that no record was found.
pub open spec fn reports_no_record(line: Seq<char>) -> bool {
    occurs_in(line, "no record found for Query"@)
}

/// Whether a line reports a failure of the network.
pub open spec fn reports_network_error(line: Seq<char>) -> bool {
    occurs_in(line, "network error"@) || occurs_in(line, "connection refused"@)
}

/// Whether a line reports a timeout.
pub open spec fn reports_timeout(line: Seq<char>) -> bool {
    occurs_in(line, "timed out"@)
}

/// The error that one line stands for: a missing record before a network
/// failure, that before a timeout, and anything else as it is.
pub open spec fn line_error(line: Seq<char>) -> DnsErrorModel {
    if reports_no_record(line) {
        DnsErrorModel::NoRecord(queried_type(line))
    } else if reports_network_error(line) {
        DnsErrorModel::NetworkError(line)
    } else if reports_timeout(line) {
        DnsErrorModel::Timeout(line)
    } else {
        DnsErrorModel::Other(line)
    }
}

/// The errors that a list of lines stands for, in order. Each line counts
/// without the white space around it; a blank line counts for nothing; a
/// missing record of one type is reported once.
pub open spec fn parsed_lines(lines: Seq<Seq<char>>) -> Seq<DnsErrorModel>
    decreases lines.len(),
{
    if lines.len() == 0 {
        Seq::empty()
    } else {
        let before = parsed_lines(lines.drop_last());
        let line = trimmed(lines.last());
        let error = line_error(line);
        if line.len() == 0 || (error is NoRecord && before.contains(error)) {
            before
        } else {
            before.push(error)
        }
    }
}

/// The errors that an error text stands for, line by line.
pub open spec fn parsed_message(message: Seq<char>) -> Seq<DnsErrorModel> {
    parsed_lines(split(message, '\n'))
}

/// Whether `errors` reports a missing record of type `t`.
fn reported(errors: &Vec<DnsErrorType>, t: DnsRecordType) -> (b: bool)
    ensures
        b == errors_view(errors@).contains(DnsErrorModel::NoRecord(t)),
{
    let mut i: usize = 0;
    while i < errors.len()
        invariant
            i <= errors@.len(),
            forall|j: int| 0 <= j < i ==> errors_view(errors@)[j] != DnsErrorModel::NoRecord(t),
        decreases errors.len() - i,
    {
        match &errors[i] {
            DnsErrorType::NoRecord(seen) => {
                if *seen == t {
                    assert(errors_view(errors@)[i as int] == DnsErrorModel::NoRecord(t));
                    return true;
                }
            },
            _ => {},
        }
        i += 1;
    }
    false
}

/// Reads the error text of a DNS lookup.
pub struct DnsErrorParser;

impl DnsErrorParser {
    /// The errors that `error_message` reports, one for each line that is
    /// not blank, in order; a missing record of one type is reported once.
    pub fn parse(error_message: &str) -> (errors: Vec<DnsErrorType>)
        ensures
            errors_view(errors@) == parsed_message(error_message@),
    {
        let chars = chars_of(error_message);
        assert(chars@.subrange(0, chars@.len() as int) =~= chars@);
        let lines = split_ranges(&chars, 0, chars.len(), '\n');
        let ghost pieces = split(error_message@, '\n');
        let mut errors: Vec<DnsErrorType> = Vec::new();
        let mut i: usize = 0;
        assert(pieces.take(0) =~= Seq::<Seq<char>>::empty());
        assert(errors_view(errors@) =~= Seq::<DnsErrorModel>::empty());
        while i < lines.len()
            invariant
                i <= lines@.len(),
                chars@ == error_message@,
                lines@.len() == pieces.len(),
                forall|k: int|
                    0 <= k < lines@.len() ==> (#[trigger] lines@[k]).0 <= lines@[k].1
                        <= chars@.len() && chars@.subrange(
                        lines@[k].0 as int,
                        lines@[k].1 as int,
                    ) == pieces[k],
                errors_view(errors@) == parsed_lines(pieces.take(i as int)),
            decreases lines.len() - i,
        {
            let ghost prefix = pieces.take(i + 1);
            assert(prefix.drop_last() =~= pieces.take(i as int));
            assert(prefix.last() == pieces[i as int]);
            let ghost before = errors_view(errors@);
            let (a, b) = trim_range(&chars, lines[i].0, lines[i].1);
            assert(chars@.subrange(lines@[i as int].0 as int, lines@[i as int].1 as int)
                == pieces[i as int]);
            if a < b {
                let line = error_message.substring_char(a, b);
                assert(line@ == trimmed(pieces[i as int]));
                match Self::parse_no_record_error(line) {
                    Some(t) => {
                        if !reported(&errors, t) {
                            errors.push(DnsErrorType::NoRecord(t));
                            assert(errors_view(errors@) =~= before.push(
                                DnsErrorModel::NoRecord(t),
                            ));
                        }
                    },
                    None => {
                        match Self::parse_network_error(line) {
                            Some(e) => {
                                errors.push(DnsErrorType::NetworkError(e));
                                assert(errors_view(errors@) =~= before.push(line_error(line@)));
                            },
                            None => match Self::parse_timeout_error(line) {
                                Some(e) => {
                                    errors.push(DnsErrorType::Timeout(e));
                                    assert(errors_view(errors@) =~= before.push(
                                        line_error(line@),
                                    ));
                                },
                                None => {
                                    errors.push(DnsErrorType::Other(String::from_str(line)));
                                    assert(errors_view(errors@) =~= before.push(
                                        line_error(line@),
                                    ));
                                },
                            },
                        }
                    },
                }
            } else {
                assert(chars@.subrange(a as int, b as int).len() == 0);
            }
            i += 1;
        }
        assert(pieces.take(i as int) =~= pieces);
        errors
    }

    /// The record type of the query, where `line` reports that no record
    /// was found.
    pub fn parse_no_record_error(line: &str) -> (r: Option<DnsRecordType>)
        ensures
            r == (if reports_no_record(line@) {
                Some(queried_type(line@))
            } else {
                None
            }),
    {
        if contains(line, "no record found for Query") {
            let record_type = if contains(line, "query_type: A,") {
                DnsRecordType::A
            } else if contains(line, "query_type: AAAA,") {
                DnsRecordType::AAAA
            } else if contains(line, "query_type: MX,") {
                DnsRecordType::MX
            } else if contains(line, "query_type: TXT,") {
                DnsRecordType::TXT
            } else if contains(line, "query_type: NS,") {
                DnsRecordType::NS
            } else if contains(line, "query_type: SOA,") {
                DnsRecordType::SOA
            } else if contains(line, "query_type: SRV,") {
                DnsRecordType::SRV
            } else if contains(line, "query_type: TLSA,") {
                DnsRecordType::TLSA
            } else {
                DnsRecordType::Unknown
            };
            Some(record_type)
        } else {
            None
        }
    }

    /// The line itself, where it reports a failure of the network.
    pub fn parse_network_error(line: &str) -> (r: Option<String>)
        ensures
            match r {
                Some(text) => reports_network_error(line@) && text@ == line@,
                None => !reports_network_error(line@),
            },
    {
        if contains(line, "network error") || contains(line, "connection refused") {
            Some(String::from_str(line))
        } else {
            None
        }
    }

    /// The line itself, where it reports a timeout.
    pub fn parse_timeout_error(line: &str) -> (r: Option<String>)
        ensures
            match r {
                Some(text) => reports_timeout(line@) && text@ == line@,
                None => !reports_timeout(line@),
            },
    {
        if contains(line, "timed out") {
            Some(String::from_str(line))
        } else {
            None
        }
    }
}

} // verus!
