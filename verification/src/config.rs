//! The description of the configured probes: built once, then only read.

use vstd::prelude::*;
use crate::text::{decimal, digit_char, digit_text, render_decimal, render_decimal_sum};

verus! {

/// A span of time: whole seconds and a rest in nanoseconds.
#[derive(Clone, Copy, Debug, PartialEq, Eq, Structural)]
pub struct Duration {
    pub secs: u64,
    pub nanos: u32,
}

impl Duration {
    /// The rest stays under one second.
    pub open spec fn wf(self) -> bool {
        self.nanos < 1_000_000_000
    }

    /// The span in nanoseconds.
    pub open spec fn total_nanos(self) -> int {
        self.secs as int * 1_000_000_000 + self.nanos as int
    }

    /// A span of whole seconds.
    pub fn from_secs(secs: u64) -> (d: Duration)
        ensures
            d.wf(),
            d.total_nanos() == secs as int * 1_000_000_000,
    {
        Duration { secs, nanos: 0 }
    }

    /// A span of whole milliseconds.
    pub fn from_millis(millis: u64) -> (d: Duration)
        ensures
            d.wf(),
            d.total_nanos() == millis as int * 1_000_000,
    {
        let rest: u32 = (millis % 1000) as u32;
        Duration { secs: millis / 1000, nanos: rest * 1_000_000 }
    }

    /// The whole seconds of the span.
    pub fn as_secs(&self) -> (secs: u64)
        ensures
            secs == self.secs,
    {
        self.secs
    }

    /// The rest of the span beyond its whole seconds, in nanoseconds.
    pub fn subsec_nanos(&self) -> (nanos: u32)
        ensures
            nanos == self.nanos,
    {
        self.nanos
    }
}

/// The digits of the part of a number below one: `rest` counts units of
/// which ten times `scale` make one; the digits go on until nothing is
/// left, so that none of them is a trailing zero.
pub open spec fn fraction_digits(rest: nat, scale: nat) -> Seq<char>
    decreases scale,
{
    if rest == 0 || scale == 0 {
        Seq::empty()
    } else {
        seq![digit_char((rest / scale) as int)] + fraction_digits(rest % scale, scale / 10)
    }
}

/// The part of a number below one as it is written behind the whole part:
/// a point and the digits, or nothing where nothing is left.
pub open spec fn fraction_text(rest: nat, scale: nat) -> Seq<char> {
    if rest == 0 {
        Seq::empty()
    } else {
        "."@ + fraction_digits(rest, scale)
    }
}

/// A span of time in words, in the largest unit that it fills: seconds,
/// else milliseconds, else microseconds, else nanoseconds; with as many
/// digits behind the point as the span needs. Sixty seconds are `60s`,
/// one and a half seconds `1.5s`, no time at all `0ns`.
pub open spec fn duration_text(d: Duration) -> Seq<char> {
    let whole = d.secs as nat + (d.nanos / 1_000_000_000) as nat;
    let sub = (d.nanos % 1_000_000_000) as nat;
    if whole > 0 {
        decimal(whole) + fraction_text(sub, 100_000_000) + "s"@
    } else if sub >= 1_000_000 {
        decimal(sub / 1_000_000) + fraction_text(sub % 1_000_000, 100_000) + "ms"@
    } else if sub >= 1_000 {
        decimal(sub / 1_000) + fraction_text(sub % 1_000, 100) + "\u{b5}s"@
    } else {
        decimal(sub) + "ns"@
    }
}

/// A power of ten up to a hundred million.
pub open spec fn is_scale(scale: nat) -> bool {
    scale == 1 || scale == 10 || scale == 100 || scale == 1_000 || scale == 10_000 || scale
        == 100_000 || scale == 1_000_000 || scale == 10_000_000 || scale == 100_000_000
}

/// Writes the digits of the part of a number below one.
fn render_fraction_digits(rest: u32, scale: u32) -> (out: String)
    requires
        is_scale(scale as nat),
        rest < 10 * scale,
    ensures
        out@ == fraction_digits(rest as nat, scale as nat),
    decreases scale,
{
    if rest == 0 {
        return String::new();
    }
    let head = String::from_str(digit_text((rest / scale) as u64));
    let left = rest % scale;
    if left == 0 {
        assert(fraction_digits(left as nat, (scale / 10) as nat) =~= Seq::<char>::empty());
        assert(head@ =~= fraction_digits(rest as nat, scale as nat));
        head
    } else {
        let tail = render_fraction_digits(left, scale / 10);
        head.concat(tail.as_str())
    }
}

/// Writes the part of a number below one, with the point in front.
fn render_fraction(rest: u32, scale: u32) -> (out: String)
    requires
        is_scale(scale as nat),
        rest < 10 * scale,
    ensures
        out@ == fraction_text(rest as nat, scale as nat),
{
    if rest == 0 {
        String::new()
    } else {
        String::from_str(".").concat(render_fraction_digits(rest, scale).as_str())
    }
}

impl Duration {
    /// The span in words.
    pub fn to_string(&self) -> (text: String)
        ensures
            text@ == duration_text(*self),
    {
        let carry: u32 = self.nanos / 1_000_000_000;
        let sub: u32 = self.nanos % 1_000_000_000;
        if self.secs > 0 || carry > 0 {
            render_decimal_sum(self.secs, carry as u64).concat(
                render_fraction(sub, 100_000_000).as_str(),
            ).concat("s")
        } else if sub >= 1_000_000 {
            render_decimal((sub / 1_000_000) as u64).concat(
                render_fraction(sub % 1_000_000, 100_000).as_str(),
            ).concat("ms")
        } else if sub >= 1_000 {
            render_decimal((sub / 1_000) as u64).concat(
                render_fraction(sub % 1_000, 100).as_str(),
            ).concat("\u{b5}s")
        } else {
            render_decimal(sub as u64).concat("ns")
        }
    }
}

/// The settings that hold for every probe.
#[derive(Clone, Copy, Debug)]
pub struct GlobalConfig {
    pub metric_clear_timeout: Duration,
}

/// The time after which an idle metric is cleared, where none is
/// configured: ten seconds.
pub fn default_metric_clear_timeout() -> (d: Duration)
    ensures
        d == (Duration { secs: 10, nanos: 0 }),
{
    Duration::from_secs(10)
}

/// Whether vantage points of one sort may, must not or must be used.
#[derive(Clone, Copy, Debug, PartialEq, Eq, Structural)]
pub enum Policy {
    Allowed,
    Denied,
    Required,
}

/// The name of a policy.
pub open spec fn policy_name(p: Policy) -> Seq<char> {
    match p {
        Policy::Allowed => "Allowed"@,
        Policy::Denied => "Denied"@,
        Policy::Required => "Required"@,
    }
}

/// The name of a policy in capitals, as requests carry it.
pub open spec fn policy_code(p: Policy) -> Seq<char> {
    match p {
        Policy::Allowed => "ALLOWED"@,
        Policy::Denied => "DENIED"@,
        Policy::Required => "REQUIRED"@,
    }
}

impl Default for Policy {
    /// The policy that holds where none is configured.
    fn default() -> (p: Policy)
        ensures
            p == Policy::Allowed,
    {
        Policy::Allowed
    }
}

impl Policy {
    /// The name of the policy.
    pub fn as_ref(&self) -> (name: &'static str)
        ensures
            name@ == policy_name(*self),
    {
        match self {
            Policy::Allowed => "Allowed",
            Policy::Denied => "Denied",
            Policy::Required => "Required",
        }
    }

    /// The name of the policy in capitals.
    pub fn code(&self) -> (name: &'static str)
        ensures
            name@ == policy_code(*self),
    {
        match self {
            Policy::Allowed => "ALLOWED",
            Policy::Denied => "DENIED",
            Policy::Required => "REQUIRED",
        }
    }

    /// The policy with the given name.
    pub fn from_str(name: &str) -> (r: Option<Policy>)
        ensures
            match r {
                Some(p) => name@ == policy_name(p),
                None => forall|p: Policy| name@ != policy_name(p),
            },
    {
        if crate::text::same_text(name, "Allowed") {
            Some(Policy::Allowed)
        } else if crate::text::same_text(name, "Denied") {
            Some(Policy::Denied)
        } else if crate::text::same_text(name, "Required") {
            Some(Policy::Required)
        } else {
            None
        }
    }
}

/// A continent, by its two-letter code.
#[derive(Clone, Copy, Debug, PartialEq, Eq, Structural)]
pub enum ContinentCode {
    AF,
    AN,
    AS,
    EU,
    NA,
    OC,
    SA,
}

/// The two-letter code of a continent.
pub open spec fn continent_name(c: ContinentCode) -> Seq<char> {
    match c {
        ContinentCode::AF => "AF"@,
        ContinentCode::AN => "AN"@,
        ContinentCode::AS => "AS"@,
        ContinentCode::EU => "EU"@,
        ContinentCode::NA => "NA"@,
        ContinentCode::OC => "OC"@,
        ContinentCode::SA => "SA"@,
    }
}

impl ContinentCode {
    /// The two-letter code of the continent.
    pub fn as_ref(&self) -> (name: &'static str)
        ensures
            name@ == continent_name(*self),
    {
        match self {
            ContinentCode::AF => "AF",
            ContinentCode::AN => "AN",
            ContinentCode::AS => "AS",
            ContinentCode::EU => "EU",
            ContinentCode::NA => "NA",
            ContinentCode::OC => "OC",
            ContinentCode::SA => "SA",
        }
    }

    /// The continent with the given code.
    pub fn from_str(name: &str) -> (r: Option<ContinentCode>)
        ensures
            match r {
                Some(c) => name@ == continent_name(c),
                None => forall|c: ContinentCode| name@ != continent_name(c),
            },
    {
        if crate::text::same_text(name, "AF") {
            Some(ContinentCode::AF)
        } else if crate::text::same_text(name, "AN") {
            Some(ContinentCode::AN)
        } else if crate::text::same_text(name, "AS") {
            Some(ContinentCode::AS)
        } else if crate::text::same_text(name, "EU") {
            Some(ContinentCode::EU)
        } else if crate::text::same_text(name, "NA") {
            Some(ContinentCode::NA)
        } else if crate::text::same_text(name, "OC") {
            Some(ContinentCode::OC)
        } else if crate::text::same_text(name, "SA") {
            Some(ContinentCode::SA)
        } else {
            None
        }
    }
}

/// The record type that a DNS probe looks up.
#[derive(Clone, Copy, Debug, PartialEq, Eq, Structural)]
pub enum LookupTypes {
    IP,
    MX,
    SOA,
    NS,
    TXT,
    SRV,
    TLSA,
}

/// The name of a lookup type, as requests carry it.
pub open spec fn lookup_name(t: LookupTypes) -> Seq<char> {
    match t {
        LookupTypes::IP => "IP"@,
        LookupTypes::MX => "MX"@,
        LookupTypes::SOA => "SOA"@,
        LookupTypes::NS => "NS"@,
        LookupTypes::TXT => "TXT"@,
        LookupTypes::SRV => "SRV"@,
        LookupTypes::TLSA => "TLSA"@,
    }
}

/// The name of a lookup type as the value of the label `record_type`.
pub open spec fn lookup_label(t: LookupTypes) -> Seq<char> {
    match t {
        LookupTypes::IP => "ip"@,
        LookupTypes::MX => "mx"@,
        LookupTypes::SOA => "soa"@,
        LookupTypes::NS => "ns"@,
        LookupTypes::TXT => "txt"@,
        LookupTypes::SRV => "srv"@,
        LookupTypes::TLSA => "tlsa"@,
    }
}

impl Default for LookupTypes {
    /// The lookup type that holds where none is configured: addresses.
    fn default() -> (t: LookupTypes)
        ensures
            t == LookupTypes::IP,
    {
        LookupTypes::IP
    }
}

impl LookupTypes {
    /// The name of the lookup type.
    pub fn as_ref(&self) -> (name: &'static str)
        ensures
            name@ == lookup_name(*self),
    {
        match self {
            LookupTypes::IP => "IP",
            LookupTypes::MX => "MX",
            LookupTypes::SOA => "SOA",
            LookupTypes::NS => "NS",
            LookupTypes::TXT => "TXT",
            LookupTypes::SRV => "SRV",
            LookupTypes::TLSA => "TLSA",
        }
    }

    /// The value of the label `record_type` for the lookup type.
    pub fn label(&self) -> (name: &'static str)
        ensures
            name@ == lookup_label(*self),
    {
        match self {
            LookupTypes::IP => "ip",
            LookupTypes::MX => "mx",
            LookupTypes::SOA => "soa",
            LookupTypes::NS => "ns",
            LookupTypes::TXT => "txt",
            LookupTypes::SRV => "srv",
            LookupTypes::TLSA => "tlsa",
        }
    }
}

/// Which vantage points a probe may run on.
#[derive(Clone, Debug)]
pub struct NetworkCriteria {
    pub proxy: Policy,
    pub mobile: Policy,
    pub residential: Policy,
    /// The country, by its three-letter code.
    pub country_code: Option<String>,
    pub continent_code: Option<ContinentCode>,
    pub isp_regex: Option<String>,
    pub node_id: Option<String>,
}

/// What every probe is configured with.
#[derive(Clone, Debug)]
pub struct MetricConfig {
    pub prefix: String,
    pub name: Option<String>,
    pub endpoint: String,
    pub frequency: Duration,
    pub network: Option<NetworkCriteria>,
}

/// The name under which the samples of a probe are labelled: the
/// configured name, else the endpoint.
pub open spec fn endpoint_label(config: MetricConfig) -> Seq<char> {
    match config.name {
        Some(name) => name@,
        None => config.endpoint@,
    }
}

impl MetricConfig {
    /// The name under which the samples of the probe are labelled.
    pub fn label(&self) -> (name: &String)
        ensures
            name@ == endpoint_label(*self),
    {
        match &self.name {
            Some(name) => name,
            None => &self.endpoint,
        }
    }
}

/// A DNS probe.
#[derive(Clone, Debug)]
pub struct DnsConfig {
    pub common_config: MetricConfig,
    pub lookup_type: LookupTypes,
}

/// An ICMP probe.
#[derive(Clone, Debug)]
pub struct IcmpConfig {
    pub common_config: MetricConfig,
}

/// An HLS probe, with the headers that its requests carry.
#[derive(Clone, Debug)]
pub struct HlsConfig {
    pub common_config: MetricConfig,
    pub headers: Vec<(String, String)>,
}

/// An HTTP probe.
#[derive(Clone, Debug)]
pub struct HttpConfig {
    pub common_config: MetricConfig,
    pub method: String,
    pub body: Option<String>,
    pub headers: Vec<(String, String)>,
    pub regex: Option<String>,
}

/// One configured probe, by its kind.
#[derive(Clone, Debug)]
pub enum MetricType {
    Dns(DnsConfig),
    Icmp(IcmpConfig),
    Hls(HlsConfig),
    Http(HttpConfig),
}

/// The name of the kind of a probe.
pub open spec fn kind_name(m: MetricType) -> Seq<char> {
    match m {
        MetricType::Dns(_) => "Dns"@,
        MetricType::Icmp(_) => "Icmp"@,
        MetricType::Hls(_) => "Hls"@,
        MetricType::Http(_) => "Http"@,
    }
}

impl MetricType {
    /// The name of the kind of the probe.
    pub fn as_ref(&self) -> (name: &'static str)
        ensures
            name@ == kind_name(*self),
    {
        match self {
            MetricType::Dns(_) => "Dns",
            MetricType::Icmp(_) => "Icmp",
            MetricType::Hls(_) => "Hls",
            MetricType::Http(_) => "Http",
        }
    }
}

/// The whole configuration: the probes and the global settings.
#[derive(Clone, Debug)]
pub struct Conf {
    pub metrics: Vec<MetricType>,
    pub global_config: GlobalConfig,
}

} // verus!
