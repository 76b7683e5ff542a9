//! The requests that the collectors send to the measurement service, as
//! plain values: which vantage points may run the probe, and what the kind
//! of the probe adds.

use vstd::prelude::*;
use crate::text::texts_of;
use crate::config::{
    DnsConfig, HlsConfig, HttpConfig, IcmpConfig, MetricConfig, Policy, continent_name,
    lookup_name, policy_code,
};

verus! {

/// The two-letter code of the country with the three-letter code `alpha3`,
/// where there is such a country.
pub uninterp spec fn alpha2_code(alpha3: Seq<char>) -> Option<Seq<char>>;

/// `Alpha3::try_from` and `Alpha3::to_alpha2` of the crate keshvar: the
/// country with the given three-letter code, written by its two-letter
/// code; `None` where the crate knows no such country. The result depends
/// on the text alone.
#[verifier::external_body]
fn alpha2_of(alpha3: &str) -> (r: Option<String>)
    ensures
        match r {
            Some(code) => alpha2_code(alpha3@) == Some(code@),
            None => alpha2_code(alpha3@) is None,
        },
{
    match keshvar::Alpha3::try_from(alpha3) {
        Ok(code) => Some(code.to_alpha2().to_string()),
        Err(_) => None,
    }
}

/// The text of an optional string.
pub open spec fn opt_text(s: Option<String>) -> Option<Seq<char>> {
    match s {
        Some(t) => Some(t@),
        None => None,
    }
}

/// The texts of a list of pairs of strings.
pub open spec fn pair_texts(list: Seq<(String, String)>) -> Seq<(Seq<char>, Seq<char>)> {
    list.map_values(|p: (String, String)| (p.0@, p.1@))
}

/// Which vantage points may run a probe, and against which host.
#[derive(Debug, Clone)]
pub struct Targeting {
    pub hostnames: Vec<String>,
    /// The country, by its two-letter code.
    pub country_code: Option<String>,
    pub continent_code: Option<String>,
    pub mobile: String,
    pub residential: String,
    pub proxy: String,
    pub isp_regex: Option<String>,
    pub node_id: Option<String>,
}

/// What a targeting holds, as plain values.
pub ghost struct TargetingModel {
    pub hostnames: Seq<Seq<char>>,
    pub country_code: Option<Seq<char>>,
    pub continent_code: Option<Seq<char>>,
    pub mobile: Seq<char>,
    pub residential: Seq<char>,
    pub proxy: Seq<char>,
    pub isp_regex: Option<Seq<char>>,
    pub node_id: Option<Seq<char>>,
}

impl View for Targeting {
    type V = TargetingModel;

    open spec fn view(&self) -> TargetingModel {
        TargetingModel {
            hostnames: texts_of(self.hostnames@),
            country_code: opt_text(self.country_code),
            continent_code: opt_text(self.continent_code),
            mobile: self.mobile@,
            residential: self.residential@,
            proxy: self.proxy@,
            isp_regex: opt_text(self.isp_regex),
            node_id: opt_text(self.node_id),
        }
    }
}

/// The targeting of a probe. The one host is the endpoint. Without
/// criteria every policy is `ALLOWED` and nothing else is set. The country
/// goes by its two-letter code, and is left out where its three-letter
/// code names none. The provider pattern and the vantage point are named
/// only where `detailed` holds.
pub open spec fn targeting_of(config: MetricConfig, detailed: bool) -> TargetingModel {
    match config.network {
        Some(n) => TargetingModel {
            hostnames: seq![config.endpoint@],
            country_code: match n.country_code {
                Some(c) => alpha2_code(c@),
                None => None,
            },
            continent_code: match n.continent_code {
                Some(c) => Some(continent_name(c)),
                None => None,
            },
            mobile: policy_code(n.mobile),
            residential: policy_code(n.residential),
            proxy: policy_code(n.proxy),
            isp_regex: if detailed {
                opt_text(n.isp_regex)
            } else {
                None
            },
            node_id: if detailed {
                opt_text(n.node_id)
            } else {
                None
            },
        },
        None => TargetingModel {
            hostnames: seq![config.endpoint@],
            country_code: None,
            continent_code: None,
            mobile: policy_code(Policy::Allowed),
            residential: policy_code(Policy::Allowed),
            proxy: policy_code(Policy::Allowed),
            isp_regex: None,
            node_id: None,
        },
    }
}

/// A copy of an optional string.
fn copy_opt(s: &Option<String>) -> (out: Option<String>)
    ensures
        opt_text(out) == opt_text(*s),
{
    match s {
        Some(t) => Some(t.clone()),
        None => None,
    }
}

/// A copy of a list of pairs of strings.
pub fn copy_pairs(list: &Vec<(String, String)>) -> (out: Vec<(String, String)>)
    ensures
        pair_texts(out@) == pair_texts(list@),
{
    let mut out: Vec<(String, String)> = Vec::new();
    let mut i: usize = 0;
    while i < list.len()
        invariant
            i <= list@.len(),
            out@.len() == i,
            forall|j: int|
                0 <= j < i ==> (#[trigger] out@[j]).0@ == list@[j].0@ && out@[j].1@ == list@[j].1@,
        decreases list.len() - i,
    {
        out.push((list[i].0.clone(), list[i].1.clone()));
        i += 1;
    }
    assert(pair_texts(out@) =~= pair_texts(list@));
    out
}

/// The targeting of a probe.
pub fn make_targeting(config: &MetricConfig, detailed: bool) -> (t: Targeting)
    ensures
        t@ == targeting_of(*config, detailed),
{
    let mut hostnames: Vec<String> = Vec::new();
    hostnames.push(config.endpoint.clone());
    assert(texts_of(hostnames@) =~= seq![config.endpoint@]);
    match &config.network {
        Some(n) => {
            let country_code = match &n.country_code {
                Some(c) => alpha2_of(c.as_str()),
                None => None,
            };
            let continent_code = match &n.continent_code {
                Some(c) => Some(String::from_str(c.as_ref())),
                None => None,
            };
            Targeting {
                hostnames,
                country_code,
                continent_code,
                mobile: String::from_str(n.mobile.code()),
                residential: String::from_str(n.residential.code()),
                proxy: String::from_str(n.proxy.code()),
                isp_regex: if detailed {
                    copy_opt(&n.isp_regex)
                } else {
                    None
                },
                node_id: if detailed {
                    copy_opt(&n.node_id)
                } else {
                    None
                },
            }
        },
        None => Targeting {
            hostnames,
            country_code: None,
            continent_code: None,
            mobile: String::from_str(Policy::default().code()),
            residential: String::from_str(Policy::default().code()),
            proxy: String::from_str(Policy::default().code()),
            isp_regex: None,
            node_id: None,
        },
    }
}

/// The request of a DNS probe.
#[derive(Debug, Clone)]
pub struct DnsRequest {
    pub targeting: Targeting,
    pub dns_servers: Vec<String>,
    pub lookup_types: Vec<String>,
}

/// The request of an ICMP probe.
#[derive(Debug, Clone)]
pub struct IcmpRequest {
    pub targeting: Targeting,
}

/// The request of an HLS probe.
#[derive(Debug, Clone)]
pub struct HlsRequest {
    pub targeting: Targeting,
    pub headers: Vec<(String, String)>,
}

/// The request of an HTTP probe.
#[derive(Debug, Clone)]
pub struct HttpRequest {
    pub targeting: Targeting,
    pub method: String,
    pub body: Option<String>,
    pub headers: Vec<(String, String)>,
    pub regex: Option<String>,
    pub return_body: Option<bool>,
    pub status_codes: Vec<u16>,
}

/// The request of a DNS probe: no resolvers of its own, and the one
/// configured lookup type.
pub fn dns_request(config: &DnsConfig) -> (r: DnsRequest)
    ensures
        r.targeting@ == targeting_of(config.common_config, true),
        r.dns_servers@.len() == 0,
        texts_of(r.lookup_types@) == seq![lookup_name(config.lookup_type)],
{
    let mut lookup_types: Vec<String> = Vec::new();
    lookup_types.push(String::from_str(config.lookup_type.as_ref()));
    assert(texts_of(lookup_types@) =~= seq![lookup_name(config.lookup_type)]);
    DnsRequest {
        targeting: make_targeting(&config.common_config, true),
        dns_servers: Vec::new(),
        lookup_types,
    }
}

/// The request of an ICMP probe.
pub fn icmp_request(config: &IcmpConfig) -> (r: IcmpRequest)
    ensures
        r.targeting@ == targeting_of(config.common_config, false),
{
    IcmpRequest { targeting: make_targeting(&config.common_config, false) }
}

/// The request of an HLS probe, with the configured headers.
pub fn hls_request(config: &HlsConfig) -> (r: HlsRequest)
    ensures
        r.targeting@ == targeting_of(config.common_config, false),
        pair_texts(r.headers@) == pair_texts(config.headers@),
{
    HlsRequest {
        targeting: make_targeting(&config.common_config, false),
        headers: copy_pairs(&config.headers),
    }
}

/// The request of an HTTP probe: the configured method, body, headers and
/// pattern; the body of the answer is asked for, and no status is
/// expected in particular.
pub fn http_request(config: &HttpConfig) -> (r: HttpRequest)
    ensures
        r.targeting@ == targeting_of(config.common_config, true),
        r.method@ == config.method@,
        opt_text(r.body) == opt_text(config.body),
        pair_texts(r.headers@) == pair_texts(config.headers@),
        opt_text(r.regex) == opt_text(config.regex),
        r.return_body == Some(true),
        r.status_codes@.len() == 0,
{
    HttpRequest {
        targeting: make_targeting(&config.common_config, true),
        method: config.method.clone(),
        body: copy_opt(&config.body),
        headers: copy_pairs(&config.headers),
        regex: copy_opt(&config.regex),
        return_body: Some(true),
        status_codes: Vec::new(),
    }
}

} // verus!
