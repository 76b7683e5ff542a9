//! The DNS collector: resolver classification, record fingerprints and the
//! samples of one DNS probe.

pub mod address;
pub mod errors;

use vstd::prelude::*;
use std::collections::HashMap;
use crate::collectors::{
    Collector, CollectorErrors, ErrorModel, ProbeResponse, all_carry_base, base_labels,
    carries_base, describe, described, descriptors_view, emit, failure_samples,
    lemma_base_labels_carry, lemma_failure_samples_carry, lemma_joined_carry,
    lemma_with_label_carries, make_base_labels, make_failure_samples, named,
};
use crate::collectors::fingerprint::{record_fingerprint, record_hash};
use crate::collectors::request::{DnsRequest, dns_request, targeting_of};
use crate::config::{DnsConfig, Duration, LookupTypes, endpoint_label, lookup_label, lookup_name};
use crate::metric::{
    DescriptorModel, Labels, LabelSet, MetricDescriptor, MetricKind, MetricSample, SampleModel,
    SampleValue, lemma_with_label_pairs, samples_view, with_label,
};
use crate::reading::{Reading, or_zero, reading_or_zero};
use crate::collectors::dns::address::{AddressModel, IpAddress, address_of, parse_address};
use crate::text::{
    chars_of, decimal, holds_phrase, matches_at, occurs_at, occurs_in, render_decimal, texts_of,
};

verus! {

/// Whether an IPv4 address is in the loopback range 127.0.0.0/8.
pub open spec fn loopback_v4(o: Seq<u8>) -> bool {
    o[0] == 127
}

/// Whether an IPv6 address is the loopback address `::1`.
pub open spec fn loopback_v6(g: Seq<u16>) -> bool {
    g[0] == 0 && g[1] == 0 && g[2] == 0 && g[3] == 0 && g[4] == 0 && g[5] == 0 && g[6] == 0
        && g[7] == 1
}

/// Whether an IPv4 address is in 10/8, 172.16/12, 192.168/16 or 169.254/16.
pub open spec fn private_v4(o: Seq<u8>) -> bool {
    ||| o[0] == 10
    ||| o[0] == 172 && 16 <= o[1] <= 31
    ||| o[0] == 192 && o[1] == 168
    ||| o[0] == 169 && o[1] == 254
}

/// Whether an IPv6 address is unique-local (fc00::/7).
pub open spec fn unique_local_v6(g: Seq<u16>) -> bool {
    0xfc00 <= g[0] <= 0xfdff
}

/// Whether an IPv6 address is link-local (fe80::/10).
pub open spec fn link_local_v6(g: Seq<u16>) -> bool {
    0xfe80 <= g[0] <= 0xfebf
}

/// Whether an IPv6 address is unique-local or link-local.
pub open spec fn private_v6(g: Seq<u16>) -> bool {
    unique_local_v6(g) || link_local_v6(g)
}

/// Whether an IPv4 address is in the shared range 100.64.0.0/10.
pub open spec fn tailscale_v4(o: Seq<u8>) -> bool {
    o[0] == 100 && 64 <= o[1] <= 127
}

/// Whether the first octet lies in a block handed to the large regional
/// registries for providers.
pub open spec fn isp_range_v4(o: Seq<u8>) -> bool {
    ||| 24 <= o[0] <= 50
    ||| 62 <= o[0] <= 70
    ||| 80 <= o[0] <= 90
    ||| 98 <= o[0] <= 100
}

/// Whether the first group is one under which well-known resolvers sit.
pub open spec fn known_dns_range_v6(g: Seq<u16>) -> bool {
    g[0] == 0x2001 || g[0] == 0x2606 || g[0] == 0x2620
}

/// The bucket of a private IPv4 address.
pub open spec fn private_v4_label(o: Seq<u8>) -> Seq<char> {
    if o[0] == 10 {
        "Private Network (10.0.0.0/8)"@
    } else if o[0] == 172 && 16 <= o[1] <= 31 {
        "Private Network (172.16.0.0/12)"@
    } else if o[0] == 192 && o[1] == 168 {
        "Home Network (192.168.0.0/16)"@
    } else if o[0] == 169 && o[1] == 254 {
        "Link-local Network"@
    } else {
        "Unknown Private Network"@
    }
}

/// The bucket of a private IPv6 address.
pub open spec fn private_v6_label(g: Seq<u16>) -> Seq<char> {
    if unique_local_v6(g) {
        "Unique Local Address"@
    } else if link_local_v6(g) {
        "Link-local Network"@
    } else {
        "Private IPv6 Network"@
    }
}

/// The coarse bucket of a public IPv4 address, by its first octet.
pub open spec fn public_v4_label(o: Seq<u8>) -> Seq<char> {
    if o[0] == 0 || o[0] == 127 || o[0] == 169 || o[0] == 192 || o[0] == 198 {
        "Reserved Range"@
    } else if 1 <= o[0] <= 100 {
        if isp_range_v4(o) {
            "ISP DNS"@
        } else {
            "Unknown Public DNS"@
        }
    } else if 128 <= o[0] <= 191 {
        "Enterprise DNS"@
    } else {
        "Unknown Public DNS"@
    }
}

/// The coarse bucket of a public IPv6 address, by its first group.
pub open spec fn public_v6_label(g: Seq<u16>) -> Seq<char> {
    if 0x2000 <= g[0] <= 0x3fff {
        if known_dns_range_v6(g) {
            "Known IPv6 DNS Provider"@
        } else {
            "ISP IPv6 DNS"@
        }
    } else {
        "Unknown IPv6 DNS"@
    }
}

/// Whether an IPv4 address is in the loopback range.
pub fn is_loopback_v4(ip: &[u8; 4]) -> (b: bool)
    ensures
        b == loopback_v4(ip@),
{
    ip[0] == 127
}

/// Whether an IPv6 address is `::1`.
pub fn is_loopback_v6(ip: &[u16; 8]) -> (b: bool)
    ensures
        b == loopback_v6(ip@),
{
    ip[0] == 0 && ip[1] == 0 && ip[2] == 0 && ip[3] == 0 && ip[4] == 0 && ip[5] == 0 && ip[6] == 0
        && ip[7] == 1
}

/// Whether an IPv4 address is in a private range.
pub fn is_private_ipv4(ip: &[u8; 4]) -> (b: bool)
    ensures
        b == private_v4(ip@),
{
    let first = ip[0];
    let second = ip[1];
    if first == 10 {
        true
    } else if first == 172 {
        16 <= second && second <= 31
    } else if first == 192 {
        second == 168
    } else if first == 169 {
        second == 254
    } else {
        false
    }
}

/// Whether an IPv6 address is unique-local or link-local.
pub fn is_private_ipv6(ip: &[u16; 8]) -> (b: bool)
    ensures
        b == private_v6(ip@),
{
    let first = ip[0];
    (0xfc00 <= first && first <= 0xfdff) || (0xfe80 <= first && first <= 0xfebf)
}

/// Whether an IPv4 address is in the shared range that Tailscale uses.
pub fn is_tailscale_range(ip: &[u8; 4]) -> (b: bool)
    ensures
        b == tailscale_v4(ip@),
{
    ip[0] == 100 && 64 <= ip[1] && ip[1] <= 127
}

/// Whether the first octet lies in a provider block.
pub fn is_known_isp_range(ip: &[u8; 4]) -> (b: bool)
    ensures
        b == isp_range_v4(ip@),
{
    let first = ip[0];
    (24 <= first && first <= 50) || (62 <= first && first <= 70) || (80 <= first && first <= 90)
        || (98 <= first && first <= 100)
}

/// Whether the first group is one under which well-known resolvers sit.
pub fn is_known_ipv6_dns_range(ip: &[u16; 8]) -> (b: bool)
    ensures
        b == known_dns_range_v6(ip@),
{
    let first = ip[0];
    first == 0x2001 || first == 0x2606 || first == 0x2620
}

/// The bucket of a private IPv4 address.
pub fn classify_private_network(ip: &[u8; 4]) -> (label: String)
    ensures
        label@ == private_v4_label(ip@),
{
    let first = ip[0];
    let second = ip[1];
    if first == 10 {
        String::from_str("Private Network (10.0.0.0/8)")
    } else if first == 172 && 16 <= second && second <= 31 {
        String::from_str("Private Network (172.16.0.0/12)")
    } else if first == 192 && second == 168 {
        String::from_str("Home Network (192.168.0.0/16)")
    } else if first == 169 && second == 254 {
        String::from_str("Link-local Network")
    } else {
        String::from_str("Unknown Private Network")
    }
}

/// The bucket of a private IPv6 address.
pub fn classify_private_ipv6(ip: &[u16; 8]) -> (label: String)
    ensures
        label@ == private_v6_label(ip@),
{
    let first = ip[0];
    if 0xfc00 <= first && first <= 0xfdff {
        String::from_str("Unique Local Address")
    } else if 0xfe80 <= first && first <= 0xfebf {
        String::from_str("Link-local Network")
    } else {
        String::from_str("Private IPv6 Network")
    }
}

/// The coarse bucket of a public IPv4 address.
pub fn classify_public_dns(ip: &[u8; 4]) -> (label: String)
    ensures
        label@ == public_v4_label(ip@),
{
    let first = ip[0];
    if first == 0 || first == 127 || first == 169 || first == 192 || first == 198 {
        String::from_str("Reserved Range")
    } else if first <= 100 {
        if is_known_isp_range(ip) {
            String::from_str("ISP DNS")
        } else {
            String::from_str("Unknown Public DNS")
        }
    } else if 128 <= first && first <= 191 {
        String::from_str("Enterprise DNS")
    } else {
        String::from_str("Unknown Public DNS")
    }
}

/// The coarse bucket of a public IPv6 address.
pub fn classify_public_ipv6_dns(ip: &[u16; 8]) -> (label: String)
    ensures
        label@ == public_v6_label(ip@),
{
    let first = ip[0];
    if 0x2000 <= first && first <= 0x3fff {
        if is_known_ipv6_dns_range(ip) {
            String::from_str("Known IPv6 DNS Provider")
        } else {
            String::from_str("ISP IPv6 DNS")
        }
    } else {
        String::from_str("Unknown IPv6 DNS")
    }
}

/// The number that four octets write, the first octet in front.
pub open spec fn v4_number(a: int, b: int, c: int, d: int) -> u32 {
    (((a * 256 + b) * 256 + c) * 256 + d) as u32
}

/// The number that eight groups write, the first group in front.
pub open spec fn v6_number(a: int, b: int, c: int, d: int, e: int, f: int, g: int, h: int)
    -> u128 {
    (((((((a * 65536 + b) * 65536 + c) * 65536 + d) * 65536 + e) * 65536 + f) * 65536 + g) * 65536
        + h) as u128
}

/// The number of an IPv4 address: the key under which the table holds it.
pub open spec fn v4_key(o: Seq<u8>) -> u32 {
    v4_number(o[0] as int, o[1] as int, o[2] as int, o[3] as int)
}

/// The number of an IPv6 address: the key under which the table holds it.
pub open spec fn v6_key(g: Seq<u16>) -> u128 {
    v6_number(
        g[0] as int,
        g[1] as int,
        g[2] as int,
        g[3] as int,
        g[4] as int,
        g[5] as int,
        g[6] as int,
        g[7] as int,
    )
}

/// Two IPv4 addresses with the same number are the same address.
pub proof fn lemma_v4_key_tells_apart(a: Seq<u8>, b: Seq<u8>)
    requires
        a.len() == 4,
        b.len() == 4,
        v4_key(a) == v4_key(b),
    ensures
        a == b,
{
    assert(a =~= b);
}

/// Numbers that agree after one more group is put behind them agreed
/// before, and the groups are the same.
proof fn lemma_same_front(x: int, g: int, y: int, h: int)
    requires
        0 <= g < 65536,
        0 <= h < 65536,
        x * 65536 + g == y * 65536 + h,
    ensures
        x == y,
        g == h,
{
}

/// Two IPv6 addresses with the same number are the same address.
pub proof fn lemma_v6_key_tells_apart(a: Seq<u16>, b: Seq<u16>)
    requires
        a.len() == 8,
        b.len() == 8,
        v6_key(a) == v6_key(b),
    ensures
        a == b,
{
    let a1 = a[0] as int * 65536 + a[1] as int;
    let a2 = a1 * 65536 + a[2] as int;
    let a3 = a2 * 65536 + a[3] as int;
    let a4 = a3 * 65536 + a[4] as int;
    let a5 = a4 * 65536 + a[5] as int;
    let a6 = a5 * 65536 + a[6] as int;
    let a7 = a6 * 65536 + a[7] as int;
    let b1 = b[0] as int * 65536 + b[1] as int;
    let b2 = b1 * 65536 + b[2] as int;
    let b3 = b2 * 65536 + b[3] as int;
    let b4 = b3 * 65536 + b[4] as int;
    let b5 = b4 * 65536 + b[5] as int;
    let b6 = b5 * 65536 + b[6] as int;
    let b7 = b6 * 65536 + b[7] as int;
    assert(0 <= a1 < 0x1_0000_0000 && 0 <= b1 < 0x1_0000_0000);
    assert(0 <= a2 < 0x1_0000_0000_0000 && 0 <= b2 < 0x1_0000_0000_0000);
    assert(0 <= a3 < 0x1_0000_0000_0000_0000 && 0 <= b3 < 0x1_0000_0000_0000_0000);
    assert(0 <= a4 < 0x1_0000_0000_0000_0000_0000 && 0 <= b4 < 0x1_0000_0000_0000_0000_0000);
    assert(0 <= a5 < 0x1_0000_0000_0000_0000_0000_0000 && 0 <= b5
        < 0x1_0000_0000_0000_0000_0000_0000);
    assert(0 <= a6 < 0x1_0000_0000_0000_0000_0000_0000_0000 && 0 <= b6
        < 0x1_0000_0000_0000_0000_0000_0000_0000);
    assert(0 <= a7 < 0x1_0000_0000_0000_0000_0000_0000_0000_0000 && 0 <= b7
        < 0x1_0000_0000_0000_0000_0000_0000_0000_0000);
    assert(v6_key(a) == a7);
    assert(v6_key(b) == b7);
    lemma_same_front(a6, a[7] as int, b6, b[7] as int);
    lemma_same_front(a5, a[6] as int, b5, b[6] as int);
    lemma_same_front(a4, a[5] as int, b4, b[5] as int);
    lemma_same_front(a3, a[4] as int, b3, b[4] as int);
    lemma_same_front(a2, a[3] as int, b2, b[3] as int);
    lemma_same_front(a1, a[2] as int, b1, b[2] as int);
    lemma_same_front(a[0] as int, a[1] as int, b[0] as int, b[1] as int);
    assert(a =~= b);
}

/// The number that four octets write.
pub fn pack_octets(a: u8, b: u8, c: u8, d: u8) -> (k: u32)
    ensures
        k == v4_number(a as int, b as int, c as int, d as int),
{
    (((a as u32) * 256 + (b as u32)) * 256 + (c as u32)) * 256 + (d as u32)
}

/// The number that eight groups write.
pub fn pack_groups(a: u16, b: u16, c: u16, d: u16, e: u16, f: u16, g: u16, h: u16) -> (k: u128)
    ensures
        k == v6_number(
            a as int,
            b as int,
            c as int,
            d as int,
            e as int,
            f as int,
            g as int,
            h as int,
        ),
{
    let k1: u128 = (a as u128) * 65536 + (b as u128);
    let k2: u128 = k1 * 65536 + (c as u128);
    let k3: u128 = k2 * 65536 + (d as u128);
    let k4: u128 = k3 * 65536 + (e as u128);
    let k5: u128 = k4 * 65536 + (f as u128);
    let k6: u128 = k5 * 65536 + (g as u128);
    k6 * 65536 + (h as u128)
}

/// The last octet, or last group, of the anycast addresses of NextDNS.
pub open spec fn nextdns_hosts() -> Seq<u8> {
    seq![0, 1, 11, 42, 68, 99, 139, 165, 185, 216, 233, 241]
}

/// `table` with the two IPv4 anycast addresses of NextDNS that end in
/// `host`: `45.90.28.host` and `45.90.30.host`.
pub open spec fn with_nextdns_v4(table: Map<u32, Seq<char>>, host: int) -> Map<u32, Seq<char>> {
    table.insert(v4_number(45, 90, 28, host), "NextDNS"@).insert(
        v4_number(45, 90, 30, host),
        "NextDNS"@,
    )
}

/// `table` with the two IPv6 anycast addresses of NextDNS that end in
/// `host`: `2a07:a8c0::host` and `2a07:a8c1::host`.
pub open spec fn with_nextdns_v6(table: Map<u128, Seq<char>>, host: int) -> Map<
    u128,
    Seq<char>,
> {
    table.insert(v6_number(0x2a07, 0xa8c0, 0, 0, 0, 0, 0, host), "NextDNS"@).insert(
        v6_number(0x2a07, 0xa8c1, 0, 0, 0, 0, 0, host),
        "NextDNS"@,
    )
}

/// The IPv4 anycast addresses of NextDNS for each of `hosts`.
pub open spec fn nextdns_v4(hosts: Seq<u8>) -> Map<u32, Seq<char>>
    decreases hosts.len(),
{
    if hosts.len() == 0 {
        Map::empty()
    } else {
        with_nextdns_v4(nextdns_v4(hosts.drop_last()), hosts.last() as int)
    }
}

/// The IPv6 anycast addresses of NextDNS for each of `hosts`.
pub open spec fn nextdns_v6(hosts: Seq<u8>) -> Map<u128, Seq<char>>
    decreases hosts.len(),
{
    if hosts.len() == 0 {
        Map::empty()
    } else {
        with_nextdns_v6(nextdns_v6(hosts.drop_last()), hosts.last() as int)
    }
}

/// `table` with the IPv4 resolvers that are known one by one, each with
/// the name of its operator.
pub open spec fn with_named_v4(table: Map<u32, Seq<char>>) -> Map<u32, Seq<char>> {
    table
        .insert(v4_number(8, 8, 8, 8), "Google"@)
        .insert(v4_number(8, 8, 4, 4), "Google"@)
        .insert(v4_number(1, 1, 1, 1), "Cloudflare"@)
        .insert(v4_number(1, 0, 0, 1), "Cloudflare"@)
        .insert(v4_number(1, 1, 1, 2), "Cloudflare"@)
        .insert(v4_number(1, 0, 0, 2), "Cloudflare"@)
        .insert(v4_number(9, 9, 9, 9), "Quad9"@)
        .insert(v4_number(149, 112, 112, 112), "Quad9"@)
        .insert(v4_number(208, 67, 222, 222), "OpenDNS"@)
        .insert(v4_number(208, 67, 220, 220), "OpenDNS"@)
        .insert(v4_number(94, 140, 14, 14), "AdGuard"@)
        .insert(v4_number(94, 140, 15, 15), "AdGuard"@)
}

/// `table` with the IPv6 resolvers that are known one by one, each with
/// the name of its operator.
pub open spec fn with_named_v6(table: Map<u128, Seq<char>>) -> Map<u128, Seq<char>> {
    table
        .insert(v6_number(0x2001, 0x4860, 0x4860, 0, 0, 0, 0, 0x8888), "Google"@)
        .insert(v6_number(0x2001, 0x4860, 0x4860, 0, 0, 0, 0, 0x8844), "Google"@)
        .insert(v6_number(0x2606, 0x4700, 0x4700, 0, 0, 0, 0, 0x1111), "Cloudflare"@)
        .insert(v6_number(0x2606, 0x4700, 0x4700, 0, 0, 0, 0, 0x1001), "Cloudflare"@)
        .insert(v6_number(0x2606, 0x4700, 0x4700, 0, 0, 0, 0, 0x1112), "Cloudflare"@)
        .insert(v6_number(0x2606, 0x4700, 0x4700, 0, 0, 0, 0, 0x1002), "Cloudflare"@)
        .insert(v6_number(0x2620, 0xfe, 0, 0, 0, 0, 0, 0xfe), "Quad9"@)
        .insert(v6_number(0x2620, 0xfe, 0, 0, 0, 0, 0, 9), "Quad9"@)
        .insert(v6_number(0x2620, 0x119, 0x35, 0, 0, 0, 0, 0x35), "OpenDNS"@)
        .insert(v6_number(0x2620, 0x119, 0x53, 0, 0, 0, 0, 0x53), "OpenDNS"@)
        .insert(v6_number(0x2a10, 0x50c0, 0, 0, 0, 0, 0xad1, 0xff), "AdGuard"@)
        .insert(v6_number(0x2a10, 0x50c0, 0, 0, 0, 0, 0xad2, 0xff), "AdGuard"@)
}

/// The known public IPv4 resolvers: the number of the address to the name
/// of the operator.
pub open spec fn provider_table_v4() -> Map<u32, Seq<char>> {
    with_named_v4(nextdns_v4(nextdns_hosts()))
}

/// The known public IPv6 resolvers: the number of the address to the name
/// of the operator.
pub open spec fn provider_table_v6() -> Map<u128, Seq<char>> {
    with_named_v6(nextdns_v6(nextdns_hosts()))
}

/// The operator of a known public resolver, by its address. How the
/// address was spelled plays no part.
pub open spec fn known_operator(addr: AddressModel) -> Option<Seq<char>> {
    match addr {
        AddressModel::V4(o) => if provider_table_v4().contains_key(v4_key(o)) {
            Some(provider_table_v4()[v4_key(o)])
        } else {
            None
        },
        AddressModel::V6(g) => if provider_table_v6().contains_key(v6_key(g)) {
            Some(provider_table_v6()[v6_key(g)])
        } else {
            None
        },
    }
}

/// A map to texts, read off a map to strings.
pub open spec fn label_map<K>(m: Map<K, String>) -> Map<K, Seq<char>> {
    Map::new(|k: K| m.contains_key(k), |k: K| m[k]@)
}

/// The table of known public resolvers, keyed by the number of the
/// address: one map for each family.
pub struct ProviderMap {
    v4: HashMap<u32, String>,
    v6: HashMap<u128, String>,
}

impl ProviderMap {
    /// What the table holds of IPv4 resolvers.
    pub closed spec fn v4_labels(&self) -> Map<u32, Seq<char>> {
        label_map(self.v4@)
    }

    /// What the table holds of IPv6 resolvers.
    pub closed spec fn v6_labels(&self) -> Map<u128, Seq<char>> {
        label_map(self.v6@)
    }

    /// What holds of every table: it holds the known public resolvers,
    /// and nothing else.
    #[verifier::type_invariant]
    spec fn complete(&self) -> bool {
        &&& self.v4_labels() == provider_table_v4()
        &&& self.v6_labels() == provider_table_v6()
    }

    /// The operator of the resolver with the address `addr`, where the
    /// table knows it.
    pub fn get(&self, addr: &IpAddress) -> (r: Option<&String>)
        ensures
            self.v4_labels() == provider_table_v4(),
            self.v6_labels() == provider_table_v6(),
            match r {
                Some(name) => known_operator(addr@) == Some(name@),
                None => known_operator(addr@) is None,
            },
    {
        broadcast use vstd::std_specs::hash::group_hash_axioms;

        proof {
            use_type_invariant(self);
        }

        match addr {
            IpAddress::V4(o) => {
                let key = pack_octets(o[0], o[1], o[2], o[3]);
                self.v4.get(&key)
            },
            IpAddress::V6(g) => {
                let key = pack_groups(g[0], g[1], g[2], g[3], g[4], g[5], g[6], g[7]);
                self.v6.get(&key)
            },
        }
    }
}

/// Enters the resolver with the number `key` and the operator `name`.
fn put<K: Eq + std::hash::Hash>(table: &mut HashMap<K, String>, key: K, name: &str)
    requires
        vstd::std_specs::hash::obeys_key_model::<K>(),
    ensures
        label_map(final(table)@) == label_map(old(table)@).insert(key, name@),
{
    broadcast use vstd::std_specs::hash::group_hash_axioms;

    table.insert(key, String::from_str(name));
    assert(label_map(table@) =~= label_map(old(table)@).insert(key, name@));
}

/// The anycast addresses of NextDNS, for each family.
fn build_nextdns() -> (table: (HashMap<u32, String>, HashMap<u128, String>))
    ensures
        label_map(table.0@) == nextdns_v4(nextdns_hosts()),
        label_map(table.1@) == nextdns_v6(nextdns_hosts()),
{
    broadcast use vstd::std_specs::hash::group_hash_axioms;

    let mut v4: HashMap<u32, String> = HashMap::new();
    let mut v6: HashMap<u128, String> = HashMap::new();
    assert(label_map(v4@) =~= Map::<u32, Seq<char>>::empty());
    assert(label_map(v6@) =~= Map::<u128, Seq<char>>::empty());
    let hosts: [u8; 12] = [0, 1, 11, 42, 68, 99, 139, 165, 185, 216, 233, 241];
    assert(hosts@ =~= nextdns_hosts());
    let mut i: usize = 0;
    assert(hosts@.take(0) =~= Seq::<u8>::empty());
    while i < 12
        invariant
            i <= 12,
            hosts@.len() == 12,
            label_map(v4@) == nextdns_v4(hosts@.take(i as int)),
            label_map(v6@) == nextdns_v6(hosts@.take(i as int)),
        decreases 12 - i,
    {
        assert(hosts@.take(i + 1).drop_last() =~= hosts@.take(i as int));
        let host = hosts[i];
        put(&mut v4, pack_octets(45, 90, 28, host), "NextDNS");
        put(&mut v4, pack_octets(45, 90, 30, host), "NextDNS");
        put(&mut v6, pack_groups(0x2a07, 0xa8c0, 0, 0, 0, 0, 0, host as u16), "NextDNS");
        put(&mut v6, pack_groups(0x2a07, 0xa8c1, 0, 0, 0, 0, 0, host as u16), "NextDNS");
        i += 1;
    }
    assert(hosts@.take(12) =~= hosts@);
    (v4, v6)
}

/// The table of known public resolvers.
pub fn build_provider_map() -> (table: ProviderMap)
    ensures
        table.v4_labels() == provider_table_v4(),
        table.v6_labels() == provider_table_v6(),
{
    broadcast use vstd::std_specs::hash::group_hash_axioms;

    let (mut v4, mut v6) = build_nextdns();
    put(&mut v4, pack_octets(8, 8, 8, 8), "Google");
    put(&mut v4, pack_octets(8, 8, 4, 4), "Google");
    put(&mut v4, pack_octets(1, 1, 1, 1), "Cloudflare");
    put(&mut v4, pack_octets(1, 0, 0, 1), "Cloudflare");
    put(&mut v4, pack_octets(1, 1, 1, 2), "Cloudflare");
    put(&mut v4, pack_octets(1, 0, 0, 2), "Cloudflare");
    put(&mut v4, pack_octets(9, 9, 9, 9), "Quad9");
    put(&mut v4, pack_octets(149, 112, 112, 112), "Quad9");
    put(&mut v4, pack_octets(208, 67, 222, 222), "OpenDNS");
    put(&mut v4, pack_octets(208, 67, 220, 220), "OpenDNS");
    put(&mut v4, pack_octets(94, 140, 14, 14), "AdGuard");
    put(&mut v4, pack_octets(94, 140, 15, 15), "AdGuard");
    put(&mut v6, pack_groups(0x2001, 0x4860, 0x4860, 0, 0, 0, 0, 0x8888), "Google");
    put(&mut v6, pack_groups(0x2001, 0x4860, 0x4860, 0, 0, 0, 0, 0x8844), "Google");
    put(&mut v6, pack_groups(0x2606, 0x4700, 0x4700, 0, 0, 0, 0, 0x1111), "Cloudflare");
    put(&mut v6, pack_groups(0x2606, 0x4700, 0x4700, 0, 0, 0, 0, 0x1001), "Cloudflare");
    put(&mut v6, pack_groups(0x2606, 0x4700, 0x4700, 0, 0, 0, 0, 0x1112), "Cloudflare");
    put(&mut v6, pack_groups(0x2606, 0x4700, 0x4700, 0, 0, 0, 0, 0x1002), "Cloudflare");
    put(&mut v6, pack_groups(0x2620, 0xfe, 0, 0, 0, 0, 0, 0xfe), "Quad9");
    put(&mut v6, pack_groups(0x2620, 0xfe, 0, 0, 0, 0, 0, 9), "Quad9");
    put(&mut v6, pack_groups(0x2620, 0x119, 0x35, 0, 0, 0, 0, 0x35), "OpenDNS");
    put(&mut v6, pack_groups(0x2620, 0x119, 0x53, 0, 0, 0, 0, 0x53), "OpenDNS");
    put(&mut v6, pack_groups(0x2a10, 0x50c0, 0, 0, 0, 0, 0xad1, 0xff), "AdGuard");
    put(&mut v6, pack_groups(0x2a10, 0x50c0, 0, 0, 0, 0, 0xad2, 0xff), "AdGuard");
    ProviderMap { v4, v6 }
}

/// The provider label of the resolver with the address `addr`: by its
/// range where that is special, else by the table of known resolvers, else
/// by a coarse bucket. The label goes by the address alone, however it
/// was spelled.
pub open spec fn provider_label(addr: AddressModel) -> Seq<char> {
    match addr {
        AddressModel::V4(o) => if loopback_v4(o) {
            "Localhost"@
        } else if private_v4(o) {
            private_v4_label(o)
        } else if tailscale_v4(o) {
            "Tailscale"@
        } else {
            match known_operator(addr) {
                Some(name) => name,
                None => public_v4_label(o),
            }
        },
        AddressModel::V6(g) => if loopback_v6(g) {
            "Localhost"@
        } else if private_v6(g) {
            private_v6_label(g)
        } else {
            match known_operator(addr) {
                Some(name) => name,
                None => public_v6_label(g),
            }
        },
    }
}

/// The provider label of the resolver written as `text`, where `text` is
/// an address.
pub open spec fn classification(text: Seq<char>) -> Option<Seq<char>> {
    match address_of(text) {
        Some(addr) => Some(provider_label(addr)),
        None => None,
    }
}

/// The label of a resolver, with the bucket `Invalid IP` for a text that is
/// no address.
pub open spec fn provider_bucket(text: Seq<char>) -> Seq<char> {
    match classification(text) {
        Some(label) => label,
        None => "Invalid IP"@,
    }
}

/// Two texts that write the same address get the same label: the spelling
/// of an address (zero groups written out or not, letters in either case,
/// leading zeros) changes nothing.
pub proof fn lemma_label_goes_by_address(a: Seq<char>, b: Seq<char>)
    requires
        address_of(a) == address_of(b),
    ensures
        classification(a) == classification(b),
        provider_bucket(a) == provider_bucket(b),
{
}

/// The provider label of `addr`, by the given table.
pub fn label_address(table: &ProviderMap, addr: &IpAddress) -> (label: String)
    ensures
        label@ == provider_label(addr@),
{
    match addr {
        IpAddress::V4(o) => {
            if is_loopback_v4(o) {
                String::from_str("Localhost")
            } else if is_private_ipv4(o) {
                classify_private_network(o)
            } else if is_tailscale_range(o) {
                String::from_str("Tailscale")
            } else {
                match table.get(addr) {
                    Some(name) => name.clone(),
                    None => classify_public_dns(o),
                }
            }
        },
        IpAddress::V6(g) => {
            if is_loopback_v6(g) {
                String::from_str("Localhost")
            } else if is_private_ipv6(g) {
                classify_private_ipv6(g)
            } else {
                match table.get(addr) {
                    Some(name) => name.clone(),
                    None => classify_public_ipv6_dns(g),
                }
            }
        },
    }
}

/// The provider label of the resolver written as `ip`, by the given table;
/// `None` where `ip` is no address.
fn classify_in(table: &ProviderMap, ip: &str) -> (r: Option<String>)
    ensures
        match r {
            Some(label) => classification(ip@) == Some(label@),
            None => classification(ip@) is None,
        },
{
    match parse_address(ip) {
        Some(addr) => Some(label_address(table, &addr)),
        None => None,
    }
}

/// The provider label of the resolver written as `ip`. A text that is no
/// IPv4 or IPv6 address gets the bucket `Invalid IP`.
pub fn classify_provider(ip: &str) -> (label: String)
    ensures
        label@ == provider_bucket(ip@),
        address_of(ip@) is None ==> label@ == "Invalid IP"@,
        address_of(ip@) matches Some(addr) ==> label@ == provider_label(addr),
{
    let table = build_provider_map();
    match classify_in(&table, ip) {
        Some(label) => label,
        None => String::from_str("Invalid IP"),
    }
}

/// `server` without the protocol that it names in front: one leading
/// `udp:` or `tcp:`.
pub open spec fn without_protocol(server: Seq<char>) -> Seq<char> {
    if occurs_at(server, "udp:"@, 0) {
        server.skip("udp:"@.len() as int)
    } else if occurs_at(server, "tcp:"@, 0) {
        server.skip("tcp:"@.len() as int)
    } else {
        server
    }
}

/// `text` without the port `:53` at its end, where what stands before the
/// port writes an address.
pub open spec fn without_port(text: Seq<char>) -> Seq<char> {
    let n = text.len() - ":53"@.len();
    if occurs_at(text, ":53"@, n) && address_of(text.take(n)) is Some {
        text.take(n)
    } else {
        text
    }
}

/// A resolver address as reported, without the decorations of transport.
/// A text that writes an address is left as it is, whatever its end. Of
/// any other text one leading protocol is taken off, and then the port
/// where it trails an address.
pub open spec fn cleaned_server(server: Seq<char>) -> Seq<char> {
    if address_of(server) is Some {
        server
    } else {
        without_port(without_protocol(server))
    }
}

/// `server` without the protocol that it names in front.
fn strip_protocol(server: &str) -> (rest: &str)
    ensures
        rest@ == without_protocol(server@),
{
    let chars = chars_of(server);
    let udp = chars_of("udp:");
    let tcp = chars_of("tcp:");
    if matches_at(&chars, &udp, 0) {
        let rest = server.substring_char(udp.len(), chars.len());
        assert(rest@ =~= server@.skip("udp:"@.len() as int));
        rest
    } else if matches_at(&chars, &tcp, 0) {
        let rest = server.substring_char(tcp.len(), chars.len());
        assert(rest@ =~= server@.skip("tcp:"@.len() as int));
        rest
    } else {
        server
    }
}

/// `text` without the port at its end, where it trails an address.
fn strip_port(text: &str) -> (rest: &str)
    ensures
        rest@ == without_port(text@),
{
    let chars = chars_of(text);
    let port = chars_of(":53");
    if chars.len() >= port.len() && matches_at(&chars, &port, chars.len() - port.len()) {
        let head = text.substring_char(0, chars.len() - port.len());
        assert(head@ =~= text@.take(text@.len() - ":53"@.len()));
        if parse_address(head).is_some() {
            return head;
        }
    }
    text
}

/// Strips the decorations of transport from a resolver address. An
/// address that carries none comes back as it is.
pub fn clean_server(server: &str) -> (out: String)
    ensures
        out@ == cleaned_server(server@),
        address_of(server@) is Some ==> out@ == server@,
{
    if parse_address(server).is_some() {
        return String::from_str(server);
    }
    String::from_str(strip_port(strip_protocol(server)))
}

/// The distinct provider labels of the addresses `ips`, in the order in
/// which each is first met. A text that is no address adds nothing.
pub open spec fn providers_of(ips: Seq<Seq<char>>) -> Seq<Seq<char>>
    decreases ips.len(),
{
    if ips.len() == 0 {
        Seq::empty()
    } else {
        let before = providers_of(ips.drop_last());
        match classification(ips.last()) {
            Some(label) => if before.contains(label) {
                before
            } else {
                before.push(label)
            },
            None => before,
        }
    }
}

/// Whether `list` holds the text of `item`.
pub fn holds_text(list: &Vec<String>, item: &str) -> (b: bool)
    ensures
        b == texts_of(list@).contains(item@),
{
    let mut i: usize = 0;
    while i < list.len()
        invariant
            i <= list@.len(),
            forall|j: int| 0 <= j < i ==> texts_of(list@)[j] != item@,
        decreases list.len() - i,
    {
        if crate::text::same_text(list[i].as_str(), item) {
            assert(texts_of(list@)[i as int] == item@);
            return true;
        }
        i += 1;
    }
    false
}

/// The set of provider labels seen among the resolver addresses `ips`:
/// each label once, in the order of first appearance.
pub fn identify_dns_providers(ips: &Vec<String>) -> (providers: Vec<String>)
    ensures
        texts_of(providers@) == providers_of(texts_of(ips@)),
        texts_of(providers@).no_duplicates(),
{
    let table = build_provider_map();
    let mut providers: Vec<String> = Vec::new();
    let mut i: usize = 0;
    assert(texts_of(ips@).take(0) =~= Seq::<Seq<char>>::empty());
    assert(texts_of(providers@) =~= Seq::<Seq<char>>::empty());
    while i < ips.len()
        invariant
            i <= ips@.len(),
            texts_of(providers@) == providers_of(texts_of(ips@).take(i as int)),
            texts_of(providers@).no_duplicates(),
        decreases ips.len() - i,
    {
        let ghost prefix = texts_of(ips@).take(i + 1);
        assert(prefix.drop_last() =~= texts_of(ips@).take(i as int));
        assert(prefix.last() == ips@[i as int]@);
        match classify_in(&table, ips[i].as_str()) {
            Some(label) => {
                if !holds_text(&providers, label.as_str()) {
                    let ghost before = texts_of(providers@);
                    providers.push(label);
                    assert(texts_of(providers@) =~= before.push(label@));
                }
            },
            None => {},
        }
        i += 1;
    }
    assert(texts_of(ips@).take(i as int) =~= texts_of(ips@));
    providers
}

/// The names of the operators of the known resolvers.
pub open spec fn operator_names() -> Set<Seq<char>> {
    set!["Google"@, "Cloudflare"@, "Quad9"@, "OpenDNS"@, "AdGuard"@, "NextDNS"@]
}

/// Every label that a resolver can get: the operators, the special ranges,
/// the coarse buckets and the bucket for what is no address.
pub open spec fn provider_vocabulary() -> Set<Seq<char>> {
    operator_names() + set![
        "Localhost"@,
        "Tailscale"@,
        "Private Network (10.0.0.0/8)"@,
        "Private Network (172.16.0.0/12)"@,
        "Home Network (192.168.0.0/16)"@,
        "Link-local Network"@,
        "Unknown Private Network"@,
        "Unique Local Address"@,
        "Private IPv6 Network"@,
        "Reserved Range"@,
        "ISP DNS"@,
        "Enterprise DNS"@,
        "Unknown Public DNS"@,
        "Known IPv6 DNS Provider"@,
        "ISP IPv6 DNS"@,
        "Unknown IPv6 DNS"@,
        "Invalid IP"@,
    ]
}

/// Every entry of `table` names an operator.
pub open spec fn names_operators<K>(table: Map<K, Seq<char>>) -> bool {
    forall|k: K| table.contains_key(k) ==> operator_names().contains(#[trigger] table[k])
}

/// The anycast addresses of NextDNS name an operator.
proof fn lemma_nextdns_names_operators(hosts: Seq<u8>)
    ensures
        names_operators(nextdns_v4(hosts)),
        names_operators(nextdns_v6(hosts)),
    decreases hosts.len(),
{
    if hosts.len() > 0 {
        lemma_nextdns_names_operators(hosts.drop_last());
    }
}

/// Every entry of the table of known resolvers names an operator.
pub proof fn lemma_table_names_operators()
    ensures
        names_operators(provider_table_v4()),
        names_operators(provider_table_v6()),
{
    lemma_nextdns_names_operators(nextdns_hosts());
}

/// The label of a resolver is always one of a fixed vocabulary, whatever
/// the text that names the resolver.
pub proof fn lemma_provider_vocabulary(text: Seq<char>)
    ensures
        provider_vocabulary().contains(provider_bucket(text)),
        provider_vocabulary().finite(),
{
    lemma_table_names_operators();
    match address_of(text) {
        Some(AddressModel::V4(o)) => {
            if provider_table_v4().contains_key(v4_key(o)) {
                assert(operator_names().contains(provider_table_v4()[v4_key(o)]));
            }
        },
        Some(AddressModel::V6(g)) => {
            if provider_table_v6().contains_key(v6_key(g)) {
                assert(operator_names().contains(provider_table_v6()[v6_key(g)]));
            }
        },
        None => {},
    }
}

/// The provider labels of a list of resolvers are all of the fixed
/// vocabulary, and none occurs twice.
pub proof fn lemma_providers_bounded(ips: Seq<Seq<char>>)
    ensures
        forall|i: int|
            0 <= i < providers_of(ips).len() ==> provider_vocabulary().contains(
                #[trigger] providers_of(ips)[i],
            ),
        providers_of(ips).no_duplicates(),
    decreases ips.len(),
{
    if ips.len() > 0 {
        lemma_providers_bounded(ips.drop_last());
        lemma_provider_vocabulary(ips.last());
    }
}

/// The record sets that a DNS lookup returned, and the resolvers that
/// served it.
#[derive(Debug, Clone)]
pub struct DnsResult {
    pub dns_servers: Vec<String>,
    pub ips: Vec<String>,
    pub mx: Vec<String>,
    pub txt: Vec<String>,
    pub ns: Vec<String>,
    pub srv: Vec<String>,
    pub tlsa: Vec<String>,
    pub soa: Vec<String>,
}

/// The answer of the measurement service to a DNS probe.
pub type DnsResponse = ProbeResponse<DnsResult>;

/// The value of the label `error_type` for the error text of a DNS probe:
/// the first of the known phrases that the text holds decides.
pub open spec fn dns_error_type(error: Seq<char>) -> Seq<char> {
    if occurs_in(error, "no record found for Query"@) {
        "no_records"@
    } else if occurs_in(error, "connection refused"@) {
        "connection_refused"@
    } else if occurs_in(error, "connection timed out"@) {
        "timeout"@
    } else if occurs_in(error, "name resolution failed"@) {
        "resolution_failed"@
    } else if occurs_in(error, "server misbehaving"@) {
        "server_misbehaving"@
    } else if occurs_in(error, "network is unreachable"@) {
        "network_unreachable"@
    } else {
        "unknown_error"@
    }
}

/// The value of the label `error_type` for the error text of a DNS probe.
pub fn classify_dns_error(error: &str) -> (kind: &'static str)
    ensures
        kind@ == dns_error_type(error@),
{
    let e = chars_of(error);
    if holds_phrase(&e, "no record found for Query") {
        "no_records"
    } else if holds_phrase(&e, "connection refused") {
        "connection_refused"
    } else if holds_phrase(&e, "connection timed out") {
        "timeout"
    } else if holds_phrase(&e, "name resolution failed") {
        "resolution_failed"
    } else if holds_phrase(&e, "server misbehaving") {
        "server_misbehaving"
    } else if holds_phrase(&e, "network is unreachable") {
        "network_unreachable"
    } else {
        "unknown_error"
    }
}

/// The sample by which a DNS probe shows that the service reported the
/// error `error`: one more lookup error of its type.
pub open spec fn dns_failure(prefix: Seq<char>, labels: Labels, error: Seq<char>) -> Seq<
    SampleModel,
> {
    seq![
        named(
            prefix,
            "dns_lookup_error_total"@,
            with_label(labels, "error_type"@, dns_error_type(error)),
            SampleValue::Count(1),
            MetricKind::Counter,
        ),
    ]
}

/// The records of the type that the probe looks up.
pub open spec fn queried_records(result: DnsResult, lookup: LookupTypes) -> Seq<String> {
    match lookup {
        LookupTypes::IP => result.ips@,
        LookupTypes::MX => result.mx@,
        LookupTypes::TXT => result.txt@,
        LookupTypes::NS => result.ns@,
        LookupTypes::SRV => result.srv@,
        LookupTypes::TLSA => result.tlsa@,
        LookupTypes::SOA => result.soa@,
    }
}

/// One unit as a reading.
pub open spec fn one() -> Reading {
    Reading::Value(1_000_000)
}

/// The text of the fingerprint of the records of the type that the probe
/// looks up: the fingerprint as a decimal numeral, all of its 64 bits.
pub open spec fn record_hash_text(result: DnsResult, lookup: LookupTypes) -> Seq<char> {
    decimal(record_fingerprint(texts_of(queried_records(result, lookup))) as nat)
}

/// The labels of the samples that speak of the records: the given labels,
/// the record type, and the fingerprint of the records as `record_hash`.
/// A change of the record set shows as a change of that label, and the
/// records themselves are in no label.
pub open spec fn record_labels(labels: Labels, lookup: LookupTypes, result: DnsResult)
    -> Labels {
    with_label(
        with_label(labels, "record_type"@, lookup_label(lookup)),
        "record_hash"@,
        record_hash_text(result, lookup),
    )
}

/// The samples of a lookup for one resolver, whose labels are `labels`:
/// the duration; then, labelled with record type and fingerprint, the
/// fingerprint and the number of the records of the configured type, the
/// verdict, and one more lookup. The lookup succeeded where it returned
/// at least one record of the configured type.
pub open spec fn provider_samples(
    prefix: Seq<char>,
    lookup: LookupTypes,
    result: DnsResult,
    duration: Reading,
    labels: Labels,
) -> Seq<SampleModel> {
    let records = queried_records(result, lookup);
    let by_type = record_labels(labels, lookup, result);
    seq![
        named(
            prefix,
            "dns_server_lookup_duration_ms"@,
            labels,
            SampleValue::Measure(duration),
            MetricKind::Histogram,
        ),
        named(
            prefix,
            "dns_record_hash"@,
            by_type,
            SampleValue::Count(record_fingerprint(texts_of(records))),
            MetricKind::Gauge,
        ),
        named(
            prefix,
            "dns_records_count"@,
            by_type,
            SampleValue::Count(records.len() as u64),
            MetricKind::Gauge,
        ),
        if records.len() > 0 {
            named(
                prefix,
                "dns_lookup_success_total"@,
                by_type,
                SampleValue::Count(1),
                MetricKind::Counter,
            )
        } else {
            named(
                prefix,
                "dns_lookup_failures_total"@,
                by_type,
                SampleValue::Count(1),
                MetricKind::Counter,
            )
        },
        named(
            prefix,
            "dns_lookup_success_ratio"@,
            by_type,
            SampleValue::Measure(
                if records.len() > 0 {
                    one()
                } else {
                    Reading::Value(0)
                },
            ),
            MetricKind::Gauge,
        ),
        named(prefix, "dns_lookup_total"@, by_type, SampleValue::Count(1), MetricKind::Counter),
    ]
}

/// The samples of a lookup for each of the providers, in their order: the
/// samples of one resolver, labelled `dns_server` with the provider.
pub open spec fn lookup_samples(
    prefix: Seq<char>,
    lookup: LookupTypes,
    result: DnsResult,
    duration: Reading,
    base: Labels,
    providers: Seq<Seq<char>>,
) -> Seq<SampleModel>
    decreases providers.len(),
{
    if providers.len() == 0 {
        Seq::empty()
    } else {
        lookup_samples(prefix, lookup, result, duration, base, providers.drop_last())
            + provider_samples(
            prefix,
            lookup,
            result,
            duration,
            with_label(base, "dns_server"@, providers.last()),
        )
    }
}

/// The resolver addresses of a result, each without the decorations of
/// transport.
pub open spec fn cleaned_servers(servers: Seq<String>) -> Seq<Seq<char>> {
    servers.map_values(|s: String| cleaned_server(s@))
}

/// The samples that a response to a DNS probe stands for. The response
/// has to name its vantage point and to hold a first result; that result
/// is an error text, which gives a failure sample, or a payload, which
/// gives the samples of the lookup once for each provider among its
/// resolvers.
pub open spec fn dns_derived(config: DnsConfig, response: DnsResponse) -> Result<
    Seq<SampleModel>,
    ErrorModel,
> {
    let endpoint = endpoint_label(config.common_config);
    let prefix = config.common_config.prefix@;
    match response.node_info {
        None => Err(ErrorModel::MissingNodeInfo(endpoint)),
        Some(node) => if response.results@.len() == 0 {
            Err(ErrorModel::MissingData(endpoint, "no_results"@))
        } else {
            let first = response.results@[0];
            match first.error {
                Some(e) => Ok(dns_failure(prefix, base_labels(node, endpoint), e@)),
                None => match first.result {
                    Some(result) => Ok(
                        lookup_samples(
                            prefix,
                            config.lookup_type,
                            result,
                            or_zero(first.duration),
                            base_labels(node, endpoint),
                            providers_of(cleaned_servers(result.dns_servers@)),
                        ),
                    ),
                    None => Err(ErrorModel::MissingData(endpoint, "dns_result"@)),
                },
            }
        },
    }
}

/// The samples of a lookup hold the shared keys where the labels of the
/// vantage point do.
pub proof fn lemma_lookup_samples_carry(
    prefix: Seq<char>,
    lookup: LookupTypes,
    result: DnsResult,
    duration: Reading,
    base: Labels,
    providers: Seq<Seq<char>>,
)
    requires
        carries_base(base),
    ensures
        all_carry_base(lookup_samples(prefix, lookup, result, duration, base, providers)),
    decreases providers.len(),
{
    if providers.len() > 0 {
        lemma_lookup_samples_carry(prefix, lookup, result, duration, base, providers.drop_last());
        let labels = with_label(base, "dns_server"@, providers.last());
        lemma_with_label_carries(base, "dns_server"@, providers.last());
        lemma_with_label_carries(labels, "record_type"@, lookup_label(lookup));
        lemma_with_label_carries(
            with_label(labels, "record_type"@, lookup_label(lookup)),
            "record_hash"@,
            record_hash_text(result, lookup),
        );
        lemma_joined_carry(
            lookup_samples(prefix, lookup, result, duration, base, providers.drop_last()),
            provider_samples(prefix, lookup, result, duration, labels),
        );
    }
}

/// Whether a label is one that the samples of a lookup may add to those of
/// the vantage point: the provider of the resolver, out of the fixed
/// vocabulary, the configured record type, or the fingerprint of the
/// records.
pub open spec fn lookup_label_pair(
    pair: (Seq<char>, Seq<char>),
    lookup: LookupTypes,
    result: DnsResult,
) -> bool {
    ||| pair.0 == "dns_server"@ && provider_vocabulary().contains(pair.1)
    ||| pair == ("record_type"@, lookup_label(lookup))
    ||| pair == ("record_hash"@, record_hash_text(result, lookup))
}

/// No sample of a lookup is labelled with the text of a record: each
/// label is one of the vantage point, the provider of the resolver, the
/// record type, or the fingerprint of the records. The records show as
/// their number and their fingerprint only.
pub proof fn lemma_lookup_labels_bounded(
    prefix: Seq<char>,
    lookup: LookupTypes,
    result: DnsResult,
    duration: Reading,
    base: Labels,
    ips: Seq<Seq<char>>,
    i: int,
    j: int,
)
    requires
        0 <= i < lookup_samples(prefix, lookup, result, duration, base, providers_of(ips)).len(),
        0 <= j < lookup_samples(
            prefix,
            lookup,
            result,
            duration,
            base,
            providers_of(ips),
        )[i].labels.len(),
    ensures
        ({
            let pair = lookup_samples(
                prefix,
                lookup,
                result,
                duration,
                base,
                providers_of(ips),
            )[i].labels[j];
            base.contains(pair) || lookup_label_pair(pair, lookup, result)
        }),
{
    lemma_providers_bounded(ips);
    lemma_lookup_labels_among(prefix, lookup, result, duration, base, providers_of(ips), i, j);
}

/// Each label of a sample of a lookup is one of the vantage point, one of
/// the given providers, the record type, or the fingerprint.
proof fn lemma_lookup_labels_among(
    prefix: Seq<char>,
    lookup: LookupTypes,
    result: DnsResult,
    duration: Reading,
    base: Labels,
    providers: Seq<Seq<char>>,
    i: int,
    j: int,
)
    requires
        0 <= i < lookup_samples(prefix, lookup, result, duration, base, providers).len(),
        0 <= j < lookup_samples(prefix, lookup, result, duration, base, providers)[i].labels.len(),
    ensures
        ({
            let pair = lookup_samples(prefix, lookup, result, duration, base, providers)[i].labels[j];
            ||| base.contains(pair)
            ||| pair.0 == "dns_server"@ && providers.contains(pair.1)
            ||| pair == ("record_type"@, lookup_label(lookup))
            ||| pair == ("record_hash"@, record_hash_text(result, lookup))
        }),
    decreases providers.len(),
{
    let before = lookup_samples(prefix, lookup, result, duration, base, providers.drop_last());
    let provider = providers.last();
    let labels = with_label(base, "dns_server"@, provider);
    let typed = with_label(labels, "record_type"@, lookup_label(lookup));
    let by_type = record_labels(labels, lookup, result);
    if i < before.len() {
        lemma_lookup_labels_among(
            prefix,
            lookup,
            result,
            duration,
            base,
            providers.drop_last(),
            i,
            j,
        );
        let pair = before[i].labels[j];
        if providers.drop_last().contains(pair.1) {
            let k = choose|k: int| 0 <= k < providers.drop_last().len() && providers.drop_last()[k]
                == pair.1;
            assert(providers[k] == pair.1);
        }
    } else {
        let own = provider_samples(prefix, lookup, result, duration, labels);
        let sample = own[i - before.len()];
        assert(providers[providers.len() - 1] == provider);
        if sample.labels == labels {
            lemma_with_label_pairs(base, "dns_server"@, provider, j);
        } else {
            assert(sample.labels == by_type);
            lemma_with_label_pairs(typed, "record_hash"@, record_hash_text(result, lookup), j);
            let pair = by_type[j];
            if typed.contains(pair) {
                let m = choose|m: int| 0 <= m < typed.len() && typed[m] == pair;
                lemma_with_label_pairs(labels, "record_type"@, lookup_label(lookup), m);
                if labels.contains(pair) {
                    let k = choose|k: int| 0 <= k < labels.len() && labels[k] == pair;
                    lemma_with_label_pairs(base, "dns_server"@, provider, k);
                }
            }
        }
    }
}

/// The metrics of a DNS probe.
pub open spec fn dns_descriptors(prefix: Seq<char>) -> Seq<DescriptorModel> {
    seq![
        described(
            prefix,
            "dns_lookup_success_total"@,
            "Total number of successful DNS lookups"@,
            MetricKind::Counter,
        ),
        described(
            prefix,
            "dns_lookup_failures_total"@,
            "Total number of DNS lookups that returned no record"@,
            MetricKind::Counter,
        ),
        described(
            prefix,
            "dns_lookup_error_total"@,
            "Total number of DNS lookup errors by type"@,
            MetricKind::Counter,
        ),
        described(prefix, "dns_lookup_total"@, "Total DNS lookups"@, MetricKind::Counter),
        described(
            prefix,
            "dns_lookup_success_ratio"@,
            "Ratio of successful DNS lookups to total lookups"@,
            MetricKind::Gauge,
        ),
        described(
            prefix,
            "dns_server_lookup_duration_ms"@,
            "Time taken to perform DNS lookup in ms"@,
            MetricKind::Histogram,
        ),
        described(
            prefix,
            "dns_record_hash"@,
            "Records the hash of the response the node saw"@,
            MetricKind::Gauge,
        ),
        described(
            prefix,
            "dns_records_count"@,
            "Number of records in DNS response"@,
            MetricKind::Gauge,
        ),
    ]
}

/// The collector of one DNS probe.
pub struct DnsCollector {
    config: &'static DnsConfig,
}

impl DnsCollector {
    /// The fingerprint of a record set.
    pub fn hash_records(records: &Vec<String>) -> (hash: u64)
        ensures
            hash == record_fingerprint(texts_of(records@)),
    {
        record_hash(records)
    }

    /// The sample for an error text that the service reported.
    pub fn record_failure_with_labels(&self, error: &str, labels: &LabelSet) -> (out: Vec<
        MetricSample,
    >)
        ensures
            samples_view(out@) == dns_failure(self.config().common_config.prefix@, labels@, error@),
    {
        let mut typed = labels.duplicate();
        typed.insert("error_type", String::from_str(classify_dns_error(error)));
        let mut out: Vec<MetricSample> = Vec::new();
        assert(samples_view(out@) =~= Seq::<SampleModel>::empty());
        emit(
            &mut out,
            self.config.common_config.prefix.as_str(),
            "dns_lookup_error_total",
            &typed,
            SampleValue::Count(1),
            MetricKind::Counter,
        );
        assert(samples_view(out@) =~= dns_failure(
            self.config().common_config.prefix@,
            labels@,
            error@,
        ));
        out
    }

    /// Adds to `out` the samples of a lookup for one resolver.
    pub fn record_success_metrics(
        &self,
        out: &mut Vec<MetricSample>,
        result: &DnsResult,
        duration: Reading,
        labels: &LabelSet,
    )
        ensures
            samples_view(final(out)@) == samples_view(old(out)@) + provider_samples(
                self.config().common_config.prefix@,
                self.config().lookup_type,
                *result,
                duration,
                labels@,
            ),
    {
        let prefix = self.config.common_config.prefix.as_str();
        let records = match self.config.lookup_type {
            LookupTypes::IP => &result.ips,
            LookupTypes::MX => &result.mx,
            LookupTypes::TXT => &result.txt,
            LookupTypes::NS => &result.ns,
            LookupTypes::SRV => &result.srv,
            LookupTypes::TLSA => &result.tlsa,
            LookupTypes::SOA => &result.soa,
        };
        assert(records@ == queried_records(*result, self.config().lookup_type));
        let count = records.len();
        let hash = Self::hash_records(records);
        let mut by_type = labels.duplicate();
        by_type.insert("record_type", String::from_str(self.config.lookup_type.label()));
        by_type.insert("record_hash", render_decimal(hash));
        emit(
            out,
            prefix,
            "dns_server_lookup_duration_ms",
            labels,
            SampleValue::Measure(duration),
            MetricKind::Histogram,
        );
        emit(out, prefix, "dns_record_hash", &by_type, SampleValue::Count(hash), MetricKind::Gauge);
        emit(
            out,
            prefix,
            "dns_records_count",
            &by_type,
            SampleValue::Count(count as u64),
            MetricKind::Gauge,
        );
        if count > 0 {
            emit(
                out,
                prefix,
                "dns_lookup_success_total",
                &by_type,
                SampleValue::Count(1),
                MetricKind::Counter,
            );
        } else {
            emit(
                out,
                prefix,
                "dns_lookup_failures_total",
                &by_type,
                SampleValue::Count(1),
                MetricKind::Counter,
            );
        }
        let ratio = if count > 0 {
            Reading::Value(1_000_000)
        } else {
            Reading::Value(0)
        };
        emit(
            out,
            prefix,
            "dns_lookup_success_ratio",
            &by_type,
            SampleValue::Measure(ratio),
            MetricKind::Gauge,
        );
        emit(out, prefix, "dns_lookup_total", &by_type, SampleValue::Count(1), MetricKind::Counter);
        assert(samples_view(out@) =~= samples_view(old(out)@) + provider_samples(
            self.config().common_config.prefix@,
            self.config().lookup_type,
            *result,
            duration,
            labels@,
        ));
    }

    /// The resolver addresses of a result, each without the decorations
    /// of transport.
    pub fn clean_servers(servers: &Vec<String>) -> (out: Vec<String>)
        ensures
            texts_of(out@) == cleaned_servers(servers@),
    {
        let mut out: Vec<String> = Vec::new();
        let mut i: usize = 0;
        while i < servers.len()
            invariant
                i <= servers@.len(),
                out@.len() == i,
                forall|j: int| 0 <= j < i ==> (#[trigger] out@[j])@ == cleaned_server(servers@[j]@),
            decreases servers.len() - i,
        {
            out.push(clean_server(servers[i].as_str()));
            i += 1;
        }
        assert(texts_of(out@) =~= cleaned_servers(servers@));
        out
    }

    /// The samples of a payload: those of the lookup, once for each
    /// provider among its resolvers.
    fn record_lookup(&self, result: &DnsResult, duration: Reading, base: &LabelSet) -> (out: Vec<
        MetricSample,
    >)
        ensures
            samples_view(out@) == lookup_samples(
                self.config().common_config.prefix@,
                self.config().lookup_type,
                *result,
                duration,
                base@,
                providers_of(cleaned_servers(result.dns_servers@)),
            ),
    {
        let servers = Self::clean_servers(&result.dns_servers);
        let providers = identify_dns_providers(&servers);
        let ghost names = texts_of(providers@);
        let mut out: Vec<MetricSample> = Vec::new();
        let mut i: usize = 0;
        assert(names.take(0) =~= Seq::<Seq<char>>::empty());
        assert(samples_view(out@) =~= Seq::<SampleModel>::empty());
        while i < providers.len()
            invariant
                i <= providers@.len(),
                names == texts_of(providers@),
                samples_view(out@) == lookup_samples(
                    self.config().common_config.prefix@,
                    self.config().lookup_type,
                    *result,
                    duration,
                    base@,
                    names.take(i as int),
                ),
            decreases providers.len() - i,
        {
            assert(names.take(i + 1).drop_last() =~= names.take(i as int));
            assert(names.take(i + 1).last() == providers@[i as int]@);
            let mut labels = base.duplicate();
            labels.insert("dns_server", providers[i].clone());
            self.record_success_metrics(&mut out, result, duration, &labels);
            i += 1;
        }
        assert(names.take(i as int) =~= names);
        out
    }
}

impl Collector for DnsCollector {
    type Config = DnsConfig;

    type Request = DnsRequest;

    type Response = DnsResponse;

    closed spec fn config(&self) -> DnsConfig {
        *self.config
    }

    open spec fn descriptors(&self) -> Seq<DescriptorModel> {
        dns_descriptors(self.config().common_config.prefix@)
    }

    open spec fn asks(&self, request: DnsRequest) -> bool {
        &&& request.targeting@ == targeting_of(self.config().common_config, true)
        &&& request.dns_servers@.len() == 0
        &&& texts_of(request.lookup_types@) == seq![lookup_name(self.config().lookup_type)]
    }

    open spec fn frequency(&self) -> Duration {
        self.config().common_config.frequency
    }

    open spec fn derived(&self, response: DnsResponse) -> Result<Seq<SampleModel>, ErrorModel> {
        dns_derived(self.config(), response)
    }

    open spec fn failure(&self, error: ErrorModel) -> Seq<SampleModel> {
        failure_samples(
            self.config().common_config.prefix@,
            "dns_lookup_error_total"@,
            endpoint_label(self.config().common_config),
            error,
        )
    }

    fn new(config: &'static DnsConfig) -> (collector: Self) {
        DnsCollector { config }
    }

    fn register_metrics(&self) -> (list: Vec<MetricDescriptor>) {
        let prefix = self.config.common_config.prefix.as_str();
        let mut list: Vec<MetricDescriptor> = Vec::new();
        assert(descriptors_view(list@) =~= Seq::<DescriptorModel>::empty());
        describe(
            &mut list,
            prefix,
            "dns_lookup_success_total",
            "Total number of successful DNS lookups",
            MetricKind::Counter,
        );
        describe(
            &mut list,
            prefix,
            "dns_lookup_failures_total",
            "Total number of DNS lookups that returned no record",
            MetricKind::Counter,
        );
        describe(
            &mut list,
            prefix,
            "dns_lookup_error_total",
            "Total number of DNS lookup errors by type",
            MetricKind::Counter,
        );
        describe(&mut list, prefix, "dns_lookup_total", "Total DNS lookups", MetricKind::Counter);
        describe(
            &mut list,
            prefix,
            "dns_lookup_success_ratio",
            "Ratio of successful DNS lookups to total lookups",
            MetricKind::Gauge,
        );
        describe(
            &mut list,
            prefix,
            "dns_server_lookup_duration_ms",
            "Time taken to perform DNS lookup in ms",
            MetricKind::Histogram,
        );
        describe(
            &mut list,
            prefix,
            "dns_record_hash",
            "Records the hash of the response the node saw",
            MetricKind::Gauge,
        );
        describe(
            &mut list,
            prefix,
            "dns_records_count",
            "Number of records in DNS response",
            MetricKind::Gauge,
        );
        assert(descriptors_view(list@) =~= dns_descriptors(self.config().common_config.prefix@));
        list
    }

    fn build_request(&self) -> (request: DnsRequest) {
        dns_request(self.config)
    }

    fn get_frequency(&self) -> (d: Duration) {
        self.config.common_config.frequency
    }

    fn handle_response(&self, response: DnsResponse) -> (r: Result<
        Vec<MetricSample>,
        CollectorErrors,
    >) {
        let endpoint = self.config.common_config.label();
        let node_info = match &response.node_info {
            Some(node) => node,
            None => {
                return Err(CollectorErrors::MissingNodeInfo(endpoint.clone()));
            },
        };
        let labels = make_base_labels(node_info, endpoint.as_str());
        if response.results.len() == 0 {
            return Err(CollectorErrors::MissingData(endpoint.clone(), "no_results"));
        }
        let first = &response.results[0];
        match &first.error {
            Some(error) => Ok(self.record_failure_with_labels(error.as_str(), &labels)),
            None => match &first.result {
                Some(result) => Ok(
                    self.record_lookup(result, reading_or_zero(first.duration), &labels),
                ),
                None => Err(CollectorErrors::MissingData(endpoint.clone(), "dns_result")),
            },
        }
    }

    fn handle_errors(&self, error: CollectorErrors) -> (samples: Vec<MetricSample>) {
        make_failure_samples(&self.config.common_config, "dns_lookup_error_total", &error)
    }

    proof fn lemma_derived_carries_base(&self, response: DnsResponse) {
        let config = self.config();
        let endpoint = endpoint_label(config.common_config);
        let prefix = config.common_config.prefix@;
        if response.node_info is Some && response.results@.len() > 0 {
            let node = response.node_info->Some_0;
            let first = response.results@[0];
            let labels = base_labels(node, endpoint);
            lemma_base_labels_carry(node, endpoint);
            match first.error {
                Some(e) => {
                    lemma_with_label_carries(labels, "error_type"@, dns_error_type(e@));
                },
                None => match first.result {
                    Some(result) => {
                        lemma_lookup_samples_carry(
                            prefix,
                            config.lookup_type,
                            result,
                            or_zero(first.duration),
                            labels,
                            providers_of(cleaned_servers(result.dns_servers@)),
                        );
                    },
                    None => {},
                },
            }
        }
    }

    proof fn lemma_failure_carries_base(&self, error: ErrorModel) {
        lemma_failure_samples_carry(
            self.config().common_config.prefix@,
            "dns_lookup_error_total"@,
            endpoint_label(self.config().common_config),
            error,
        );
    }
}

} // verus!
