//! The textual forms of IPv4 and IPv6 addresses.
//!
//! An IPv4 address is written as four decimal octets joined by dots, none
//! with a leading zero. An IPv6 address is written as hexadecimal groups of
//! up to four digits joined by colons; one run of zero groups may be
//! written as `::`, and the last two groups may be written as an IPv4
//! address.

use vstd::prelude::*;
use crate::text::{find_from, split, split_ranges};

verus! {

/// An address of either family: four octets, or eight groups of 16 bits.
#[derive(Clone, Copy, Debug, PartialEq, Eq)]
pub enum IpAddress {
    V4([u8; 4]),
    V6([u16; 8]),
}

/// The value of `c` as a digit in `base` (10 or 16); hexadecimal letters
/// count in either case.
pub open spec fn digit_of(c: char, base: int) -> Option<int> {
    let n = c as u32 as int;
    if 48 <= n <= 57 {
        Some(n - 48)
    } else if base == 16 && 97 <= n <= 102 {
        Some(n - 87)
    } else if base == 16 && 65 <= n <= 70 {
        Some(n - 55)
    } else {
        None
    }
}

/// Every character of `t` is a digit in `base`.
pub open spec fn all_digits(t: Seq<char>, base: int) -> bool {
    forall|i: int| 0 <= i < t.len() ==> digit_of(#[trigger] t[i], base) is Some
}

/// The number that the digits of `t` denote in `base`.
pub open spec fn digits_value(t: Seq<char>, base: int) -> int
    decreases t.len(),
{
    if t.len() == 0 {
        0
    } else {
        digits_value(t.drop_last(), base) * base + match digit_of(t.last(), base) {
            Some(d) => d,
            None => 0,
        }
    }
}

/// The number written by `t`: between one and `max_len` digits in `base`.
pub open spec fn number_of(t: Seq<char>, base: int, max_len: int) -> Option<int> {
    if 1 <= t.len() <= max_len && all_digits(t, base) {
        Some(digits_value(t, base))
    } else {
        None
    }
}

/// The octet written by `t`: one to three decimal digits, no leading zero
/// before another digit, at most 255.
pub open spec fn octet_of(t: Seq<char>) -> Option<u8> {
    match number_of(t, 10, 3) {
        Some(v) => if v <= 255 && (t.len() == 1 || t[0] != '0') {
            Some(v as u8)
        } else {
            None
        },
        None => None,
    }
}

/// The 16-bit group written by `t`: one to four hexadecimal digits.
pub open spec fn group_of(t: Seq<char>) -> Option<u16> {
    match number_of(t, 16, 4) {
        Some(v) => if v <= 0xffff {
            Some(v as u16)
        } else {
            None
        },
        None => None,
    }
}

/// The four octets written by `t` in dotted decimal.
pub open spec fn ipv4_of(t: Seq<char>) -> Option<Seq<u8>> {
    let p = split(t, '.');
    if p.len() == 4 && octet_of(p[0]) is Some && octet_of(p[1]) is Some && octet_of(p[2]) is Some
        && octet_of(p[3]) is Some {
        Some(
            seq![
                octet_of(p[0]).unwrap(),
                octet_of(p[1]).unwrap(),
                octet_of(p[2]).unwrap(),
                octet_of(p[3]).unwrap(),
            ],
        )
    } else {
        None
    }
}

/// The two 16-bit groups that four octets fill.
pub open spec fn octet_groups(o: Seq<u8>) -> Seq<u16> {
    seq![(o[0] as int * 256 + o[1] as int) as u16, (o[2] as int * 256 + o[3] as int) as u16]
}

/// Every one of the first `n` pieces writes a group.
pub open spec fn all_groups(p: Seq<Seq<char>>, n: int) -> bool {
    forall|i: int| 0 <= i < n ==> group_of(#[trigger] p[i]) is Some
}

/// The groups written by a list of pieces joined by colons. Where
/// `v4_tail` holds, the last piece may be an IPv4 address, which stands for
/// two groups.
pub open spec fn groups_of(t: Seq<char>, v4_tail: bool) -> Option<Seq<u16>> {
    let p = split(t, ':');
    let n = p.len() as int;
    if v4_tail && ipv4_of(p.last()) is Some {
        if all_groups(p, n - 1) {
            Some(
                Seq::new((n - 1) as nat, |i: int| group_of(p[i]).unwrap()) + octet_groups(
                    ipv4_of(p.last()).unwrap(),
                ),
            )
        } else {
            None
        }
    } else if all_groups(p, n) {
        Some(Seq::new(n as nat, |i: int| group_of(p[i]).unwrap()))
    } else {
        None
    }
}

/// The text `::`.
pub open spec fn double_colon() -> Seq<char> {
    seq![':', ':']
}

/// The first position of `::` in `t`, if there is one.
pub open spec fn first_double_colon(t: Seq<char>) -> Option<int> {
    if crate::text::occurs_in(t, double_colon()) {
        Some(
            choose|k: int|
                crate::text::occurs_at(t, double_colon(), k) && forall|j: int|
                    0 <= j < k ==> !crate::text::occurs_at(t, double_colon(), j),
        )
    } else {
        None
    }
}

/// The eight groups written by `t`. Without `::`, `t` writes all eight.
/// With `::`, the groups before it come first, those after it come last,
/// and at least one zero group stands between them.
pub open spec fn ipv6_of(t: Seq<char>) -> Option<Seq<u16>> {
    match first_double_colon(t) {
        None => match groups_of(t, true) {
            Some(g) => if g.len() == 8 {
                Some(g)
            } else {
                None
            },
            None => None,
        },
        Some(k) => {
            let head = if k == 0 {
                Some(Seq::<u16>::empty())
            } else {
                groups_of(t.take(k), false)
            };
            let tail = if k + 2 == t.len() {
                Some(Seq::<u16>::empty())
            } else {
                groups_of(t.skip(k + 2), true)
            };
            match (head, tail) {
                (Some(h), Some(l)) => if h.len() + l.len() <= 7 {
                    Some(h + Seq::new((8 - h.len() - l.len()) as nat, |i: int| 0u16) + l)
                } else {
                    None
                },
                _ => None,
            }
        },
    }
}

/// What an address holds, as plain values.
pub ghost enum AddressModel {
    V4(Seq<u8>),
    V6(Seq<u16>),
}

impl View for IpAddress {
    type V = AddressModel;

    open spec fn view(&self) -> AddressModel {
        match self {
            IpAddress::V4(o) => AddressModel::V4(o@),
            IpAddress::V6(g) => AddressModel::V6(g@),
        }
    }
}

/// The address written by `t`: an IPv4 address, else an IPv6 address.
pub open spec fn address_of(t: Seq<char>) -> Option<AddressModel> {
    match ipv4_of(t) {
        Some(o) => Some(AddressModel::V4(o)),
        None => match ipv6_of(t) {
            Some(g) => Some(AddressModel::V6(g)),
            None => None,
        },
    }
}

/// The value of `c` as a digit in `base`.
fn digit_value(c: char, base: u32) -> (r: Option<u32>)
    requires
        base == 10 || base == 16,
    ensures
        match r {
            Some(d) => digit_of(c, base as int) == Some(d as int) && d < 16,
            None => digit_of(c, base as int) is None,
        },
{
    let n: u32 = c as u32;
    if 48 <= n && n <= 57 {
        Some(n - 48)
    } else if base == 16 && 97 <= n && n <= 102 {
        Some(n - 87)
    } else if base == 16 && 65 <= n && n <= 70 {
        Some(n - 55)
    } else {
        None
    }
}

/// Reads the part `[from, to)` of `t` as a number of one to `max_len`
/// digits in `base`.
fn parse_number(t: &Vec<char>, from: usize, to: usize, base: u32, max_len: usize) -> (r: Option<
    u32,
>)
    requires
        from <= to <= t@.len(),
        base == 10 || base == 16,
        1 <= max_len <= 4,
    ensures
        match r {
            Some(v) => number_of(t@.subrange(from as int, to as int), base as int, max_len as int)
                == Some(v as int) && v <= 0xffff,
            None => number_of(t@.subrange(from as int, to as int), base as int, max_len as int)
                is None,
        },
{
    let ghost part = t@.subrange(from as int, to as int);
    if to - from < 1 || to - from > max_len {
        return None;
    }
    let mut v: u32 = 0;
    let mut i: usize = from;
    assert(t@.subrange(from as int, from as int) =~= Seq::<char>::empty());
    while i < to
        invariant
            from <= i <= to <= t@.len(),
            to - from <= 4,
            base == 10 || base == 16,
            part == t@.subrange(from as int, to as int),
            all_digits(t@.subrange(from as int, i as int), base as int),
            v == digits_value(t@.subrange(from as int, i as int), base as int),
            i - from == 0 ==> v == 0,
            i - from == 1 ==> v < 0x10,
            i - from == 2 ==> v < 0x100,
            i - from == 3 ==> v < 0x1000,
            i - from == 4 ==> v < 0x10000,
        decreases to - i,
    {
        let ghost prev = t@.subrange(from as int, i as int);
        let ghost next = t@.subrange(from as int, i + 1);
        assert(next.drop_last() =~= prev);
        assert(next.last() == t@[i as int]);
        match digit_value(t[i], base) {
            Some(d) => {
                assert forall|j: int| 0 <= j < next.len() implies digit_of(
                    #[trigger] next[j],
                    base as int,
                ) is Some by {
                    if j < prev.len() {
                        assert(next[j] == prev[j]);
                    }
                }
                v = v * base + d;
            },
            None => {
                assert(part[i - from] == t@[i as int]);
                return None;
            },
        }
        i += 1;
    }
    assert(t@.subrange(from as int, i as int) =~= part);
    Some(v)
}

/// Reads the part `[from, to)` of `t` as a decimal octet.
fn parse_octet(t: &Vec<char>, from: usize, to: usize) -> (r: Option<u8>)
    requires
        from <= to <= t@.len(),
    ensures
        r == octet_of(t@.subrange(from as int, to as int)),
{
    match parse_number(t, from, to, 10, 3) {
        Some(v) => {
            assert(t@.subrange(from as int, to as int)[0] == t@[from as int]);
            if v <= 255 && (to - from == 1 || t[from] != '0') {
                Some(v as u8)
            } else {
                None
            }
        },
        None => None,
    }
}

/// Reads the part `[from, to)` of `t` as a hexadecimal group.
fn parse_group(t: &Vec<char>, from: usize, to: usize) -> (r: Option<u16>)
    requires
        from <= to <= t@.len(),
    ensures
        r == group_of(t@.subrange(from as int, to as int)),
{
    match parse_number(t, from, to, 16, 4) {
        Some(v) => Some(v as u16),
        None => None,
    }
}

/// Reads the part `[from, to)` of `t` as an IPv4 address.
fn parse_ipv4(t: &Vec<char>, from: usize, to: usize) -> (r: Option<[u8; 4]>)
    requires
        from <= to <= t@.len(),
    ensures
        match r {
            Some(o) => ipv4_of(t@.subrange(from as int, to as int)) == Some(o@),
            None => ipv4_of(t@.subrange(from as int, to as int)) is None,
        },
{
    let parts = split_ranges(t, from, to, '.');
    if parts.len() != 4 {
        return None;
    }
    let a = parse_octet(t, parts[0].0, parts[0].1);
    let b = parse_octet(t, parts[1].0, parts[1].1);
    let c = parse_octet(t, parts[2].0, parts[2].1);
    let d = parse_octet(t, parts[3].0, parts[3].1);
    match (a, b, c, d) {
        (Some(a), Some(b), Some(c), Some(d)) => {
            let o: [u8; 4] = [a, b, c, d];
            assert(o@ =~= seq![a, b, c, d]);
            Some(o)
        },
        _ => None,
    }
}

/// Reads the part `[from, to)` of `t` as groups joined by colons.
fn parse_groups(t: &Vec<char>, from: usize, to: usize, v4_tail: bool) -> (r: Option<Vec<u16>>)
    requires
        from <= to <= t@.len(),
    ensures
        match r {
            Some(g) => groups_of(t@.subrange(from as int, to as int), v4_tail) == Some(g@),
            None => groups_of(t@.subrange(from as int, to as int), v4_tail) is None,
        },
{
    let ghost part = t@.subrange(from as int, to as int);
    let ghost p = split(part, ':');
    let parts = split_ranges(t, from, to, ':');
    let n = parts.len();
    let last = parts[n - 1];
    assert(t@.subrange(last.0 as int, last.1 as int) == p.last());
    let v4 = if v4_tail {
        parse_ipv4(t, last.0, last.1)
    } else {
        None
    };
    let hex_count = if v4.is_some() {
        n - 1
    } else {
        n
    };
    let mut out: Vec<u16> = Vec::new();
    let mut i: usize = 0;
    while i < hex_count
        invariant
            i <= hex_count <= n,
            n == parts@.len(),
            n == p.len(),
            out@.len() == i,
            forall|k: int|
                0 <= k < n ==> from <= (#[trigger] parts@[k]).0 <= parts@[k].1 <= to
                    && t@.subrange(parts@[k].0 as int, parts@[k].1 as int) == p[k],
            to <= t@.len(),
            forall|j: int| 0 <= j < i ==> group_of(#[trigger] p[j]) == Some(out@[j]),
            p == split(t@.subrange(from as int, to as int), ':'),
            (v4_tail && ipv4_of(p.last()) is Some) ==> hex_count == n - 1,
            !(v4_tail && ipv4_of(p.last()) is Some) ==> hex_count == n,
        decreases hex_count - i,
    {
        match parse_group(t, parts[i].0, parts[i].1) {
            Some(g) => {
                out.push(g);
            },
            None => {
                assert(group_of(p[i as int]) is None);
                assert(!all_groups(p, hex_count as int));
                return None;
            },
        }
        i += 1;
    }
    assert(all_groups(p, hex_count as int));
    assert(out@ =~= Seq::new(hex_count as nat, |i: int| group_of(p[i]).unwrap()));
    match v4 {
        Some(o) => {
            let hi: u16 = (o[0] as u16) * 256 + (o[1] as u16);
            let lo: u16 = (o[2] as u16) * 256 + (o[3] as u16);
            let ghost hex = out@;
            out.push(hi);
            out.push(lo);
            assert(out@ =~= hex + octet_groups(o@));
            Some(out)
        },
        None => Some(out),
    }
}

/// The group at position `i` of an address whose first groups are `head`,
/// whose last groups are `tail`, and whose other groups are zero.
fn placed_group(head: &Vec<u16>, tail: &Vec<u16>, i: usize) -> (g: u16)
    requires
        head@.len() + tail@.len() <= 8,
        i < 8,
    ensures
        g == (head@ + Seq::new((8 - head@.len() - tail@.len()) as nat, |i: int| 0u16)
            + tail@)[i as int],
{
    if i < head.len() {
        head[i]
    } else if i >= 8 - tail.len() {
        tail[i - (8 - tail.len())]
    } else {
        0
    }
}

/// The first position of `::` is the one where it stands with none before.
proof fn lemma_first_double_colon(t: Seq<char>, k: int)
    requires
        crate::text::occurs_at(t, double_colon(), k),
        forall|j: int| 0 <= j < k ==> !crate::text::occurs_at(t, double_colon(), j),
    ensures
        first_double_colon(t) == Some(k),
{
    let c = choose|c: int|
        crate::text::occurs_at(t, double_colon(), c) && forall|j: int|
            0 <= j < c ==> !crate::text::occurs_at(t, double_colon(), j);
    if c < k {
        assert(!crate::text::occurs_at(t, double_colon(), c));
    } else if k < c {
        assert(!crate::text::occurs_at(t, double_colon(), k));
    }
}

/// The eight groups of an address from those before and after its `::`.
fn assemble(head: &Vec<u16>, tail: &Vec<u16>) -> (r: Option<[u16; 8]>)
    ensures
        match r {
            Some(g) => head@.len() + tail@.len() <= 7 && g@ == head@ + Seq::new(
                (8 - head@.len() - tail@.len()) as nat,
                |i: int| 0u16,
            ) + tail@,
            None => head@.len() + tail@.len() > 7,
        },
{
    if head.len() <= 7 && tail.len() <= 7 - head.len() {
        let out: [u16; 8] = [
            placed_group(head, tail, 0),
            placed_group(head, tail, 1),
            placed_group(head, tail, 2),
            placed_group(head, tail, 3),
            placed_group(head, tail, 4),
            placed_group(head, tail, 5),
            placed_group(head, tail, 6),
            placed_group(head, tail, 7),
        ];
        assert(out@ =~= head@ + Seq::new((8 - head@.len() - tail@.len()) as nat, |i: int| 0u16)
            + tail@);
        Some(out)
    } else {
        None
    }
}

/// Reads `t`, in which `::` first stands at `k`, as an IPv6 address.
fn parse_compressed(t: &Vec<char>, k: usize) -> (r: Option<[u16; 8]>)
    requires
        first_double_colon(t@) == Some(k as int),
        k + 2 <= t@.len(),
    ensures
        match r {
            Some(g) => ipv6_of(t@) == Some(g@),
            None => ipv6_of(t@) is None,
        },
{
    assert(t@.take(k as int) =~= t@.subrange(0, k as int));
    assert(t@.skip(k + 2) =~= t@.subrange(k + 2, t@.len() as int));
    let head = if k == 0 {
        Some(Vec::new())
    } else {
        parse_groups(t, 0, k, false)
    };
    let n = t.len();
    let tail = if n - k == 2 {
        Some(Vec::new())
    } else {
        parse_groups(t, k + 2, n, true)
    };
    match (head, tail) {
        (Some(h), Some(l)) => assemble(&h, &l),
        _ => None,
    }
}

/// Reads `t`, in which no `::` stands, as an IPv6 address.
fn parse_full(t: &Vec<char>) -> (r: Option<[u16; 8]>)
    requires
        first_double_colon(t@) is None,
    ensures
        match r {
            Some(g) => ipv6_of(t@) == Some(g@),
            None => ipv6_of(t@) is None,
        },
{
    assert(t@.subrange(0, t@.len() as int) =~= t@);
    match parse_groups(t, 0, t.len(), true) {
        Some(g) => {
            if g.len() == 8 {
                let out: [u16; 8] = [g[0], g[1], g[2], g[3], g[4], g[5], g[6], g[7]];
                assert(out@ =~= g@);
                Some(out)
            } else {
                None
            }
        },
        None => None,
    }
}

/// Reads `t` as an IPv6 address.
fn parse_ipv6(t: &Vec<char>) -> (r: Option<[u16; 8]>)
    ensures
        match r {
            Some(g) => ipv6_of(t@) == Some(g@),
            None => ipv6_of(t@) is None,
        },
{
    let mut mark: Vec<char> = Vec::new();
    mark.push(':');
    mark.push(':');
    assert(mark@ =~= double_colon());
    match find_from(t, &mark, 0) {
        None => {
            assert(!crate::text::occurs_in(t@, double_colon()));
            parse_full(t)
        },
        Some(k) => {
            proof {
                lemma_first_double_colon(t@, k as int);
            }
            parse_compressed(t, k)
        },
    }
}

/// Reads `t` as an address: as IPv4 where it is one, else as IPv6.
pub fn parse_address_chars(t: &Vec<char>) -> (r: Option<IpAddress>)
    ensures
        match r {
            Some(a) => address_of(t@) == Some(a@),
            None => address_of(t@) is None,
        },
{
    assert(t@.subrange(0, t@.len() as int) =~= t@);
    match parse_ipv4(t, 0, t.len()) {
        Some(o) => Some(IpAddress::V4(o)),
        None => match parse_ipv6(t) {
            Some(g) => Some(IpAddress::V6(g)),
            None => None,
        },
    }
}

/// Reads `s` as an address. Returns `None` exactly where `s` is neither an
/// IPv4 nor an IPv6 address.
pub fn parse_address(s: &str) -> (r: Option<IpAddress>)
    ensures
        match r {
            Some(a) => address_of(s@) == Some(a@),
            None => address_of(s@) is None,
        },
{
    let t = crate::text::chars_of(s);
    parse_address_chars(&t)
}

} // verus!
