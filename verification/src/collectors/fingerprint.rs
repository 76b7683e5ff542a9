//! The fingerprint of a record set: a 64-bit hash of the lower-case forms
//! of the records, taken as a set. Neither the order of the records nor
//! their letter case nor repetition changes it.

use vstd::prelude::*;
use std::collections::hash_map::DefaultHasher;
use std::hash::Hasher;
use vstd::bytes::{spec_u64_to_le_bytes, u64_to_le_bytes};
use vstd::std_specs::hash::DefaultHasherAdditionalSpecFns;
use vstd::utf8::encode_utf8;
use crate::text::{chars_of, lowercase_of, same_text, texts_of, to_lowercase};

verus! {

/// The order of texts: by the first character in which they differ, a
/// proper prefix before its extensions.
pub open spec fn text_less(a: Seq<char>, b: Seq<char>) -> bool
    decreases a.len(),
{
    if b.len() == 0 {
        false
    } else if a.len() == 0 {
        true
    } else if a[0] != b[0] {
        (a[0] as u32) < (b[0] as u32)
    } else {
        text_less(a.skip(1), b.skip(1))
    }
}

/// No text comes before itself.
pub proof fn lemma_less_irreflexive(a: Seq<char>)
    ensures
        !text_less(a, a),
    decreases a.len(),
{
    if a.len() > 0 {
        lemma_less_irreflexive(a.skip(1));
    }
}

/// Of two different texts, one comes before the other.
pub proof fn lemma_less_total(a: Seq<char>, b: Seq<char>)
    ensures
        a == b || text_less(a, b) || text_less(b, a),
    decreases a.len(),
{
    if a.len() > 0 && b.len() > 0 && a[0] == b[0] {
        lemma_less_total(a.skip(1), b.skip(1));
        if a.skip(1) == b.skip(1) {
            assert(a =~= seq![a[0]] + a.skip(1));
            assert(b =~= seq![b[0]] + b.skip(1));
        }
    } else if a.len() == 0 && b.len() == 0 {
        assert(a =~= b);
    } else if a.len() > 0 && b.len() > 0 {
        vstd::utf8::char_u32_cast(a[0], a[0] as u32);
        vstd::utf8::char_u32_cast(b[0], b[0] as u32);
    }
}

/// The order of texts is transitive.
pub proof fn lemma_less_transitive(a: Seq<char>, b: Seq<char>, c: Seq<char>)
    requires
        text_less(a, b),
        text_less(b, c),
    ensures
        text_less(a, c),
    decreases a.len(),
{
    if a.len() > 0 && b.len() > 0 && c.len() > 0 {
        if a[0] == b[0] && b[0] == c[0] {
            lemma_less_transitive(a.skip(1), b.skip(1), c.skip(1));
        }
    }
}

/// Two texts never come before each other.
pub proof fn lemma_less_asymmetric(a: Seq<char>, b: Seq<char>)
    requires
        text_less(a, b),
    ensures
        !text_less(b, a),
{
    if text_less(b, a) {
        lemma_less_transitive(a, b, a);
        lemma_less_irreflexive(a);
    }
}

/// Texts that agree in their first `i` characters are ordered as their
/// rests are.
proof fn lemma_less_after_prefix(a: Seq<char>, b: Seq<char>, i: int)
    requires
        0 <= i <= a.len(),
        i <= b.len(),
        forall|j: int| 0 <= j < i ==> a[j] == b[j],
    ensures
        text_less(a, b) == text_less(a.skip(i), b.skip(i)),
    decreases i,
{
    if i == 0 {
        assert(a.skip(0) =~= a);
        assert(b.skip(0) =~= b);
    } else {
        assert(a[0] == b[0]);
        assert forall|j: int| 0 <= j < i - 1 implies a.skip(1)[j] == b.skip(1)[j] by {
            assert(a[j + 1] == b[j + 1]);
        }
        lemma_less_after_prefix(a.skip(1), b.skip(1), i - 1);
        assert(a.skip(1).skip(i - 1) =~= a.skip(i));
        assert(b.skip(1).skip(i - 1) =~= b.skip(i));
    }
}

/// Whether `a` comes before `b` in the order of texts.
pub fn is_text_less(a: &str, b: &str) -> (less: bool)
    ensures
        less == text_less(a@, b@),
{
    let x = chars_of(a);
    let y = chars_of(b);
    let mut i: usize = 0;
    while i < x.len() && i < y.len()
        invariant
            i <= x@.len(),
            i <= y@.len(),
            x@ == a@,
            y@ == b@,
            forall|j: int| 0 <= j < i ==> x@[j] == y@[j],
        decreases x.len() - i,
    {
        if x[i] != y[i] {
            proof {
                lemma_less_after_prefix(x@, y@, i as int);
            }
            return (x[i] as u32) < (y[i] as u32);
        }
        i += 1;
    }
    proof {
        lemma_less_after_prefix(x@, y@, i as int);
    }
    i < y.len()
}

/// Every text of `q` comes before every later one.
pub open spec fn strictly_sorted(q: Seq<Seq<char>>) -> bool {
    forall|i: int, j: int| 0 <= i < j < q.len() ==> text_less(#[trigger] q[i], #[trigger] q[j])
}

/// The number of texts at the front of `q` that come before `t`.
pub open spec fn rank(q: Seq<Seq<char>>, t: Seq<char>) -> int
    decreases q.len(),
{
    if q.len() > 0 && text_less(q[0], t) {
        1 + rank(q.skip(1), t)
    } else {
        0
    }
}

/// `q` with `t` put at its place in the order, unless it stands there
/// already.
pub open spec fn inserted(q: Seq<Seq<char>>, t: Seq<char>) -> Seq<Seq<char>> {
    let p = rank(q, t);
    if p < q.len() && q[p] == t {
        q
    } else {
        q.insert(p, t)
    }
}

/// The given texts, each once, in the order of texts.
pub open spec fn sorted_set(texts: Seq<Seq<char>>) -> Seq<Seq<char>>
    decreases texts.len(),
{
    if texts.len() == 0 {
        Seq::empty()
    } else {
        inserted(sorted_set(texts.drop_last()), texts.last())
    }
}

/// The lower-case forms of the records, one for one.
pub open spec fn lowered_texts(records: Seq<Seq<char>>) -> Seq<Seq<char>> {
    records.map_values(|t: Seq<char>| lowercase_of(t))
}

/// The canonical form of a record set: the lower-case forms of the
/// records, each once, in the order of texts.
pub open spec fn canonical(records: Seq<Seq<char>>) -> Seq<Seq<char>> {
    sorted_set(lowered_texts(records))
}

/// The set of the lower-case forms of the records.
pub open spec fn lowered(records: Seq<Seq<char>>) -> Set<Seq<char>> {
    Set::new(
        |t: Seq<char>| exists|i: int| 0 <= i < records.len() && lowercase_of(#[trigger] records[i]) == t,
    )
}

/// The rank is the position before which all texts come before `t`, and
/// at which the text does not.
proof fn lemma_rank_is(q: Seq<Seq<char>>, t: Seq<char>, p: int)
    requires
        0 <= p <= q.len(),
        forall|i: int| 0 <= i < p ==> text_less(#[trigger] q[i], t),
        p < q.len() ==> !text_less(q[p], t),
    ensures
        rank(q, t) == p,
    decreases p,
{
    if p > 0 {
        assert(text_less(q[0], t));
        assert forall|i: int| 0 <= i < p - 1 implies text_less(#[trigger] q.skip(1)[i], t) by {
            assert(q.skip(1)[i] == q[i + 1]);
        }
        lemma_rank_is(q.skip(1), t, p - 1);
    }
}

/// What the rank of `t` in `q` says of the texts of `q`.
proof fn lemma_rank_bounds(q: Seq<Seq<char>>, t: Seq<char>)
    ensures
        0 <= rank(q, t) <= q.len(),
        forall|i: int| 0 <= i < rank(q, t) ==> text_less(#[trigger] q[i], t),
        rank(q, t) < q.len() ==> !text_less(q[rank(q, t)], t),
    decreases q.len(),
{
    if q.len() > 0 && text_less(q[0], t) {
        lemma_rank_bounds(q.skip(1), t);
        let r = rank(q.skip(1), t);
        assert forall|i: int| 0 <= i < r + 1 implies text_less(#[trigger] q[i], t) by {
            if i > 0 {
                assert(q.skip(1)[i - 1] == q[i]);
            }
        }
        if r + 1 < q.len() {
            assert(q.skip(1)[r] == q[r + 1]);
        }
    }
}

/// Putting a text into a sorted sequence leaves it sorted and adds that
/// text to what the sequence holds.
pub proof fn lemma_inserted(q: Seq<Seq<char>>, t: Seq<char>)
    requires
        strictly_sorted(q),
    ensures
        strictly_sorted(inserted(q, t)),
        inserted(q, t).to_set() == q.to_set().insert(t),
{
    lemma_rank_bounds(q, t);
    let p = rank(q, t);
    let out = inserted(q, t);
    if p < q.len() && q[p] == t {
        assert(q.to_set().contains(t));
        assert(q.to_set() =~= q.to_set().insert(t));
    } else {
        assert forall|i: int, j: int| 0 <= i < j < out.len() implies text_less(
            #[trigger] out[i],
            #[trigger] out[j],
        ) by {
            if j == p {
                assert(out[i] == q[i]);
            } else if i == p {
                assert(out[j] == q[j - 1]);
                lemma_less_total(q[p], t);
                if j - 1 > p {
                    assert(text_less(q[p], q[j - 1]));
                    lemma_less_transitive(t, q[p], q[j - 1]);
                }
            } else if j < p {
                assert(out[i] == q[i] && out[j] == q[j]);
            } else if i < p {
                assert(out[i] == q[i] && out[j] == q[j - 1]);
            } else {
                assert(out[i] == q[i - 1] && out[j] == q[j - 1]);
            }
        }
        assert forall|x: Seq<char>| out.to_set().contains(x) <==> q.to_set().insert(t).contains(
            x,
        ) by {
            if out.to_set().contains(x) {
                let k = choose|k: int| 0 <= k < out.len() && out[k] == x;
                if k < p {
                    assert(q[k] == x);
                } else if k > p {
                    assert(q[k - 1] == x);
                }
            }
            if q.to_set().contains(x) {
                let k = choose|k: int| 0 <= k < q.len() && q[k] == x;
                if k < p {
                    assert(out[k] == x);
                } else {
                    assert(out[k + 1] == x);
                }
            }
            if x == t {
                assert(out[p] == t);
            }
        }
        assert(out.to_set() =~= q.to_set().insert(t));
    }
}

/// The sorted set of some texts is sorted, and holds these texts and
/// nothing else.
pub proof fn lemma_sorted_set(texts: Seq<Seq<char>>)
    ensures
        strictly_sorted(sorted_set(texts)),
        sorted_set(texts).to_set() == texts.to_set(),
    decreases texts.len(),
{
    if texts.len() == 0 {
        assert(sorted_set(texts).to_set() =~= texts.to_set());
    } else {
        let init = texts.drop_last();
        let t = texts.last();
        lemma_sorted_set(init);
        lemma_inserted(sorted_set(init), t);
        assert forall|x: Seq<char>| texts.to_set().contains(x) <==> init.to_set().insert(
            t,
        ).contains(x) by {
            if texts.to_set().contains(x) {
                let i = choose|i: int| 0 <= i < texts.len() && texts[i] == x;
                if i < init.len() {
                    assert(init[i] == x);
                }
            }
            if init.to_set().contains(x) {
                let i = choose|i: int| 0 <= i < init.len() && init[i] == x;
                assert(texts[i] == x);
            }
            if x == t {
                assert(texts[texts.len() - 1] == x);
            }
        }
        assert(texts.to_set() =~= init.to_set().insert(t));
    }
}

/// The canonical form is sorted, and holds the lower-case forms of the
/// records and nothing else.
pub proof fn lemma_canonical(records: Seq<Seq<char>>)
    ensures
        strictly_sorted(canonical(records)),
        canonical(records).to_set() == lowered(records),
{
    let lower = lowered_texts(records);
    lemma_sorted_set(lower);
    assert forall|x: Seq<char>| lower.to_set().contains(x) <==> lowered(records).contains(x) by {
        if lower.to_set().contains(x) {
            let i = choose|i: int| 0 <= i < lower.len() && lower[i] == x;
            assert(lowercase_of(records[i]) == x);
        }
        if lowered(records).contains(x) {
            let i = choose|i: int|
                0 <= i < records.len() && lowercase_of(#[trigger] records[i]) == x;
            assert(lower[i] == x);
        }
    }
    assert(lower.to_set() =~= lowered(records));
}

/// Two sorted sequences that hold the same texts are the same sequence.
pub proof fn lemma_sorted_unique(a: Seq<Seq<char>>, b: Seq<Seq<char>>)
    requires
        strictly_sorted(a),
        strictly_sorted(b),
        a.to_set() == b.to_set(),
    ensures
        a == b,
    decreases a.len(),
{
    if a.len() == 0 {
        if b.len() > 0 {
            assert(b.to_set().contains(b[0]));
            assert(a.to_set().contains(b[0]));
        }
        assert(a =~= b);
    } else {
        assert(a.to_set().contains(a[0]));
        assert(b.to_set().contains(a[0]));
        let j = choose|j: int| 0 <= j < b.len() && b[j] == a[0];
        assert(b.to_set().contains(b[0]));
        assert(a.to_set().contains(b[0]));
        let i = choose|i: int| 0 <= i < a.len() && a[i] == b[0];
        if j > 0 {
            assert(text_less(b[0], b[j]));
            if i == 0 {
                lemma_less_irreflexive(a[0]);
            } else {
                assert(text_less(a[0], a[i]));
                lemma_less_asymmetric(a[0], a[i]);
            }
        }
        assert(a[0] == b[0]);
        let ta = a.skip(1);
        let tb = b.skip(1);
        assert forall|x: Seq<char>| ta.to_set().contains(x) <==> tb.to_set().contains(x) by {
            lemma_less_irreflexive(x);
            if ta.to_set().contains(x) {
                let k = choose|k: int| 0 <= k < ta.len() && ta[k] == x;
                assert(a[k + 1] == x);
                assert(a.to_set().contains(x));
                assert(b.to_set().contains(x));
                let m = choose|m: int| 0 <= m < b.len() && b[m] == x;
                if m == 0 {
                    assert(text_less(a[0], a[k + 1]));
                } else {
                    assert(tb[m - 1] == x);
                }
            }
            if tb.to_set().contains(x) {
                let k = choose|k: int| 0 <= k < tb.len() && tb[k] == x;
                assert(b[k + 1] == x);
                assert(b.to_set().contains(x));
                assert(a.to_set().contains(x));
                let m = choose|m: int| 0 <= m < a.len() && a[m] == x;
                if m == 0 {
                    assert(text_less(b[0], b[k + 1]));
                } else {
                    assert(ta[m - 1] == x);
                }
            }
        }
        assert(ta.to_set() =~= tb.to_set());
        assert forall|i: int, j: int| 0 <= i < j < ta.len() implies text_less(
            #[trigger] ta[i],
            #[trigger] ta[j],
        ) by {
            assert(ta[i] == a[i + 1] && ta[j] == a[j + 1]);
        }
        assert forall|i: int, j: int| 0 <= i < j < tb.len() implies text_less(
            #[trigger] tb[i],
            #[trigger] tb[j],
        ) by {
            assert(tb[i] == b[i + 1] && tb[j] == b[j + 1]);
        }
        lemma_sorted_unique(ta, tb);
        assert(a =~= seq![a[0]] + ta);
        assert(b =~= seq![b[0]] + tb);
    }
}

/// Puts `t` at its place in the list `q`, which is in the order of texts,
/// unless it stands there.
pub fn insert_sorted(q: &mut Vec<String>, t: String)
    ensures
        texts_of(final(q)@) == inserted(texts_of(old(q)@), t@),
{
    let ghost before = texts_of(q@);
    let mut p: usize = 0;
    while p < q.len() && is_text_less(q[p].as_str(), t.as_str())
        invariant
            p <= q@.len(),
            before == texts_of(q@),
            forall|i: int| 0 <= i < p ==> text_less(#[trigger] before[i], t@),
        decreases q.len() - p,
    {
        p += 1;
    }
    proof {
        lemma_rank_is(before, t@, p as int);
    }
    if p < q.len() && same_text(q[p].as_str(), t.as_str()) {
    } else {
        let ghost text = t@;
        q.insert(p, t);
        assert(texts_of(q@) =~= before.insert(p as int, text));
    }
}

/// The given texts, each once, in the order of texts.
pub fn sort_texts(texts: &Vec<String>) -> (sorted: Vec<String>)
    ensures
        texts_of(sorted@) == sorted_set(texts_of(texts@)),
{
    let mut sorted: Vec<String> = Vec::new();
    let mut i: usize = 0;
    assert(texts_of(texts@).take(0) =~= Seq::<Seq<char>>::empty());
    assert(texts_of(sorted@) =~= Seq::<Seq<char>>::empty());
    while i < texts.len()
        invariant
            i <= texts@.len(),
            texts_of(sorted@) == sorted_set(texts_of(texts@).take(i as int)),
        decreases texts.len() - i,
    {
        let ghost prefix = texts_of(texts@).take(i + 1);
        assert(prefix.drop_last() =~= texts_of(texts@).take(i as int));
        assert(prefix.last() == texts@[i as int]@);
        insert_sorted(&mut sorted, texts[i].clone());
        i += 1;
    }
    assert(texts_of(texts@).take(i as int) =~= texts_of(texts@));
    sorted
}

/// The lower-case forms of the records, one for one.
pub fn lower_records(records: &Vec<String>) -> (lower: Vec<String>)
    ensures
        texts_of(lower@) == lowered_texts(texts_of(records@)),
{
    let mut lower: Vec<String> = Vec::new();
    let mut i: usize = 0;
    while i < records.len()
        invariant
            i <= records@.len(),
            lower@.len() == i,
            forall|j: int| 0 <= j < i ==> (#[trigger] lower@[j])@ == lowercase_of(records@[j]@),
        decreases records.len() - i,
    {
        lower.push(to_lowercase(records[i].as_str()));
        i += 1;
    }
    assert(texts_of(lower@) =~= lowered_texts(texts_of(records@)));
    lower
}

/// The canonical form of a record set.
pub fn canonical_records(records: &Vec<String>) -> (canon: Vec<String>)
    ensures
        texts_of(canon@) == canonical(texts_of(records@)),
{
    let lower = lower_records(records);
    sort_texts(&lower)
}

/// What the hasher is fed for each text of a canonical form: its UTF-8
/// bytes, then the byte `0xff`.
pub open spec fn entry_writes(canon: Seq<Seq<char>>) -> Seq<Seq<u8>>
    decreases canon.len(),
{
    if canon.len() == 0 {
        Seq::empty()
    } else {
        entry_writes(canon.drop_last()).push(encode_utf8(canon.last())).push(seq![0xffu8])
    }
}

/// What the hasher is fed for a canonical form: the number of its texts
/// as eight bytes, least significant first, then each text.
pub open spec fn fingerprint_writes(canon: Seq<Seq<char>>) -> Seq<Seq<u8>> {
    seq![spec_u64_to_le_bytes(canon.len() as u64)] + entry_writes(canon)
}

/// The fingerprint of a set of texts: the hash, by the standard hasher in
/// its initial state, of the texts, each once, in the order of texts.
pub open spec fn text_fingerprint(texts: Seq<Seq<char>>) -> u64 {
    DefaultHasher::spec_finish(fingerprint_writes(sorted_set(texts)))
}

/// The fingerprint of a record set: that of the lower-case forms of its
/// records.
pub open spec fn record_fingerprint(records: Seq<Seq<char>>) -> u64 {
    text_fingerprint(lowered_texts(records))
}

/// The fingerprint of the set of the given texts, as they are spelled.
pub fn fingerprint_texts(texts: &Vec<String>) -> (hash: u64)
    ensures
        hash == text_fingerprint(texts_of(texts@)),
{
    let canon = sort_texts(texts);
    let ghost sorted = texts_of(canon@);
    let mut hasher = DefaultHasher::new();
    let count = u64_to_le_bytes(canon.len() as u64);
    hasher.write(count.as_slice());
    let mut mark: Vec<u8> = Vec::new();
    mark.push(0xff);
    let mut i: usize = 0;
    assert(sorted.take(0) =~= Seq::<Seq<char>>::empty());
    assert(hasher@ =~= seq![spec_u64_to_le_bytes(canon@.len() as u64)] + entry_writes(
        sorted.take(0),
    ));
    while i < canon.len()
        invariant
            i <= canon@.len(),
            sorted == texts_of(canon@),
            mark@ == seq![0xffu8],
            hasher@ == seq![spec_u64_to_le_bytes(canon@.len() as u64)] + entry_writes(
                sorted.take(i as int),
            ),
        decreases canon.len() - i,
    {
        let ghost prefix = sorted.take(i + 1);
        assert(prefix.drop_last() =~= sorted.take(i as int));
        assert(prefix.last() == canon@[i as int]@);
        hasher.write(canon[i].as_str().as_bytes());
        hasher.write(mark.as_slice());
        assert(hasher@ =~= seq![spec_u64_to_le_bytes(canon@.len() as u64)] + entry_writes(
            prefix,
        ));
        i += 1;
    }
    assert(sorted.take(i as int) =~= sorted);
    hasher.finish()
}

/// The fingerprint of the record set `records`.
pub fn record_hash(records: &Vec<String>) -> (hash: u64)
    ensures
        hash == record_fingerprint(texts_of(records@)),
{
    let lower = lower_records(records);
    fingerprint_texts(&lower)
}

/// Lists that hold the same texts have the same fingerprint, whatever the
/// order and the repetitions of their texts.
pub proof fn lemma_text_fingerprint_of_set(a: Seq<Seq<char>>, b: Seq<Seq<char>>)
    requires
        a.to_set() == b.to_set(),
    ensures
        sorted_set(a) == sorted_set(b),
        text_fingerprint(a) == text_fingerprint(b),
{
    lemma_sorted_set(a);
    lemma_sorted_set(b);
    lemma_sorted_unique(sorted_set(a), sorted_set(b));
}

/// Record sets with the same lower-case forms have the same fingerprint,
/// whatever the order, the letter case and the repetitions of their
/// records.
pub proof fn lemma_fingerprint_of_set(a: Seq<Seq<char>>, b: Seq<Seq<char>>)
    requires
        lowered(a) == lowered(b),
    ensures
        canonical(a) == canonical(b),
        record_fingerprint(a) == record_fingerprint(b),
{
    lemma_canonical(a);
    lemma_canonical(b);
    lemma_sorted_unique(canonical(a), canonical(b));
}

/// The fingerprint does not depend on the order of the records.
pub proof fn lemma_fingerprint_permutation(a: Seq<Seq<char>>, b: Seq<Seq<char>>)
    requires
        a.to_multiset() == b.to_multiset(),
    ensures
        record_fingerprint(a) == record_fingerprint(b),
{
    broadcast use vstd::seq_lib::group_to_multiset_ensures;

    assert forall|t: Seq<char>| lowered(a).contains(t) <==> lowered(b).contains(t) by {
        if lowered(a).contains(t) {
            let i = choose|i: int| 0 <= i < a.len() && lowercase_of(#[trigger] a[i]) == t;
            assert(a.to_multiset().count(a[i]) > 0);
            assert(b.to_multiset().count(a[i]) > 0);
            assert(b.contains(a[i]));
            let j = choose|j: int| 0 <= j < b.len() && b[j] == a[i];
            assert(lowercase_of(b[j]) == t);
        }
        if lowered(b).contains(t) {
            let i = choose|i: int| 0 <= i < b.len() && lowercase_of(#[trigger] b[i]) == t;
            assert(b.to_multiset().count(b[i]) > 0);
            assert(a.to_multiset().count(b[i]) > 0);
            assert(a.contains(b[i]));
            let j = choose|j: int| 0 <= j < a.len() && a[j] == b[i];
            assert(lowercase_of(a[j]) == t);
        }
    }
    assert(lowered(a) =~= lowered(b));
    lemma_fingerprint_of_set(a, b);
}

/// The fingerprint does not depend on the letter case of the records:
/// lists whose records agree one by one in their lower-case forms have the
/// same fingerprint.
pub proof fn lemma_fingerprint_case(a: Seq<Seq<char>>, b: Seq<Seq<char>>)
    requires
        a.len() == b.len(),
        forall|i: int| 0 <= i < a.len() ==> lowercase_of(#[trigger] a[i]) == lowercase_of(b[i]),
    ensures
        record_fingerprint(a) == record_fingerprint(b),
{
    assert forall|t: Seq<char>| lowered(a).contains(t) <==> lowered(b).contains(t) by {
        if lowered(a).contains(t) {
            let i = choose|i: int| 0 <= i < a.len() && lowercase_of(#[trigger] a[i]) == t;
            assert(lowercase_of(b[i]) == t);
        }
        if lowered(b).contains(t) {
            let i = choose|i: int| 0 <= i < b.len() && lowercase_of(#[trigger] b[i]) == t;
            assert(lowercase_of(a[i]) == t);
        }
    }
    assert(lowered(a) =~= lowered(b));
    lemma_fingerprint_of_set(a, b);
}

/// The canonical forms of two record sets differ exactly where the sets of
/// their lower-case forms differ: the fingerprint is the hash of a form
/// that tells any two such sets apart.
pub proof fn lemma_canonical_tells_apart(a: Seq<Seq<char>>, b: Seq<Seq<char>>)
    ensures
        canonical(a) == canonical(b) <==> lowered(a) == lowered(b),
{
    lemma_canonical(a);
    lemma_canonical(b);
    if lowered(a) == lowered(b) {
        lemma_fingerprint_of_set(a, b);
    }
}

} // verus!
