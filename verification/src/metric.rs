//! Metric samples and their label sets: what one probe cycle hands to the
//! metric sink.

use vstd::prelude::*;
use crate::reading::Reading;

verus! {

/// How the sink treats a sample: a counter is incremented, a gauge is set,
/// a histogram records an observation.
#[derive(Clone, Copy, Debug, PartialEq, Eq, Structural)]
pub enum MetricKind {
    Counter,
    Gauge,
    Histogram,
}

/// The number a sample carries: a whole number (an increment, a count, a
/// fingerprint) or a measured quantity.
#[derive(Clone, Copy, Debug, PartialEq, Eq, Structural)]
pub enum SampleValue {
    Count(u64),
    Measure(Reading),
}

/// A label set as a sequence of (key, value) pairs.
pub type Labels = Seq<(Seq<char>, Seq<char>)>;

/// Whether some pair of `labels` has the key `key`.
pub open spec fn has_key(labels: Labels, key: Seq<char>) -> bool {
    exists|i: int| 0 <= i < labels.len() && (#[trigger] labels[i]).0 == key
}

/// No key occurs twice in `labels`.
pub open spec fn distinct_keys(labels: Labels) -> bool {
    forall|i: int, j: int|
        0 <= i < j < labels.len() ==> (#[trigger] labels[i]).0 != (#[trigger] labels[j]).0
}

/// `labels` with `key` set to `value`: the pair that holds the key is
/// replaced where it stands; a new key goes to the end.
pub open spec fn with_label(labels: Labels, key: Seq<char>, value: Seq<char>) -> Labels
    decreases labels.len(),
{
    if labels.len() == 0 {
        seq![(key, value)]
    } else if labels[0].0 == key {
        seq![(key, value)] + labels.skip(1)
    } else {
        seq![labels[0]] + with_label(labels.skip(1), key, value)
    }
}

/// Setting a key that stands at position `i`, and nowhere before, replaces
/// the pair at `i`.
pub proof fn lemma_with_label_replaces(labels: Labels, key: Seq<char>, value: Seq<char>, i: int)
    requires
        0 <= i < labels.len(),
        labels[i].0 == key,
        forall|j: int| 0 <= j < i ==> (#[trigger] labels[j]).0 != key,
    ensures
        with_label(labels, key, value) == labels.update(i, (key, value)),
    decreases labels.len(),
{
    if i == 0 {
        assert(seq![(key, value)] + labels.skip(1) =~= labels.update(0, (key, value)));
    } else {
        let rest = labels.skip(1);
        assert(forall|j: int| 0 <= j < i - 1 ==> (#[trigger] rest[j]).0 == labels[j + 1].0);
        lemma_with_label_replaces(rest, key, value, i - 1);
        assert(seq![labels[0]] + rest.update(i - 1, (key, value)) =~= labels.update(
            i,
            (key, value),
        ));
    }
}

/// Setting a key that no pair holds appends the pair.
pub proof fn lemma_with_label_appends(labels: Labels, key: Seq<char>, value: Seq<char>)
    requires
        !has_key(labels, key),
    ensures
        with_label(labels, key, value) == labels.push((key, value)),
    decreases labels.len(),
{
    if labels.len() == 0 {
        assert(seq![(key, value)] =~= labels.push((key, value)));
    } else {
        let rest = labels.skip(1);
        assert(labels[0].0 != key);
        assert forall|j: int| 0 <= j < rest.len() implies (#[trigger] rest[j]).0 != key by {
            assert(rest[j] == labels[j + 1]);
        }
        lemma_with_label_appends(rest, key, value);
        assert(seq![labels[0]] + rest.push((key, value)) =~= labels.push((key, value)));
    }
}

/// Setting a label keeps every key that was there, adds the one that is
/// set, and adds no other.
pub proof fn lemma_with_label_keys(
    labels: Labels,
    key: Seq<char>,
    value: Seq<char>,
    other: Seq<char>,
)
    ensures
        has_key(with_label(labels, key, value), other) <==> (other == key || has_key(
            labels,
            other,
        )),
    decreases labels.len(),
{
    let out = with_label(labels, key, value);
    if labels.len() == 0 {
        assert(out[0].0 == key);
    } else if labels[0].0 == key {
        let rest = labels.skip(1);
        assert(out[0].0 == key);
        assert(labels[0].0 == key);
        if has_key(out, other) {
            let i = choose|i: int| 0 <= i < out.len() && (#[trigger] out[i]).0 == other;
            if i > 0 {
                assert(out[i] == labels[i]);
            }
        }
        if has_key(labels, other) {
            let i = choose|i: int| 0 <= i < labels.len() && (#[trigger] labels[i]).0 == other;
            if i > 0 {
                assert(out[i] == labels[i]);
            }
        }
    } else {
        let rest = labels.skip(1);
        let tail = with_label(rest, key, value);
        lemma_with_label_keys(rest, key, value, other);
        assert(out[0] == labels[0]);
        if has_key(out, other) {
            let i = choose|i: int| 0 <= i < out.len() && (#[trigger] out[i]).0 == other;
            if i > 0 {
                assert(tail[i - 1] == out[i]);
                assert(has_key(tail, other));
                if other != key {
                    let j = choose|j: int| 0 <= j < rest.len() && (#[trigger] rest[j]).0 == other;
                    assert(labels[j + 1] == rest[j]);
                }
            }
        }
        if other == key || has_key(labels, other) {
            if other != key && labels[0].0 == other {
            } else {
                if other != key {
                    let i = choose|i: int|
                        0 <= i < labels.len() && (#[trigger] labels[i]).0 == other;
                    assert(rest[i - 1] == labels[i]);
                    assert(has_key(rest, other));
                }
                let j = choose|j: int| 0 <= j < tail.len() && (#[trigger] tail[j]).0 == other;
                assert(out[j + 1] == tail[j]);
            }
        }
    }
}

/// Every pair of a label set in which a label was set is the pair that
/// was set, or a pair that was there before.
pub proof fn lemma_with_label_pairs(labels: Labels, key: Seq<char>, value: Seq<char>, i: int)
    requires
        0 <= i < with_label(labels, key, value).len(),
    ensures
        with_label(labels, key, value)[i] == (key, value) || labels.contains(
            with_label(labels, key, value)[i],
        ),
    decreases labels.len(),
{
    if labels.len() == 0 {
    } else if labels[0].0 == key {
        if i > 0 {
            assert(with_label(labels, key, value)[i] == labels[i]);
        }
    } else {
        if i == 0 {
            assert(with_label(labels, key, value)[0] == labels[0]);
        } else {
            let rest = labels.skip(1);
            lemma_with_label_pairs(rest, key, value, i - 1);
            let pair = with_label(rest, key, value)[i - 1];
            assert(with_label(labels, key, value)[i] == pair);
            if rest.contains(pair) {
                let j = choose|j: int| 0 <= j < rest.len() && rest[j] == pair;
                assert(labels[j + 1] == pair);
            }
        }
    }
}

/// Setting a label in a set without repeated keys leaves it without
/// repeated keys.
pub proof fn lemma_with_label_distinct(labels: Labels, key: Seq<char>, value: Seq<char>)
    requires
        distinct_keys(labels),
    ensures
        distinct_keys(with_label(labels, key, value)),
{
    if has_key(labels, key) {
        let i = choose|i: int| 0 <= i < labels.len() && (#[trigger] labels[i]).0 == key;
        assert forall|j: int| 0 <= j < i implies (#[trigger] labels[j]).0 != key by {}
        lemma_with_label_replaces(labels, key, value, i);
        let out = labels.update(i, (key, value));
        assert forall|a: int, b: int| 0 <= a < b < out.len() implies (#[trigger] out[a]).0 != (
        #[trigger] out[b]).0 by {
            assert(out[a].0 == labels[a].0);
            assert(out[b].0 == labels[b].0);
        }
    } else {
        lemma_with_label_appends(labels, key, value);
        let out = labels.push((key, value));
        assert forall|a: int, b: int| 0 <= a < b < out.len() implies (#[trigger] out[a]).0 != (
        #[trigger] out[b]).0 by {
            if b < labels.len() {
                assert(out[a] == labels[a]);
                assert(out[b] == labels[b]);
            } else {
                assert(out[a] == labels[a]);
            }
        }
    }
}

/// One label: a key and its value.
#[derive(Debug)]
pub struct Label {
    pub key: String,
    pub value: String,
}

/// An ordered set of labels in which no key occurs twice.
#[derive(Debug)]
pub struct LabelSet {
    entries: Vec<Label>,
}

impl View for LabelSet {
    type V = Labels;

    closed spec fn view(&self) -> Labels {
        Seq::new(self.entries@.len(), |i: int| (self.entries@[i].key@, self.entries@[i].value@))
    }
}

impl LabelSet {
    /// What holds of every label set: no key occurs twice.
    #[verifier::type_invariant]
    spec fn keys_are_distinct(&self) -> bool {
        distinct_keys(self@)
    }

    /// The empty label set.
    pub fn new() -> (out: LabelSet)
        ensures
            out@ == Seq::<(Seq<char>, Seq<char>)>::empty(),
    {
        let out = LabelSet { entries: Vec::new() };
        assert(out@ =~= Seq::<(Seq<char>, Seq<char>)>::empty());
        out
    }

    /// The number of labels. No key occurs twice among them.
    pub fn len(&self) -> (n: usize)
        ensures
            n == self@.len(),
            distinct_keys(self@),
    {
        proof {
            use_type_invariant(self);
        }
        self.entries.len()
    }

    /// The key of the label at position `i`.
    pub fn key_at(&self, i: usize) -> (key: &String)
        requires
            i < self@.len(),
        ensures
            key@ == self@[i as int].0,
    {
        &self.entries[i].key
    }

    /// The value of the label at position `i`.
    pub fn value_at(&self, i: usize) -> (value: &String)
        requires
            i < self@.len(),
        ensures
            value@ == self@[i as int].1,
    {
        &self.entries[i].value
    }

    /// The position of the label with the key `key`.
    pub fn position(&self, key: &str) -> (r: Option<usize>)
        ensures
            match r {
                Some(i) => i < self@.len() && self@[i as int].0 == key@,
                None => !has_key(self@, key@),
            },
    {
        let mut i: usize = 0;
        while i < self.entries.len()
            invariant
                i <= self.entries@.len(),
                forall|j: int| 0 <= j < i ==> (#[trigger] self@[j]).0 != key@,
            decreases self.entries.len() - i,
        {
            if crate::text::same_text(self.entries[i].key.as_str(), key) {
                return Some(i);
            }
            i += 1;
        }
        None
    }

    /// The value of the label with the key `key`.
    pub fn get(&self, key: &str) -> (r: Option<&String>)
        ensures
            match r {
                Some(v) => exists|i: int|
                    0 <= i < self@.len() && (#[trigger] self@[i]).0 == key@ && self@[i].1 == v@,
                None => !has_key(self@, key@),
            },
    {
        match self.position(key) {
            Some(i) => Some(&self.entries[i].value),
            None => None,
        }
    }

    /// Sets the label `key` to `value`: replaces the value where the key is
    /// present, appends the label where it is not.
    pub fn insert(&mut self, key: &str, value: String)
        ensures
            final(self)@ == with_label(old(self)@, key@, value@),
            distinct_keys(final(self)@),
    {
        proof {
            use_type_invariant(&*self);
            lemma_with_label_distinct(self@, key@, value@);
        }
        let ghost before = self@;
        match self.position(key) {
            Some(i) => {
                proof {
                    assert forall|j: int| 0 <= j < i implies (#[trigger] before[j]).0 != key@ by {}
                    lemma_with_label_replaces(before, key@, value@, i as int);
                }
                let mut entries: Vec<Label> = Vec::new();
                core::mem::swap(&mut entries, &mut self.entries);
                entries.set(i, Label { key: String::from_str(key), value });
                assert(Seq::new(entries@.len(), |j: int| (entries@[j].key@, entries@[j].value@))
                    =~= before.update(i as int, (key@, value@)));
                self.entries = entries;
            },
            None => {
                proof {
                    lemma_with_label_appends(before, key@, value@);
                }
                let mut entries: Vec<Label> = Vec::new();
                core::mem::swap(&mut entries, &mut self.entries);
                entries.push(Label { key: String::from_str(key), value });
                assert(Seq::new(entries@.len(), |j: int| (entries@[j].key@, entries@[j].value@))
                    =~= before.push((key@, value@)));
                self.entries = entries;
            },
        }
    }

    /// A copy of the label set.
    pub fn duplicate(&self) -> (out: LabelSet)
        ensures
            out@ == self@,
    {
        proof {
            use_type_invariant(self);
        }
        let mut entries: Vec<Label> = Vec::new();
        let mut i: usize = 0;
        while i < self.entries.len()
            invariant
                i <= self.entries@.len(),
                entries@.len() == i,
                forall|j: int|
                    0 <= j < i ==> (#[trigger] entries@[j]).key@ == self.entries@[j].key@
                        && entries@[j].value@ == self.entries@[j].value@,
            decreases self.entries.len() - i,
        {
            entries.push(
                Label { key: self.entries[i].key.clone(), value: self.entries[i].value.clone() },
            );
            i += 1;
        }
        let ghost target = self@;
        assert(Seq::new(entries@.len(), |i: int| (entries@[i].key@, entries@[i].value@))
            =~= target);
        let out = LabelSet { entries };
        out
    }
}

/// One sample for the metric sink.
#[derive(Debug)]
pub struct MetricSample {
    pub name: String,
    pub labels: LabelSet,
    pub value: SampleValue,
    pub kind: MetricKind,
}

/// What a sample holds, as plain values.
pub ghost struct SampleModel {
    pub name: Seq<char>,
    pub labels: Labels,
    pub value: SampleValue,
    pub kind: MetricKind,
}

impl View for MetricSample {
    type V = SampleModel;

    open spec fn view(&self) -> SampleModel {
        SampleModel {
            name: self.name@,
            labels: self.labels@,
            value: self.value,
            kind: self.kind,
        }
    }
}

/// What a list of samples holds, as plain values.
pub open spec fn samples_view(samples: Seq<MetricSample>) -> Seq<SampleModel> {
    samples.map_values(|s: MetricSample| s@)
}

/// The name, help text and kind under which a metric is declared to the
/// sink.
#[derive(Debug)]
pub struct MetricDescriptor {
    pub name: String,
    pub help: String,
    pub kind: MetricKind,
}

/// What a descriptor holds, as plain values.
pub ghost struct DescriptorModel {
    pub name: Seq<char>,
    pub help: Seq<char>,
    pub kind: MetricKind,
}

impl View for MetricDescriptor {
    type V = DescriptorModel;

    open spec fn view(&self) -> DescriptorModel {
        DescriptorModel { name: self.name@, help: self.help@, kind: self.kind }
    }
}

} // verus!
