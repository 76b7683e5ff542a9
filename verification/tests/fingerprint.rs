use probe_metrics::collectors::dns::DnsCollector;
use probe_metrics::collectors::fingerprint::{
    canonical_records, fingerprint_texts, insert_sorted, is_text_less, lower_records, record_hash,
    sort_texts,
};
use probe_metrics::collectors::http::HttpCollector;
use std::collections::hash_map::DefaultHasher;
use std::collections::BTreeSet;
use std::hash::{Hash, Hasher};

fn strings(items: &[&str]) -> Vec<String> {
    items.iter().map(|s| s.to_string()).collect()
}

fn hash_of_sorted_set(items: &[&str]) -> u64 {
    let set: BTreeSet<String> = items.iter().map(|s| s.to_lowercase()).collect();
    let mut hasher = DefaultHasher::new();
    set.hash(&mut hasher);
    hasher.finish()
}

#[test]
fn fingerprint_ignores_case_and_repetition() {
    assert_eq!(record_hash(&strings(&["A.com", "a.com"])), record_hash(&strings(&["a.COM"])));
}

#[test]
fn fingerprint_ignores_order() {
    let a = strings(&["10.0.0.1", "10.0.0.2", "mail.example.org"]);
    let b = strings(&["mail.example.org", "10.0.0.2", "10.0.0.1"]);
    let c = strings(&["10.0.0.2", "mail.example.org", "10.0.0.1", "10.0.0.2"]);
    assert_eq!(record_hash(&a), record_hash(&b));
    assert_eq!(record_hash(&a), record_hash(&c));
}

#[test]
fn fingerprint_tells_sets_apart() {
    assert_ne!(record_hash(&strings(&["1.2.3.4"])), record_hash(&strings(&["1.2.3.5"])));
    assert_ne!(record_hash(&strings(&["1.2.3.4"])), record_hash(&strings(&[])));
    assert_ne!(record_hash(&strings(&["ab", "c"])), record_hash(&strings(&["a", "bc"])));
    assert_ne!(record_hash(&strings(&["a"])), record_hash(&strings(&["a", "b"])));
}

#[test]
fn fingerprint_is_the_hash_of_the_sorted_set() {
    for items in [
        &[][..],
        &["1.2.3.4"][..],
        &["b", "a", "C", "c", "A"][..],
        &["mx1.Example.COM", "mx2.example.com", "MX1.example.com"][..],
        &["\u{e9}t\u{e9}", "\u{c9}T\u{c9}", "zebra", "\u{4e2d}\u{6587}", "a\u{10348}"][..],
    ] {
        assert_eq!(record_hash(&strings(items)), hash_of_sorted_set(items));
    }
}

#[test]
fn fingerprint_lowers_the_case_of_each_record() {
    assert_eq!(canonical_records(&strings(&["ABC"])), strings(&["abc"]));
    assert_ne!(record_hash(&strings(&["ABC"])), hash_of_sorted_set(&[]));
    let mut hasher = DefaultHasher::new();
    let mut upper = BTreeSet::new();
    upper.insert("ABC".to_string());
    upper.hash(&mut hasher);
    assert_ne!(record_hash(&strings(&["ABC"])), hasher.finish());
}

#[test]
fn canonical_form_is_sorted_and_without_repetition() {
    assert_eq!(
        canonical_records(&strings(&["b", "a", "C", "c", "A", "ab", ""])),
        strings(&["", "a", "ab", "b", "c"])
    );
    assert_eq!(canonical_records(&strings(&[])), strings(&[]));
}

#[test]
fn fingerprint_of_texts_takes_them_as_they_are_spelled() {
    assert_eq!(fingerprint_texts(&strings(&["b", "a", "b"])), fingerprint_texts(&strings(&["a", "b"])));
    assert_ne!(fingerprint_texts(&strings(&["A"])), fingerprint_texts(&strings(&["a"])));
    assert_eq!(fingerprint_texts(&strings(&["a.com"])), record_hash(&strings(&["A.com", "a.COM"])));
    assert_eq!(
        fingerprint_texts(&lower_records(&strings(&["MX1.example.com", "mx2.Example.com"]))),
        record_hash(&strings(&["mx2.example.com", "mx1.example.com"]))
    );
    let mut upper = BTreeSet::new();
    upper.insert("ABC".to_string());
    upper.insert("abd".to_string());
    let mut hasher = DefaultHasher::new();
    upper.hash(&mut hasher);
    assert_eq!(fingerprint_texts(&strings(&["abd", "ABC", "abd"])), hasher.finish());
}

#[test]
fn texts_are_sorted_and_kept_once() {
    assert_eq!(sort_texts(&strings(&["b", "B", "a", "b", ""])), strings(&["", "B", "a", "b"]));
    assert_eq!(lower_records(&strings(&["B", "b", "\u{c9}"])), strings(&["b", "b", "\u{e9}"]));
    let mut list = strings(&["a", "c"]);
    insert_sorted(&mut list, "b".to_string());
    insert_sorted(&mut list, "c".to_string());
    insert_sorted(&mut list, "".to_string());
    insert_sorted(&mut list, "d".to_string());
    assert_eq!(list, strings(&["", "a", "b", "c", "d"]));
}

#[test]
fn text_order_is_that_of_strings() {
    let samples = ["", "a", "A", "ab", "b", "\u{e9}", "z", "\u{4e2d}", "a\u{10348}", "a\u{ffff}"];
    for x in samples {
        for y in samples {
            assert_eq!(is_text_less(x, y), x < y);
        }
    }
}

#[test]
fn collectors_share_the_fingerprint() {
    let records = strings(&["ns1.example.com", "NS2.example.com"]);
    assert_eq!(DnsCollector::hash_records(&records), record_hash(&records));
    assert_eq!(HttpCollector::hash_records(&records), record_hash(&records));
}
