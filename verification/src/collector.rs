//! The DNS metric families of a registry that is kept by prefix: which
//! families a prefix has, and which samples one update gives.

use vstd::prelude::*;
use vstd::hash_map::StringHashMap;
use crate::collectors::{derived_gauge, emit, emit_derived_gauge, named};
use crate::metric::{
    Labels, LabelSet, MetricKind, MetricSample, SampleModel, SampleValue, samples_view, with_label,
};
use crate::reading::{Reading, fraction_of};

verus! {

/// Where a vantage point is, and who serves it.
#[derive(Clone, Debug)]
pub struct LocationInfo {
    pub country_code: String,
    pub continent: String,
    pub city: String,
    pub isp: String,
}

/// The outcome of one DNS lookup, to be entered under a prefix.
#[derive(Clone, Debug)]
pub struct MetricUpdate {
    pub prefix: String,
    pub location: LocationInfo,
    pub record_type: String,
    /// The time that the lookup took, in seconds.
    pub duration: Reading,
    pub success: bool,
    pub record_count: u64,
    pub ttl: u64,
}

/// One metric family: its name, its help text, its kind and the keys of
/// its labels.
#[derive(Debug)]
pub struct MetricFamily {
    pub name: String,
    pub help: String,
    pub kind: MetricKind,
    pub label_names: Vec<String>,
}

/// What a family holds, as plain values.
pub ghost struct FamilyModel {
    pub name: Seq<char>,
    pub help: Seq<char>,
    pub kind: MetricKind,
    pub label_names: Seq<Seq<char>>,
}

impl View for MetricFamily {
    type V = FamilyModel;

    open spec fn view(&self) -> FamilyModel {
        FamilyModel {
            name: self.name@,
            help: self.help@,
            kind: self.kind,
            label_names: self.label_names@.map_values(|s: String| s@),
        }
    }
}

/// What a list of families holds, as plain values.
pub open spec fn families_view(list: Seq<MetricFamily>) -> Seq<FamilyModel> {
    list.map_values(|f: MetricFamily| f@)
}

/// The keys of the labels that place a vantage point.
pub open spec fn place_keys() -> Seq<Seq<char>> {
    seq!["country_code"@, "continent"@, "city"@, "isp"@]
}

/// The family with the name `prefix` followed by `suffix`, labelled by
/// place and by one more key.
pub open spec fn family(
    prefix: Seq<char>,
    suffix: Seq<char>,
    help: Seq<char>,
    kind: MetricKind,
    extra: Option<Seq<char>>,
) -> FamilyModel {
    FamilyModel {
        name: prefix + suffix,
        help,
        kind,
        label_names: match extra {
            Some(key) => place_keys().push(key),
            None => place_keys(),
        },
    }
}

/// The DNS families of a prefix.
pub open spec fn dns_families(prefix: Seq<char>) -> Seq<FamilyModel> {
    seq![
        family(
            prefix,
            "_dns_lookup_duration_seconds"@,
            "Time taken to perform DNS lookup in seconds"@,
            MetricKind::Gauge,
            Some("record_type"@),
        ),
        family(
            prefix,
            "_dns_response_percentiles_seconds"@,
            "Percentile latencies for DNS lookups"@,
            MetricKind::Gauge,
            Some("percentile"@),
        ),
        family(
            prefix,
            "_dns_lookup_success_ratio"@,
            "Ratio of successful DNS lookups"@,
            MetricKind::Gauge,
            None,
        ),
        family(
            prefix,
            "_dns_lookup_failures_total"@,
            "Total number of DNS lookup failures"@,
            MetricKind::Counter,
            Some("error_type"@),
        ),
        family(
            prefix,
            "_dns_records_returned"@,
            "Number of DNS records returned by type"@,
            MetricKind::Gauge,
            Some("record_type"@),
        ),
        family(
            prefix,
            "_dns_record_mismatch_count"@,
            "Number of inconsistent records across regions"@,
            MetricKind::Gauge,
            Some("record_type"@),
        ),
        family(
            prefix,
            "_dns_record_ttl"@,
            "Current TTL values for DNS records"@,
            MetricKind::Gauge,
            Some("record_type"@),
        ),
        family(
            prefix,
            "_dns_resolver_hops"@,
            "Number of resolver hops for DNS resolution"@,
            MetricKind::Gauge,
            None,
        ),
        family(
            prefix,
            "_dns_propagation_delay_seconds"@,
            "Time taken for DNS changes to propagate"@,
            MetricKind::Gauge,
            Some("record_type"@),
        ),
    ]
}

/// Adds to `out` the family with the name `prefix` followed by `suffix`.
fn add_family(
    out: &mut Vec<MetricFamily>,
    prefix: &str,
    suffix: &str,
    help: &str,
    kind: MetricKind,
    extra: Option<&str>,
)
    ensures
        families_view(final(out)@) == families_view(old(out)@).push(
            family(
                prefix@,
                suffix@,
                help@,
                kind,
                match extra {
                    Some(key) => Some(key@),
                    None => None,
                },
            ),
        ),
{
    let mut label_names: Vec<String> = Vec::new();
    label_names.push(String::from_str("country_code"));
    label_names.push(String::from_str("continent"));
    label_names.push(String::from_str("city"));
    label_names.push(String::from_str("isp"));
    assert(label_names@.map_values(|s: String| s@) =~= place_keys());
    match extra {
        Some(key) => {
            label_names.push(String::from_str(key));
            assert(label_names@.map_values(|s: String| s@) =~= place_keys().push(key@));
        },
        None => {},
    }
    out.push(
        MetricFamily {
            name: String::from_str(prefix).concat(suffix),
            help: String::from_str(help),
            kind,
            label_names,
        },
    );
    assert(families_view(out@) =~= families_view(old(out)@).push(
        family(
            prefix@,
            suffix@,
            help@,
            kind,
            match extra {
                Some(key) => Some(key@),
                None => None,
            },
        ),
    ));
}

/// The labels that place a vantage point.
pub open spec fn place_labels(location: LocationInfo) -> Labels {
    let l0 = Seq::<(Seq<char>, Seq<char>)>::empty();
    let l1 = with_label(l0, "country_code"@, location.country_code@);
    let l2 = with_label(l1, "continent"@, location.continent@);
    let l3 = with_label(l2, "city"@, location.city@);
    with_label(l3, "isp"@, location.isp@)
}

/// One reading of a percentile gauge.
pub open spec fn percentile(prefix: Seq<char>, place: Labels, name: Seq<char>, r: Reading)
    -> SampleModel {
    named(
        prefix,
        "_dns_response_percentiles_seconds"@,
        with_label(place, "percentile"@, name),
        SampleValue::Measure(r),
        MetricKind::Gauge,
    )
}

/// The samples of one lookup: its duration by record type; the verdict,
/// with one more failure where it failed; the number and the time to live
/// of the records; and the percentiles, of which the median is the
/// duration, the ninetieth one and a half times and the ninety-ninth twice
/// that. The two that are derived are withheld where they are no number or
/// below zero.
pub open spec fn update_samples(
    prefix: Seq<char>,
    location: LocationInfo,
    record_type: Seq<char>,
    duration: Reading,
    success: bool,
    record_count: u64,
    ttl: u64,
) -> Seq<SampleModel> {
    let place = place_labels(location);
    let by_type = with_label(place, "record_type"@, record_type);
    seq![
        named(
            prefix,
            "_dns_lookup_duration_seconds"@,
            by_type,
            SampleValue::Measure(duration),
            MetricKind::Gauge,
        ),
        named(
            prefix,
            "_dns_lookup_success_ratio"@,
            place,
            SampleValue::Measure(
                if success {
                    Reading::Value(1_000_000)
                } else {
                    Reading::Value(0)
                },
            ),
            MetricKind::Gauge,
        ),
    ] + (if success {
        Seq::empty()
    } else {
        seq![
            named(
                prefix,
                "_dns_lookup_failures_total"@,
                with_label(place, "error_type"@, "timeout"@),
                SampleValue::Count(1),
                MetricKind::Counter,
            ),
        ]
    }) + seq![
        named(
            prefix,
            "_dns_records_returned"@,
            by_type,
            SampleValue::Count(record_count),
            MetricKind::Gauge,
        ),
        named(prefix, "_dns_record_ttl"@, by_type, SampleValue::Count(ttl), MetricKind::Gauge),
        percentile(prefix, place, "p50"@, duration),
    ] + derived_gauge(
        prefix,
        "_dns_response_percentiles_seconds"@,
        with_label(place, "percentile"@, "p90"@),
        fraction_of(duration, 3, 2),
    ) + derived_gauge(
        prefix,
        "_dns_response_percentiles_seconds"@,
        with_label(place, "percentile"@, "p99"@),
        fraction_of(duration, 2, 1),
    )
}

/// The DNS metric families of one prefix.
#[derive(Debug)]
pub struct DnsMetrics {
    pub prefix: String,
    pub families: Vec<MetricFamily>,
}

impl DnsMetrics {
    /// The DNS metric families of `prefix`.
    pub fn new(prefix: &str) -> (metrics: DnsMetrics)
        ensures
            metrics.prefix@ == prefix@,
            families_view(metrics.families@) == dns_families(prefix@),
    {
        let mut families: Vec<MetricFamily> = Vec::new();
        assert(families_view(families@) =~= Seq::<FamilyModel>::empty());
        add_family(
            &mut families,
            prefix,
            "_dns_lookup_duration_seconds",
            "Time taken to perform DNS lookup in seconds",
            MetricKind::Gauge,
            Some("record_type"),
        );
        add_family(
            &mut families,
            prefix,
            "_dns_response_percentiles_seconds",
            "Percentile latencies for DNS lookups",
            MetricKind::Gauge,
            Some("percentile"),
        );
        add_family(
            &mut families,
            prefix,
            "_dns_lookup_success_ratio",
            "Ratio of successful DNS lookups",
            MetricKind::Gauge,
            None,
        );
        add_family(
            &mut families,
            prefix,
            "_dns_lookup_failures_total",
            "Total number of DNS lookup failures",
            MetricKind::Counter,
            Some("error_type"),
        );
        add_family(
            &mut families,
            prefix,
            "_dns_records_returned",
            "Number of DNS records returned by type",
            MetricKind::Gauge,
            Some("record_type"),
        );
        add_family(
            &mut families,
            prefix,
            "_dns_record_mismatch_count",
            "Number of inconsistent records across regions",
            MetricKind::Gauge,
            Some("record_type"),
        );
        add_family(
            &mut families,
            prefix,
            "_dns_record_ttl",
            "Current TTL values for DNS records",
            MetricKind::Gauge,
            Some("record_type"),
        );
        add_family(
            &mut families,
            prefix,
            "_dns_resolver_hops",
            "Number of resolver hops for DNS resolution",
            MetricKind::Gauge,
            None,
        );
        add_family(
            &mut families,
            prefix,
            "_dns_propagation_delay_seconds",
            "Time taken for DNS changes to propagate",
            MetricKind::Gauge,
            Some("record_type"),
        );
        assert(families_view(families@) =~= dns_families(prefix@));
        DnsMetrics { prefix: String::from_str(prefix), families }
    }

    /// The samples of one lookup.
    pub fn update(
        &self,
        location: &LocationInfo,
        record_type: &str,
        duration: Reading,
        success: bool,
        record_count: u64,
        ttl: u64,
    ) -> (out: Vec<MetricSample>)
        ensures
            samples_view(out@) == update_samples(
                self.prefix@,
                *location,
                record_type@,
                duration,
                success,
                record_count,
                ttl,
            ),
    {
        let prefix = self.prefix.as_str();
        let mut place = LabelSet::new();
        place.insert("country_code", location.country_code.clone());
        place.insert("continent", location.continent.clone());
        place.insert("city", location.city.clone());
        place.insert("isp", location.isp.clone());
        let mut by_type = place.duplicate();
        by_type.insert("record_type", String::from_str(record_type));
        let mut out: Vec<MetricSample> = Vec::new();
        assert(samples_view(out@) =~= Seq::<SampleModel>::empty());
        emit(
            &mut out,
            prefix,
            "_dns_lookup_duration_seconds",
            &by_type,
            SampleValue::Measure(duration),
            MetricKind::Gauge,
        );
        let ratio = if success {
            Reading::Value(1_000_000)
        } else {
            Reading::Value(0)
        };
        emit(
            &mut out,
            prefix,
            "_dns_lookup_success_ratio",
            &place,
            SampleValue::Measure(ratio),
            MetricKind::Gauge,
        );
        if !success {
            let mut failed = place.duplicate();
            failed.insert("error_type", String::from_str("timeout"));
            emit(
                &mut out,
                prefix,
                "_dns_lookup_failures_total",
                &failed,
                SampleValue::Count(1),
                MetricKind::Counter,
            );
        }
        emit(
            &mut out,
            prefix,
            "_dns_records_returned",
            &by_type,
            SampleValue::Count(record_count),
            MetricKind::Gauge,
        );
        emit(&mut out, prefix, "_dns_record_ttl", &by_type, SampleValue::Count(ttl), MetricKind::Gauge);
        let mut p50 = place.duplicate();
        p50.insert("percentile", String::from_str("p50"));
        emit(
            &mut out,
            prefix,
            "_dns_response_percentiles_seconds",
            &p50,
            SampleValue::Measure(duration),
            MetricKind::Gauge,
        );
        let mut p90 = place.duplicate();
        p90.insert("percentile", String::from_str("p90"));
        emit_derived_gauge(
            &mut out,
            prefix,
            "_dns_response_percentiles_seconds",
            &p90,
            duration.times_fraction(3, 2),
        );
        let mut p99 = place.duplicate();
        p99.insert("percentile", String::from_str("p99"));
        emit_derived_gauge(
            &mut out,
            prefix,
            "_dns_response_percentiles_seconds",
            &p99,
            duration.times_fraction(2, 1),
        );
        assert(samples_view(out@) =~= update_samples(
            self.prefix@,
            *location,
            record_type@,
            duration,
            success,
            record_count,
            ttl,
        ));
        out
    }
}

/// What one update asks of the registry: the families to register first,
/// where the prefix is new, and the samples to enter.
#[derive(Debug)]
pub struct EngineStep {
    pub register: Option<Vec<MetricFamily>>,
    pub samples: Vec<MetricSample>,
}

/// The families that are registered, by prefix.
pub struct MetricsEngine {
    metrics: StringHashMap<DnsMetrics>,
}

impl MetricsEngine {
    /// The families that are registered, by prefix.
    pub closed spec fn families(&self) -> Map<Seq<char>, Seq<FamilyModel>> {
        Map::new(
            |k: Seq<char>| self.metrics@.contains_key(k),
            |k: Seq<char>| families_view(self.metrics@[k].families@),
        )
    }

    /// The prefixes that are registered.
    pub open spec fn prefixes(&self) -> Set<Seq<char>> {
        self.families().dom()
    }

    /// What holds of every engine: what is kept under a prefix are the
    /// DNS families of that prefix.
    #[verifier::type_invariant]
    spec fn kept_by_prefix(&self) -> bool {
        forall|k: Seq<char>| #[trigger]
            self.metrics@.contains_key(k) ==> self.metrics@[k].prefix@ == k && families_view(
                self.metrics@[k].families@,
            ) == dns_families(k)
    }

    /// An engine with no prefix registered.
    pub fn new() -> (engine: MetricsEngine)
        ensures
            engine.families() == Map::<Seq<char>, Seq<FamilyModel>>::empty(),
            engine.prefixes() == Set::<Seq<char>>::empty(),
    {
        let engine = MetricsEngine { metrics: StringHashMap::new() };
        assert(engine.families() =~= Map::<Seq<char>, Seq<FamilyModel>>::empty());
        assert(engine.prefixes() =~= Set::<Seq<char>>::empty());
        engine
    }

    /// The number of prefixes that are registered.
    pub fn len(&self) -> (n: usize)
        ensures
            n == self.prefixes().len(),
    {
        assert(self.prefixes() =~= self.metrics@.dom());
        self.metrics.len()
    }

    /// Whether `prefix` is registered.
    pub fn contains(&self, prefix: &str) -> (b: bool)
        ensures
            b == self.prefixes().contains(prefix@),
    {
        self.metrics.contains_key(prefix)
    }

    /// Enters one update. A prefix that is seen for the first time is
    /// registered, and its families are handed out to be declared; a
    /// prefix that is known is not registered again. The samples of the
    /// update are handed out in either case.
    pub fn update_metrics(&mut self, update: MetricUpdate) -> (step: EngineStep)
        ensures
            final(self).families() == old(self).families().insert(
                update.prefix@,
                dns_families(update.prefix@),
            ),
            final(self).prefixes() == old(self).prefixes().insert(update.prefix@),
            old(self).prefixes().contains(update.prefix@) ==> step.register is None,
            !old(self).prefixes().contains(update.prefix@) ==> (step.register matches Some(list)
                && families_view(list@) == dns_families(update.prefix@)),
            samples_view(step.samples@) == update_samples(
                update.prefix@,
                update.location,
                update.record_type@,
                update.duration,
                update.success,
                update.record_count,
                update.ttl,
            ),
    {
        proof {
            use_type_invariant(&*self);
        }
        let ghost before = self.families();
        let register = if self.metrics.contains_key(update.prefix.as_str()) {
            assert(before.insert(update.prefix@, dns_families(update.prefix@)) =~= before);
            None
        } else {
            let declared = DnsMetrics::new(update.prefix.as_str());
            let mut metrics: StringHashMap<DnsMetrics> = StringHashMap::new();
            core::mem::swap(&mut metrics, &mut self.metrics);
            metrics.insert(update.prefix.clone(), DnsMetrics::new(update.prefix.as_str()));
            self.metrics = metrics;
            assert(self.families() =~= before.insert(
                update.prefix@,
                dns_families(update.prefix@),
            ));
            Some(declared.families)
        };
        let samples = match self.metrics.get(update.prefix.as_str()) {
            Some(metrics) => metrics.update(
                &update.location,
                update.record_type.as_str(),
                update.duration,
                update.success,
                update.record_count,
                update.ttl,
            ),
            None => Vec::new(),
        };
        EngineStep { register, samples }
    }
}

} // verus!
