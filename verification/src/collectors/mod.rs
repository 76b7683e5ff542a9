//! The collectors: one per kind of probe, with what they share.

pub mod dns;
pub mod fingerprint;
pub mod hls;
pub mod http;
pub mod icmp;
pub mod request;
pub mod runner;

use vstd::prelude::*;
use crate::config::{Duration, MetricConfig, duration_text};
use crate::metric::{
    Labels, LabelSet, MetricDescriptor, MetricKind, MetricSample, SampleModel, SampleValue,
    DescriptorModel, has_key, lemma_with_label_keys, samples_view, with_label,
};
use crate::reading::Reading;

verus! {

/// Why a cycle of a probe gave no measurement.
#[derive(Debug, Clone, PartialEq, Eq)]
pub enum CollectorErrors {
    /// The request failed on the way to or from the measurement service.
    Measurement { metric: String, reason: String },
    /// The request did not end within the time allowed.
    Timeout(Duration),
    /// The probe is not configured as it has to be.
    Config(String),
    /// The response names no vantage point.
    MissingNodeInfo(String),
    /// The response lacks the named part of its payload.
    MissingData(String, &'static str),
}

/// What an error holds, as plain values.
pub ghost enum ErrorModel {
    Measurement { metric: Seq<char>, reason: Seq<char> },
    Timeout(Duration),
    Config(Seq<char>),
    MissingNodeInfo(Seq<char>),
    MissingData(Seq<char>, Seq<char>),
}

impl View for CollectorErrors {
    type V = ErrorModel;

    open spec fn view(&self) -> ErrorModel {
        match self {
            CollectorErrors::Measurement { metric, reason } => ErrorModel::Measurement {
                metric: metric@,
                reason: reason@,
            },
            CollectorErrors::Timeout(d) => ErrorModel::Timeout(*d),
            CollectorErrors::Config(s) => ErrorModel::Config(s@),
            CollectorErrors::MissingNodeInfo(s) => ErrorModel::MissingNodeInfo(s@),
            CollectorErrors::MissingData(s, part) => ErrorModel::MissingData(s@, part@),
        }
    }
}

/// An error in words.
pub open spec fn error_message(e: ErrorModel) -> Seq<char> {
    match e {
        ErrorModel::Measurement { metric, reason } => "Failed to measure "@ + metric + ": "@
            + reason,
        ErrorModel::Timeout(d) => "Request timeout after "@ + duration_text(d),
        ErrorModel::Config(s) => "Configuration error: "@ + s,
        ErrorModel::MissingNodeInfo(s) => "Failed to get node info for "@ + s,
        ErrorModel::MissingData(s, part) => "Missing crucial data for "@ + s + " - "@ + part,
    }
}

/// The value of the label `error_type` under which an error is counted.
pub open spec fn error_kind(e: ErrorModel) -> Seq<char> {
    match e {
        ErrorModel::Measurement { .. } => "measurement_failed"@,
        ErrorModel::Timeout(_) => "timeout"@,
        ErrorModel::Config(_) => "configuration"@,
        ErrorModel::MissingNodeInfo(_) => "missing_node_info"@,
        ErrorModel::MissingData(_, _) => "missing_data"@,
    }
}

impl CollectorErrors {
    /// The error in words.
    pub fn to_string(&self) -> (message: String)
        ensures
            message@ == error_message(self@),
    {
        match self {
            CollectorErrors::Measurement { metric, reason } => {
                String::from_str("Failed to measure ").concat(metric.as_str()).concat(
                    ": ",
                ).concat(reason.as_str())
            },
            CollectorErrors::Timeout(d) => String::from_str("Request timeout after ").concat(
                d.to_string().as_str(),
            ),
            CollectorErrors::Config(s) => String::from_str("Configuration error: ").concat(
                s.as_str(),
            ),
            CollectorErrors::MissingNodeInfo(s) => String::from_str(
                "Failed to get node info for ",
            ).concat(s.as_str()),
            CollectorErrors::MissingData(s, part) => String::from_str(
                "Missing crucial data for ",
            ).concat(s.as_str()).concat(" - ").concat(part),
        }
    }

    /// The value of the label `error_type` under which the error is
    /// counted.
    pub fn kind(&self) -> (name: &'static str)
        ensures
            name@ == error_kind(self@),
    {
        match self {
            CollectorErrors::Measurement { .. } => "measurement_failed",
            CollectorErrors::Timeout(_) => "timeout",
            CollectorErrors::Config(_) => "configuration",
            CollectorErrors::MissingNodeInfo(_) => "missing_node_info",
            CollectorErrors::MissingData(_, _) => "missing_data",
        }
    }
}

/// The vantage point that ran a probe.
#[derive(Debug, Clone)]
pub struct NodeInfo {
    pub country_code: String,
    pub continent_code: String,
    pub city: String,
    pub isp: String,
    pub operating_system: String,
    /// The geohash of the place of the vantage point, where one could be
    /// made of its coordinates.
    pub geohash: Option<String>,
}

/// One entry of the results of a probe: an error text, or the payload of
/// the kind of the probe.
#[derive(Debug, Clone)]
pub struct ResultItem<T> {
    pub endpoint: String,
    pub duration: Option<Reading>,
    pub error: Option<String>,
    pub result: Option<T>,
}

/// What the measurement service answers to one request.
#[derive(Debug, Clone)]
pub struct ProbeResponse<T> {
    pub node_info: Option<NodeInfo>,
    pub results: Vec<ResultItem<T>>,
}

/// The sample with the name `prefix` followed by `suffix`.
pub open spec fn named(
    prefix: Seq<char>,
    suffix: Seq<char>,
    labels: Labels,
    value: SampleValue,
    kind: MetricKind,
) -> SampleModel {
    SampleModel { name: prefix + suffix, labels, value, kind }
}

/// Adds to `out` the sample with the name `prefix` followed by `suffix`.
pub fn emit(
    out: &mut Vec<MetricSample>,
    prefix: &str,
    suffix: &str,
    labels: &LabelSet,
    value: SampleValue,
    kind: MetricKind,
)
    ensures
        samples_view(final(out)@) == samples_view(old(out)@).push(
            named(prefix@, suffix@, labels@, value, kind),
        ),
{
    let sample = MetricSample {
        name: String::from_str(prefix).concat(suffix),
        labels: labels.duplicate(),
        value,
        kind,
    };
    out.push(sample);
    assert(samples_view(out@) =~= samples_view(old(out)@).push(
        named(prefix@, suffix@, labels@, value, kind),
    ));
}

/// A gauge set to a derived value. A derived value that is no number, or
/// below zero, is withheld: it gives no sample.
pub open spec fn derived_gauge(prefix: Seq<char>, suffix: Seq<char>, labels: Labels, r: Reading)
    -> Seq<SampleModel> {
    if r.non_negative() {
        seq![named(prefix, suffix, labels, SampleValue::Measure(r), MetricKind::Gauge)]
    } else {
        Seq::empty()
    }
}

/// Sets in `out` a gauge to the derived value `r`, unless `r` is no number
/// or below zero.
pub fn emit_derived_gauge(
    out: &mut Vec<MetricSample>,
    prefix: &str,
    suffix: &str,
    labels: &LabelSet,
    r: Reading,
)
    ensures
        samples_view(final(out)@) == samples_view(old(out)@) + derived_gauge(
            prefix@,
            suffix@,
            labels@,
            r,
        ),
{
    if r.is_non_negative() {
        emit(out, prefix, suffix, labels, SampleValue::Measure(r), MetricKind::Gauge);
    }
    assert(samples_view(out@) =~= samples_view(old(out)@) + derived_gauge(
        prefix@,
        suffix@,
        labels@,
        r,
    ));
}

/// The descriptor of the metric with the name `prefix` followed by
/// `suffix`.
pub open spec fn described(
    prefix: Seq<char>,
    suffix: Seq<char>,
    help: Seq<char>,
    kind: MetricKind,
) -> DescriptorModel {
    DescriptorModel { name: prefix + suffix, help, kind }
}

/// What a list of descriptors holds, as plain values.
pub open spec fn descriptors_view(list: Seq<MetricDescriptor>) -> Seq<DescriptorModel> {
    list.map_values(|d: MetricDescriptor| d@)
}

/// Adds to `out` the descriptor of the metric with the name `prefix`
/// followed by `suffix`.
pub fn describe(
    out: &mut Vec<MetricDescriptor>,
    prefix: &str,
    suffix: &str,
    help: &str,
    kind: MetricKind,
)
    ensures
        descriptors_view(final(out)@) == descriptors_view(old(out)@).push(
            described(prefix@, suffix@, help@, kind),
        ),
{
    out.push(
        MetricDescriptor {
            name: String::from_str(prefix).concat(suffix),
            help: String::from_str(help),
            kind,
        },
    );
    assert(descriptors_view(out@) =~= descriptors_view(old(out)@).push(
        described(prefix@, suffix@, help@, kind),
    ));
}

/// The labels that every sample of a probe carries: where the vantage
/// point is, who serves it, what it runs, and the endpoint of the probe.
pub open spec fn base_labels(node: NodeInfo, endpoint: Seq<char>) -> Labels {
    let l0 = Seq::<(Seq<char>, Seq<char>)>::empty();
    let l1 = with_label(l0, "country_code"@, node.country_code@);
    let l2 = with_label(l1, "continent"@, node.continent_code@);
    let l3 = with_label(l2, "city"@, node.city@);
    let l4 = with_label(l3, "isp"@, node.isp@);
    let l5 = with_label(l4, "os"@, node.operating_system@);
    with_label(l5, "endpoint"@, endpoint)
}

/// The base labels, with the geohash of the vantage point where it has
/// one.
pub open spec fn located_labels(node: NodeInfo, endpoint: Seq<char>) -> Labels {
    match node.geohash {
        Some(hash) => with_label(base_labels(node, endpoint), "geohash"@, hash@),
        None => base_labels(node, endpoint),
    }
}

/// The base labels of a cycle that reached no vantage point.
pub open spec fn unplaced_labels(endpoint: Seq<char>) -> Labels {
    let l0 = Seq::<(Seq<char>, Seq<char>)>::empty();
    let l1 = with_label(l0, "country_code"@, "unknown"@);
    let l2 = with_label(l1, "continent"@, "unknown"@);
    let l3 = with_label(l2, "city"@, "unknown"@);
    let l4 = with_label(l3, "isp"@, "unknown"@);
    let l5 = with_label(l4, "os"@, "unknown"@);
    with_label(l5, "endpoint"@, endpoint)
}

/// The labels that every sample of a probe carries.
pub fn make_base_labels(node: &NodeInfo, endpoint: &str) -> (labels: LabelSet)
    ensures
        labels@ == base_labels(*node, endpoint@),
{
    let mut labels = LabelSet::new();
    labels.insert("country_code", node.country_code.clone());
    labels.insert("continent", node.continent_code.clone());
    labels.insert("city", node.city.clone());
    labels.insert("isp", node.isp.clone());
    labels.insert("os", node.operating_system.clone());
    labels.insert("endpoint", String::from_str(endpoint));
    labels
}

/// The base labels, with the geohash of the vantage point where it has
/// one.
pub fn make_located_labels(node: &NodeInfo, endpoint: &str) -> (labels: LabelSet)
    ensures
        labels@ == located_labels(*node, endpoint@),
{
    let mut labels = make_base_labels(node, endpoint);
    match &node.geohash {
        Some(hash) => {
            labels.insert("geohash", hash.clone());
        },
        None => {},
    }
    labels
}

/// The base labels of a cycle that reached no vantage point.
pub fn make_unplaced_labels(endpoint: &str) -> (labels: LabelSet)
    ensures
        labels@ == unplaced_labels(endpoint@),
{
    let mut labels = LabelSet::new();
    labels.insert("country_code", String::from_str("unknown"));
    labels.insert("continent", String::from_str("unknown"));
    labels.insert("city", String::from_str("unknown"));
    labels.insert("isp", String::from_str("unknown"));
    labels.insert("os", String::from_str("unknown"));
    labels.insert("endpoint", String::from_str(endpoint));
    labels
}

/// The one sample by which a failed cycle shows: an increment of the
/// failure counter `prefix` + `counter`, labelled with the kind of the
/// error.
pub open spec fn failure_samples(
    prefix: Seq<char>,
    counter: Seq<char>,
    endpoint: Seq<char>,
    error: ErrorModel,
) -> Seq<SampleModel> {
    seq![
        named(
            prefix,
            counter,
            with_label(unplaced_labels(endpoint), "error_type"@, error_kind(error)),
            SampleValue::Count(1),
            MetricKind::Counter,
        ),
    ]
}

/// The sample by which a failed cycle shows.
pub fn make_failure_samples(
    config: &MetricConfig,
    counter: &str,
    error: &CollectorErrors,
) -> (out: Vec<MetricSample>)
    ensures
        samples_view(out@) == failure_samples(
            config.prefix@,
            counter@,
            crate::config::endpoint_label(*config),
            error@,
        ),
{
    let mut labels = make_unplaced_labels(config.label().as_str());
    labels.insert("error_type", String::from_str(error.kind()));
    let mut out: Vec<MetricSample> = Vec::new();
    assert(samples_view(out@) =~= Seq::<SampleModel>::empty());
    emit(
        &mut out,
        config.prefix.as_str(),
        counter,
        &labels,
        SampleValue::Count(1),
        MetricKind::Counter,
    );
    assert(samples_view(out@) =~= failure_samples(
        config.prefix@,
        counter@,
        crate::config::endpoint_label(*config),
        error@,
    ));
    out
}

/// The label set holds the keys that all samples share, whatever the kind
/// of the probe: where the vantage point is, who serves it, and the
/// endpoint.
pub open spec fn carries_base(labels: Labels) -> bool {
    &&& has_key(labels, "country_code"@)
    &&& has_key(labels, "continent"@)
    &&& has_key(labels, "city"@)
    &&& has_key(labels, "isp"@)
    &&& has_key(labels, "endpoint"@)
}

/// Every sample holds the keys that all samples share.
pub open spec fn all_carry_base(samples: Seq<SampleModel>) -> bool {
    forall|i: int| 0 <= i < samples.len() ==> carries_base((#[trigger] samples[i]).labels)
}

/// Setting a label takes none of the shared keys away.
pub proof fn lemma_with_label_carries(labels: Labels, key: Seq<char>, value: Seq<char>)
    requires
        carries_base(labels),
    ensures
        carries_base(with_label(labels, key, value)),
{
    lemma_with_label_keys(labels, key, value, "country_code"@);
    lemma_with_label_keys(labels, key, value, "continent"@);
    lemma_with_label_keys(labels, key, value, "city"@);
    lemma_with_label_keys(labels, key, value, "isp"@);
    lemma_with_label_keys(labels, key, value, "endpoint"@);
}

/// Two lists of samples that hold the shared keys do so when joined.
pub proof fn lemma_joined_carry(a: Seq<SampleModel>, b: Seq<SampleModel>)
    requires
        all_carry_base(a),
        all_carry_base(b),
    ensures
        all_carry_base(a + b),
{
    assert forall|i: int| 0 <= i < (a + b).len() implies carries_base(
        (#[trigger] (a + b)[i]).labels,
    ) by {
        if i < a.len() {
            assert((a + b)[i] == a[i]);
        } else {
            assert((a + b)[i] == b[i - a.len()]);
        }
    }
}

/// The five labels of a label set that is built from place and endpoint
/// are the shared keys.
proof fn lemma_five_carry(a: Seq<char>, b: Seq<char>, c: Seq<char>, d: Seq<char>, e: Seq<char>, endpoint: Seq<char>)
    ensures
        carries_base(
            with_label(
                with_label(
                    with_label(
                        with_label(
                            with_label(
                                with_label(
                                    Seq::<(Seq<char>, Seq<char>)>::empty(),
                                    "country_code"@,
                                    a,
                                ),
                                "continent"@,
                                b,
                            ),
                            "city"@,
                            c,
                        ),
                        "isp"@,
                        d,
                    ),
                    "os"@,
                    e,
                ),
                "endpoint"@,
                endpoint,
            ),
        ),
{
    let l0 = Seq::<(Seq<char>, Seq<char>)>::empty();
    let l1 = with_label(l0, "country_code"@, a);
    let l2 = with_label(l1, "continent"@, b);
    let l3 = with_label(l2, "city"@, c);
    let l4 = with_label(l3, "isp"@, d);
    let l5 = with_label(l4, "os"@, e);
    let l6 = with_label(l5, "endpoint"@, endpoint);
    lemma_with_label_keys(l0, "country_code"@, a, "country_code"@);
    lemma_with_label_keys(l1, "continent"@, b, "country_code"@);
    lemma_with_label_keys(l1, "continent"@, b, "continent"@);
    lemma_with_label_keys(l2, "city"@, c, "country_code"@);
    lemma_with_label_keys(l2, "city"@, c, "continent"@);
    lemma_with_label_keys(l2, "city"@, c, "city"@);
    lemma_with_label_keys(l3, "isp"@, d, "country_code"@);
    lemma_with_label_keys(l3, "isp"@, d, "continent"@);
    lemma_with_label_keys(l3, "isp"@, d, "city"@);
    lemma_with_label_keys(l3, "isp"@, d, "isp"@);
    lemma_with_label_keys(l4, "os"@, e, "country_code"@);
    lemma_with_label_keys(l4, "os"@, e, "continent"@);
    lemma_with_label_keys(l4, "os"@, e, "city"@);
    lemma_with_label_keys(l4, "os"@, e, "isp"@);
    lemma_with_label_keys(l5, "endpoint"@, endpoint, "country_code"@);
    lemma_with_label_keys(l5, "endpoint"@, endpoint, "continent"@);
    lemma_with_label_keys(l5, "endpoint"@, endpoint, "city"@);
    lemma_with_label_keys(l5, "endpoint"@, endpoint, "isp"@);
    lemma_with_label_keys(l5, "endpoint"@, endpoint, "endpoint"@);
}

/// The labels of a vantage point hold the shared keys, with or without
/// its geohash.
pub proof fn lemma_base_labels_carry(node: NodeInfo, endpoint: Seq<char>)
    ensures
        carries_base(base_labels(node, endpoint)),
        carries_base(located_labels(node, endpoint)),
{
    lemma_five_carry(
        node.country_code@,
        node.continent_code@,
        node.city@,
        node.isp@,
        node.operating_system@,
        endpoint,
    );
    match node.geohash {
        Some(hash) => {
            lemma_with_label_carries(base_labels(node, endpoint), "geohash"@, hash@);
        },
        None => {},
    }
}

/// The sample of a failed cycle holds the shared keys.
pub proof fn lemma_failure_samples_carry(
    prefix: Seq<char>,
    counter: Seq<char>,
    endpoint: Seq<char>,
    error: ErrorModel,
)
    ensures
        all_carry_base(failure_samples(prefix, counter, endpoint, error)),
{
    lemma_five_carry("unknown"@, "unknown"@, "unknown"@, "unknown"@, "unknown"@, endpoint);
    lemma_with_label_carries(unplaced_labels(endpoint), "error_type"@, error_kind(error));
}

/// What the handling of a response gives, as plain values.
pub open spec fn outcome_view(r: Result<Vec<MetricSample>, CollectorErrors>) -> Result<
    Seq<SampleModel>,
    ErrorModel,
> {
    match r {
        Ok(samples) => Ok(samples_view(samples@)),
        Err(e) => Err(e@),
    }
}

/// What every kind of probe can do: declare its metrics, say what it asks
/// of the measurement service and how often, and turn one response, or one
/// failure, into samples. Sending the request is left to the caller.
pub trait Collector: Sized {
    type Config;

    type Request;

    type Response;

    /// The configuration that the collector was made with.
    spec fn config(&self) -> Self::Config;

    /// The metrics that the collector declares.
    spec fn descriptors(&self) -> Seq<DescriptorModel>;

    /// Whether `request` is what the collector asks of the service.
    spec fn asks(&self, request: Self::Request) -> bool;

    /// The time between two cycles.
    spec fn frequency(&self) -> Duration;

    /// The samples that a response stands for, or why it stands for none.
    spec fn derived(&self, response: Self::Response) -> Result<Seq<SampleModel>, ErrorModel>;

    /// The samples by which a failed cycle shows.
    spec fn failure(&self, error: ErrorModel) -> Seq<SampleModel>;

    /// A collector for the probe that `config` describes.
    fn new(config: &'static Self::Config) -> (collector: Self)
        ensures
            collector.config() == *config,
    ;

    /// The name, help text and kind of every metric of this kind of probe.
    /// Every call gives the same list.
    fn register_metrics(&self) -> (list: Vec<MetricDescriptor>)
        ensures
            descriptors_view(list@) == self.descriptors(),
    ;

    /// What one cycle asks of the measurement service.
    fn build_request(&self) -> (request: Self::Request)
        ensures
            self.asks(request),
    ;

    /// The time between two cycles.
    fn get_frequency(&self) -> (d: Duration)
        ensures
            d == self.frequency(),
    ;

    /// The samples of one response; an error where the response names no
    /// vantage point or lacks its payload.
    fn handle_response(&self, response: Self::Response) -> (r: Result<
        Vec<MetricSample>,
        CollectorErrors,
    >)
        ensures
            outcome_view(r) == self.derived(response),
    ;

    /// The samples by which a cycle shows that ended in `error`.
    fn handle_errors(&self, error: CollectorErrors) -> (samples: Vec<MetricSample>)
        ensures
            samples_view(samples@) == self.failure(error@),
    ;

    /// Every sample that a response stands for holds the shared keys.
    proof fn lemma_derived_carries_base(&self, response: Self::Response)
        ensures
            self.derived(response) matches Ok(samples) ==> all_carry_base(samples),
    ;

    /// Every sample of a failed cycle holds the shared keys.
    proof fn lemma_failure_carries_base(&self, error: ErrorModel)
        ensures
            all_carry_base(self.failure(error)),
    ;
}

} // verus!
