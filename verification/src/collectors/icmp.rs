//! The ICMP collector: latency and packet statistics of one ping probe.

use vstd::prelude::*;
use crate::collectors::{
    Collector, CollectorErrors, ErrorModel, ProbeResponse, all_carry_base, base_labels,
    derived_gauge, describe, described, descriptors_view, emit, emit_derived_gauge,
    failure_samples, lemma_base_labels_carry,
    lemma_failure_samples_carry, lemma_joined_carry, lemma_with_label_carries, make_base_labels,
    make_failure_samples, named,
};
use crate::collectors::request::{IcmpRequest, icmp_request, targeting_of};
use crate::config::{Duration, IcmpConfig, endpoint_label};
use crate::metric::{
    DescriptorModel, Labels, LabelSet, MetricDescriptor, MetricKind, MetricSample, SampleModel,
    SampleValue, samples_view, with_label,
};
use crate::reading::{Reading, share_of};
use crate::text::{chars_of, holds_phrase, occurs_in};

verus! {

/// What a ping probe measured: the address it reached, the latency in
/// milliseconds and the packets.
#[derive(Debug, Clone)]
pub struct IcmpResult {
    pub ip_address: String,
    pub min: Reading,
    pub max: Reading,
    pub avg: Reading,
    pub std_dev: Reading,
    pub packet_loss: Reading,
    pub packets_sent: Reading,
    pub packets_recv: Reading,
}

/// The answer of the measurement service to an ICMP probe.
pub type IcmpResponse = ProbeResponse<IcmpResult>;

/// The value of the label `error_type` for the error text of an ICMP
/// probe: the first of the known phrases that the text holds decides.
pub open spec fn icmp_error_type(error: Seq<char>) -> Seq<char> {
    if occurs_in(error, "Failed to lookup FQDN"@) {
        "dns_lookup_failed"@
    } else if occurs_in(error, "no record found for Query"@) {
        "dns_record_missing"@
    } else if occurs_in(error, "connection timed out"@) {
        "timeout"@
    } else if occurs_in(error, "destination host unreachable"@) {
        "host_unreachable"@
    } else if occurs_in(error, "permission denied"@) {
        "permission_denied"@
    } else if occurs_in(error, "network is unreachable"@) {
        "network_unreachable"@
    } else {
        "unknown_error"@
    }
}

/// The value of the label `error_type` for the error text of an ICMP probe.
pub fn classify_icmp_error(error: &str) -> (kind: &'static str)
    ensures
        kind@ == icmp_error_type(error@),
{
    let e = chars_of(error);
    if holds_phrase(&e, "Failed to lookup FQDN") {
        "dns_lookup_failed"
    } else if holds_phrase(&e, "no record found for Query") {
        "dns_record_missing"
    } else if holds_phrase(&e, "connection timed out") {
        "timeout"
    } else if holds_phrase(&e, "destination host unreachable") {
        "host_unreachable"
    } else if holds_phrase(&e, "permission denied") {
        "permission_denied"
    } else if holds_phrase(&e, "network is unreachable") {
        "network_unreachable"
    } else {
        "unknown_error"
    }
}

/// The sample by which an ICMP probe shows that the service reported the
/// error `error`.
pub open spec fn icmp_failure(prefix: Seq<char>, labels: Labels, error: Seq<char>) -> Seq<
    SampleModel,
> {
    seq![
        named(
            prefix,
            "icmp_ping_failures_total"@,
            with_label(labels, "error_type"@, icmp_error_type(error)),
            SampleValue::Count(1),
            MetricKind::Counter,
        ),
    ]
}

/// The share of the packets sent that came back; zero where none was sent.
pub open spec fn success_ratio(result: IcmpResult) -> Reading {
    share_of(result.packets_recv, result.packets_sent)
}

/// Where nothing was sent the success ratio is zero, and where the packets
/// that came back are among those sent, the success ratio lies between
/// zero and one.
pub proof fn lemma_success_ratio_within_unit(result: IcmpResult)
    requires
        result.packets_sent matches Reading::Value(sent) && result.packets_recv matches Reading::Value(
            recv,
        ) && 0 <= recv <= sent,
    ensures
        result.packets_sent == Reading::Value(0) ==> success_ratio(result) == Reading::Value(0),
        success_ratio(result) is Value,
        0 <= success_ratio(result)->Value_0 <= 1_000_000,
{
    crate::reading::lemma_share_within_unit(
        result.packets_recv->Value_0,
        result.packets_sent->Value_0,
    );
}

/// The gauges of a ping: latency and packets as reported, the share of
/// packets that came back, and one more successful ping. The share is a
/// derived value: where it is no number or below zero it is withheld.
pub open spec fn icmp_gauges(prefix: Seq<char>, result: IcmpResult, labels: Labels) -> Seq<
    SampleModel,
> {
    seq![
        named(
            prefix,
            "icmp_ping_latency_min_ms"@,
            labels,
            SampleValue::Measure(result.min),
            MetricKind::Gauge,
        ),
        named(
            prefix,
            "icmp_ping_latency_max_ms"@,
            labels,
            SampleValue::Measure(result.max),
            MetricKind::Gauge,
        ),
        named(
            prefix,
            "icmp_ping_latency_avg_ms"@,
            labels,
            SampleValue::Measure(result.avg),
            MetricKind::Gauge,
        ),
        named(
            prefix,
            "icmp_ping_latency_stddev_ms"@,
            labels,
            SampleValue::Measure(result.std_dev),
            MetricKind::Gauge,
        ),
        named(
            prefix,
            "icmp_ping_packet_loss_ratio"@,
            labels,
            SampleValue::Measure(result.packet_loss),
            MetricKind::Gauge,
        ),
        named(
            prefix,
            "icmp_ping_packets_sent"@,
            labels,
            SampleValue::Measure(result.packets_sent),
            MetricKind::Gauge,
        ),
        named(
            prefix,
            "icmp_ping_packets_received"@,
            labels,
            SampleValue::Measure(result.packets_recv),
            MetricKind::Gauge,
        ),
    ] + derived_gauge(prefix, "icmp_ping_success_ratio"@, labels, success_ratio(result)) + seq![
        named(
            prefix,
            "icmp_ping_success_total"@,
            labels,
            SampleValue::Count(1),
            MetricKind::Counter,
        ),
    ]
}

/// The samples of a ping: the duration of the whole request where it is
/// known, then the gauges.
pub open spec fn icmp_success(
    prefix: Seq<char>,
    duration: Option<Reading>,
    result: IcmpResult,
    labels: Labels,
) -> Seq<SampleModel> {
    (match duration {
        Some(d) => seq![
            named(
                prefix,
                "icmp_ping_duration_ms"@,
                labels,
                SampleValue::Measure(d),
                MetricKind::Histogram,
            ),
        ],
        None => Seq::empty(),
    }) + icmp_gauges(prefix, result, labels)
}

/// The samples that a response to an ICMP probe stands for. The response
/// has to name its vantage point and to hold a first result with an error
/// text or a payload. An error text gives a failure sample; a payload
/// gives the samples of the ping, labelled with the address reached.
pub open spec fn icmp_derived(config: IcmpConfig, response: IcmpResponse) -> Result<
    Seq<SampleModel>,
    ErrorModel,
> {
    let endpoint = endpoint_label(config.common_config);
    let prefix = config.common_config.prefix@;
    match response.node_info {
        None => Err(ErrorModel::MissingNodeInfo(endpoint)),
        Some(node) => if response.results@.len() == 0 {
            Err(ErrorModel::MissingData(endpoint, "no_results"@))
        } else {
            let first = response.results@[0];
            let labels = base_labels(node, endpoint);
            let failed = match first.error {
                Some(e) => icmp_failure(prefix, labels, e@),
                None => Seq::empty(),
            };
            match first.result {
                Some(result) => Ok(
                    failed + icmp_success(
                        prefix,
                        first.duration,
                        result,
                        with_label(labels, "ip_address"@, result.ip_address@),
                    ),
                ),
                None => if first.error is Some {
                    Ok(failed)
                } else {
                    Err(ErrorModel::MissingData(endpoint, "icmp_result"@))
                },
            }
        },
    }
}

/// The metrics of an ICMP probe.
pub open spec fn icmp_descriptors(prefix: Seq<char>) -> Seq<DescriptorModel> {
    seq![
        described(
            prefix,
            "icmp_ping_failures_total"@,
            "Total number of ICMP ping failures"@,
            MetricKind::Counter,
        ),
        described(
            prefix,
            "icmp_ping_success_total"@,
            "Total number of successful ICMP pings"@,
            MetricKind::Counter,
        ),
        described(
            prefix,
            "icmp_ping_duration_ms"@,
            "Time taken to perform ICMP ping in milliseconds"@,
            MetricKind::Histogram,
        ),
        described(
            prefix,
            "icmp_ping_latency_min_ms"@,
            "Minimum latency of ICMP ping in milliseconds"@,
            MetricKind::Gauge,
        ),
        described(
            prefix,
            "icmp_ping_latency_max_ms"@,
            "Maximum latency of ICMP ping in milliseconds"@,
            MetricKind::Gauge,
        ),
        described(
            prefix,
            "icmp_ping_latency_avg_ms"@,
            "Average latency of ICMP ping in milliseconds"@,
            MetricKind::Gauge,
        ),
        described(
            prefix,
            "icmp_ping_latency_stddev_ms"@,
            "Standard deviation of ICMP ping latency in milliseconds"@,
            MetricKind::Gauge,
        ),
        described(
            prefix,
            "icmp_ping_packet_loss_ratio"@,
            "Ratio of lost packets during ICMP ping"@,
            MetricKind::Gauge,
        ),
        described(
            prefix,
            "icmp_ping_packets_sent"@,
            "Number of ICMP packets sent"@,
            MetricKind::Gauge,
        ),
        described(
            prefix,
            "icmp_ping_packets_received"@,
            "Number of ICMP packets received"@,
            MetricKind::Gauge,
        ),
        described(
            prefix,
            "icmp_ping_success_ratio"@,
            "Ratio of successful ICMP pings"@,
            MetricKind::Gauge,
        ),
    ]
}

/// The collector of one ICMP probe.
pub struct IcmpCollector {
    config: &'static IcmpConfig,
}

impl IcmpCollector {
    /// Adds to `out` the sample for an error text that the service
    /// reported.
    pub fn record_failure_with_labels(
        &self,
        out: &mut Vec<MetricSample>,
        error: &str,
        labels: &LabelSet,
    )
        ensures
            samples_view(final(out)@) == samples_view(old(out)@) + icmp_failure(
                self.config().common_config.prefix@,
                labels@,
                error@,
            ),
    {
        let mut typed = labels.duplicate();
        typed.insert("error_type", String::from_str(classify_icmp_error(error)));
        emit(
            out,
            self.config.common_config.prefix.as_str(),
            "icmp_ping_failures_total",
            &typed,
            SampleValue::Count(1),
            MetricKind::Counter,
        );
        assert(samples_view(out@) =~= samples_view(old(out)@) + icmp_failure(
            self.config().common_config.prefix@,
            labels@,
            error@,
        ));
    }

    /// Adds to `out` the samples of a ping.
    pub fn record_success_metrics(
        &self,
        out: &mut Vec<MetricSample>,
        duration: Option<Reading>,
        result: &IcmpResult,
        labels: &LabelSet,
    )
        ensures
            samples_view(final(out)@) == samples_view(old(out)@) + icmp_success(
                self.config().common_config.prefix@,
                duration,
                *result,
                labels@,
            ),
    {
        let prefix = self.config.common_config.prefix.as_str();
        match duration {
            Some(d) => {
                emit(
                    out,
                    prefix,
                    "icmp_ping_duration_ms",
                    labels,
                    SampleValue::Measure(d),
                    MetricKind::Histogram,
                );
            },
            None => {},
        }
        let ghost mid = samples_view(out@);
        assert(mid =~= samples_view(old(out)@) + (match duration {
            Some(d) => seq![
                named(
                    prefix@,
                    "icmp_ping_duration_ms"@,
                    labels@,
                    SampleValue::Measure(d),
                    MetricKind::Histogram,
                ),
            ],
            None => Seq::empty(),
        }));
        let gauge = MetricKind::Gauge;
        emit(out, prefix, "icmp_ping_latency_min_ms", labels, SampleValue::Measure(result.min), gauge);
        emit(out, prefix, "icmp_ping_latency_max_ms", labels, SampleValue::Measure(result.max), gauge);
        emit(out, prefix, "icmp_ping_latency_avg_ms", labels, SampleValue::Measure(result.avg), gauge);
        emit(
            out,
            prefix,
            "icmp_ping_latency_stddev_ms",
            labels,
            SampleValue::Measure(result.std_dev),
            gauge,
        );
        emit(
            out,
            prefix,
            "icmp_ping_packet_loss_ratio",
            labels,
            SampleValue::Measure(result.packet_loss),
            gauge,
        );
        emit(
            out,
            prefix,
            "icmp_ping_packets_sent",
            labels,
            SampleValue::Measure(result.packets_sent),
            gauge,
        );
        emit(
            out,
            prefix,
            "icmp_ping_packets_received",
            labels,
            SampleValue::Measure(result.packets_recv),
            gauge,
        );
        let ghost reported = samples_view(out@);
        let ratio = result.packets_recv.share(result.packets_sent);
        emit_derived_gauge(out, prefix, "icmp_ping_success_ratio", labels, ratio);
        let ghost shared = samples_view(out@);
        assert(shared =~= reported + derived_gauge(
            prefix@,
            "icmp_ping_success_ratio"@,
            labels@,
            success_ratio(*result),
        ));
        emit(
            out,
            prefix,
            "icmp_ping_success_total",
            labels,
            SampleValue::Count(1),
            MetricKind::Counter,
        );
        assert(samples_view(out@) =~= mid + icmp_gauges(prefix@, *result, labels@));
    }
}

impl Collector for IcmpCollector {
    type Config = IcmpConfig;

    type Request = IcmpRequest;

    type Response = IcmpResponse;

    closed spec fn config(&self) -> IcmpConfig {
        *self.config
    }

    open spec fn descriptors(&self) -> Seq<DescriptorModel> {
        icmp_descriptors(self.config().common_config.prefix@)
    }

    open spec fn asks(&self, request: IcmpRequest) -> bool {
        request.targeting@ == targeting_of(self.config().common_config, false)
    }

    open spec fn frequency(&self) -> Duration {
        self.config().common_config.frequency
    }

    open spec fn derived(&self, response: IcmpResponse) -> Result<Seq<SampleModel>, ErrorModel> {
        icmp_derived(self.config(), response)
    }

    open spec fn failure(&self, error: ErrorModel) -> Seq<SampleModel> {
        failure_samples(
            self.config().common_config.prefix@,
            "icmp_ping_failures_total"@,
            endpoint_label(self.config().common_config),
            error,
        )
    }

    fn new(config: &'static IcmpConfig) -> (collector: Self) {
        IcmpCollector { config }
    }

    fn register_metrics(&self) -> (list: Vec<MetricDescriptor>) {
        let prefix = self.config.common_config.prefix.as_str();
        let mut list: Vec<MetricDescriptor> = Vec::new();
        assert(descriptors_view(list@) =~= Seq::<DescriptorModel>::empty());
        describe(
            &mut list,
            prefix,
            "icmp_ping_failures_total",
            "Total number of ICMP ping failures",
            MetricKind::Counter,
        );
        describe(
            &mut list,
            prefix,
            "icmp_ping_success_total",
            "Total number of successful ICMP pings",
            MetricKind::Counter,
        );
        describe(
            &mut list,
            prefix,
            "icmp_ping_duration_ms",
            "Time taken to perform ICMP ping in milliseconds",
            MetricKind::Histogram,
        );
        describe(
            &mut list,
            prefix,
            "icmp_ping_latency_min_ms",
            "Minimum latency of ICMP ping in milliseconds",
            MetricKind::Gauge,
        );
        describe(
            &mut list,
            prefix,
            "icmp_ping_latency_max_ms",
            "Maximum latency of ICMP ping in milliseconds",
            MetricKind::Gauge,
        );
        describe(
            &mut list,
            prefix,
            "icmp_ping_latency_avg_ms",
            "Average latency of ICMP ping in milliseconds",
            MetricKind::Gauge,
        );
        describe(
            &mut list,
            prefix,
            "icmp_ping_latency_stddev_ms",
            "Standard deviation of ICMP ping latency in milliseconds",
            MetricKind::Gauge,
        );
        describe(
            &mut list,
            prefix,
            "icmp_ping_packet_loss_ratio",
            "Ratio of lost packets during ICMP ping",
            MetricKind::Gauge,
        );
        describe(
            &mut list,
            prefix,
            "icmp_ping_packets_sent",
            "Number of ICMP packets sent",
            MetricKind::Gauge,
        );
        describe(
            &mut list,
            prefix,
            "icmp_ping_packets_received",
            "Number of ICMP packets received",
            MetricKind::Gauge,
        );
        describe(
            &mut list,
            prefix,
            "icmp_ping_success_ratio",
            "Ratio of successful ICMP pings",
            MetricKind::Gauge,
        );
        assert(descriptors_view(list@) =~= icmp_descriptors(prefix@));
        list
    }

    fn build_request(&self) -> (request: IcmpRequest) {
        icmp_request(self.config)
    }

    fn get_frequency(&self) -> (d: Duration) {
        self.config.common_config.frequency
    }

    fn handle_response(&self, response: IcmpResponse) -> (r: Result<
        Vec<MetricSample>,
        CollectorErrors,
    >) {
        let endpoint = self.config.common_config.label();
        let node_info = match &response.node_info {
            Some(node) => node,
            None => {
                return Err(CollectorErrors::MissingNodeInfo(endpoint.clone()));
            },
        };
        let mut labels = make_base_labels(node_info, endpoint.as_str());
        if response.results.len() == 0 {
            return Err(CollectorErrors::MissingData(endpoint.clone(), "no_results"));
        }
        let first = &response.results[0];
        let mut out: Vec<MetricSample> = Vec::new();
        assert(samples_view(out@) =~= Seq::<SampleModel>::empty());
        match &first.error {
            Some(error) => {
                self.record_failure_with_labels(&mut out, error.as_str(), &labels);
            },
            None => {},
        }
        let ghost failed = samples_view(out@);
        assert(failed =~= (match first.error {
            Some(e) => icmp_failure(self.config().common_config.prefix@, labels@, e@),
            None => Seq::empty(),
        }));
        match &first.result {
            Some(result) => {
                labels.insert("ip_address", result.ip_address.clone());
                self.record_success_metrics(&mut out, first.duration, result, &labels);
                Ok(out)
            },
            None => {
                if first.error.is_some() {
                    Ok(out)
                } else {
                    Err(CollectorErrors::MissingData(endpoint.clone(), "icmp_result"))
                }
            },
        }
    }

    fn handle_errors(&self, error: CollectorErrors) -> (samples: Vec<MetricSample>) {
        make_failure_samples(&self.config.common_config, "icmp_ping_failures_total", &error)
    }

    proof fn lemma_derived_carries_base(&self, response: IcmpResponse) {
        let config = self.config();
        let endpoint = endpoint_label(config.common_config);
        let prefix = config.common_config.prefix@;
        if response.node_info is Some && response.results@.len() > 0 {
            let node = response.node_info->Some_0;
            let first = response.results@[0];
            let labels = base_labels(node, endpoint);
            lemma_base_labels_carry(node, endpoint);
            let failed = match first.error {
                Some(e) => icmp_failure(prefix, labels, e@),
                None => Seq::empty(),
            };
            match first.error {
                Some(e) => {
                    lemma_with_label_carries(labels, "error_type"@, icmp_error_type(e@));
                },
                None => {},
            }
            assert(all_carry_base(failed));
            match first.result {
                Some(result) => {
                    let reached = with_label(labels, "ip_address"@, result.ip_address@);
                    lemma_with_label_carries(labels, "ip_address"@, result.ip_address@);
                    let timed = icmp_success(prefix, first.duration, result, reached);
                    assert(all_carry_base(icmp_gauges(prefix, result, reached))) by {
                        let gauges = icmp_gauges(prefix, result, reached);
                        assert forall|i: int| 0 <= i < gauges.len() implies (
                        #[trigger] gauges[i]).labels == reached by {}
                    }
                    assert(all_carry_base(timed)) by {
                        match first.duration {
                            Some(d) => {
                                lemma_joined_carry(
                                    seq![
                                        named(
                                            prefix,
                                            "icmp_ping_duration_ms"@,
                                            reached,
                                            SampleValue::Measure(d),
                                            MetricKind::Histogram,
                                        ),
                                    ],
                                    icmp_gauges(prefix, result, reached),
                                );
                            },
                            None => {
                                assert(timed =~= icmp_gauges(prefix, result, reached));
                            },
                        }
                    }
                    lemma_joined_carry(failed, timed);
                },
                None => {},
            }
        }
    }

    proof fn lemma_failure_carries_base(&self, error: ErrorModel) {
        lemma_failure_samples_carry(
            self.config().common_config.prefix@,
            "icmp_ping_failures_total"@,
            endpoint_label(self.config().common_config),
            error,
        );
    }
}

} // verus!
