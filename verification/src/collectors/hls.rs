//! The HLS collector: the timings of the playlists and fragments of one
//! streaming probe, and what they say about buffering.

use vstd::prelude::*;
use crate::collectors::{
    Collector, CollectorErrors, ErrorModel, ProbeResponse, all_carry_base, carries_base,
    derived_gauge, describe, described, descriptors_view, emit, emit_derived_gauge,
    failure_samples, lemma_base_labels_carry, lemma_failure_samples_carry, lemma_joined_carry,
    lemma_with_label_carries, located_labels, make_failure_samples, make_located_labels, named,
};
use crate::collectors::request::{HlsRequest, hls_request, pair_texts, targeting_of};
use crate::config::{Duration, HlsConfig, endpoint_label};
use crate::metric::{
    DescriptorModel, Labels, LabelSet, MetricDescriptor, MetricKind, MetricSample, SampleModel,
    SampleValue, samples_view, with_label,
};
use crate::reading::{Reading, or_zero, reading_of, reading_or_zero, scaled_by, sum_of};
use crate::text::{chars_of, decimal, holds_phrase, occurs_in, render_decimal};

verus! {

/// How long the phases of one connection took, in milliseconds.
#[derive(Debug, Clone, Copy)]
pub struct ConnectionMetrics {
    pub dns_resolve_duration_ms: Option<Reading>,
    pub tls_handshake_duration_ms: Option<Reading>,
    pub tcp_connect_duration_ms: Reading,
    pub http_get_send_duration_ms: Option<Reading>,
    pub http_ttfb_duration_ms: Reading,
}

/// The size of a download in bytes, its time in milliseconds and its rate
/// in bytes per second.
#[derive(Debug, Clone, Copy)]
pub struct DownloadMetrics {
    pub bytes_per_second: Reading,
    pub size: Reading,
    pub time_ms: Reading,
}

/// One media fragment: how long it plays, how its download went, and the
/// ratio of the two.
#[derive(Debug, Clone)]
pub struct FragmentMetrics {
    pub content_fragment_duration_secs: Reading,
    pub download_metrics: Option<DownloadMetrics>,
    pub download_ratio: Reading,
    pub file: String,
    pub metrics: Option<ConnectionMetrics>,
}

/// One rendition: its place on the bandwidth ladder, its playlist and its
/// fragments.
#[derive(Debug, Clone)]
pub struct Rendition {
    pub bandwidth: u64,
    pub content_fragment_metrics: Vec<FragmentMetrics>,
    pub discontinuity_sequence: u64,
    pub download_metrics: Option<DownloadMetrics>,
    pub file: String,
    pub metrics: Option<ConnectionMetrics>,
    pub resolution: String,
    pub target_duration_secs: u64,
}

/// The master playlist with its renditions.
#[derive(Debug, Clone)]
pub struct Master {
    pub metrics: Option<ConnectionMetrics>,
    pub download_metrics: Option<DownloadMetrics>,
    pub renditions: Vec<Rendition>,
}

/// What a streaming probe measured: a master playlist, a rendition that
/// was reached directly, or both.
#[derive(Debug, Clone)]
pub struct HlsResult {
    pub master: Option<Master>,
    pub rendition: Option<Rendition>,
}

/// The answer of the measurement service to an HLS probe.
pub type HlsResponse = ProbeResponse<HlsResult>;

/// The value of the label `error_type` for the error text of an HLS
/// probe: the first of the known phrases that the text holds decides.
pub open spec fn hls_error_type(error: Seq<char>) -> Seq<char> {
    if occurs_in(error, "dns error"@) || occurs_in(error, "no record found for Query"@) {
        "dns_error"@
    } else if occurs_in(error, "NoSuchKey"@) || occurs_in(error, "does not exist"@) {
        "not_found"@
    } else if occurs_in(error, "Failed to parse root m3u8"@) {
        "invalid_manifest"@
    } else if occurs_in(error, "connection timed out"@) {
        "timeout"@
    } else if occurs_in(error, "client error (Connect)"@) {
        "connection_error"@
    } else if occurs_in(error, "certificate"@) {
        "ssl_error"@
    } else if occurs_in(error, "404"@) {
        "http_404"@
    } else if occurs_in(error, "403"@) {
        "http_403"@
    } else if occurs_in(error, "500"@) {
        "http_500"@
    } else {
        "unknown_error"@
    }
}

/// The value of the label `error_type` for the error text of an HLS probe.
pub fn classify_hls_error(error: &str) -> (kind: &'static str)
    ensures
        kind@ == hls_error_type(error@),
{
    let e = chars_of(error);
    if holds_phrase(&e, "dns error") || holds_phrase(&e, "no record found for Query") {
        "dns_error"
    } else if holds_phrase(&e, "NoSuchKey") || holds_phrase(&e, "does not exist") {
        "not_found"
    } else if holds_phrase(&e, "Failed to parse root m3u8") {
        "invalid_manifest"
    } else if holds_phrase(&e, "connection timed out") {
        "timeout"
    } else if holds_phrase(&e, "client error (Connect)") {
        "connection_error"
    } else if holds_phrase(&e, "certificate") {
        "ssl_error"
    } else if holds_phrase(&e, "404") {
        "http_404"
    } else if holds_phrase(&e, "403") {
        "http_403"
    } else if holds_phrase(&e, "500") {
        "http_500"
    } else {
        "unknown_error"
    }
}

/// The samples by which an HLS probe shows that the service reported the
/// error `error`: one more failure, and one more error of its type.
pub open spec fn hls_failure(prefix: Seq<char>, labels: Labels, error: Seq<char>) -> Seq<
    SampleModel,
> {
    let typed = with_label(labels, "error_type"@, hls_error_type(error));
    seq![
        named(prefix, "hls_failures_total"@, typed, SampleValue::Count(1), MetricKind::Counter),
        named(prefix, "hls_errors_by_type"@, typed, SampleValue::Count(1), MetricKind::Counter),
    ]
}

/// An observation of a timing.
pub open spec fn observed(prefix: Seq<char>, suffix: Seq<char>, labels: Labels, r: Reading)
    -> SampleModel {
    named(prefix, suffix, labels, SampleValue::Measure(r), MetricKind::Histogram)
}

/// A gauge set to a reading.
pub open spec fn gauged(prefix: Seq<char>, suffix: Seq<char>, labels: Labels, r: Reading)
    -> SampleModel {
    named(prefix, suffix, labels, SampleValue::Measure(r), MetricKind::Gauge)
}

/// One more calculation that could not be made, for the given reason.
pub open spec fn calculation_error(prefix: Seq<char>, labels: Labels, reason: Seq<char>)
    -> SampleModel {
    named(
        prefix,
        "hls_buffer_calculation_errors"@,
        with_label(labels, "error_type"@, reason),
        SampleValue::Count(1),
        MetricKind::Counter,
    )
}

/// The time that the phases of a connection took together, an absent
/// phase counting as zero.
pub open spec fn phase_total(m: ConnectionMetrics) -> Reading {
    sum_of(
        sum_of(
            sum_of(or_zero(m.dns_resolve_duration_ms), or_zero(m.tls_handshake_duration_ms)),
            m.tcp_connect_duration_ms,
        ),
        m.http_ttfb_duration_ms,
    )
}

/// The time that a connection took, zero where nothing is known of it.
pub open spec fn load_time(m: Option<ConnectionMetrics>) -> Reading {
    match m {
        Some(m) => phase_total(m),
        None => Reading::Value(0),
    }
}

/// The time of a download, zero where nothing is known of it.
pub open spec fn download_time(d: Option<DownloadMetrics>) -> Reading {
    match d {
        Some(d) => d.time_ms,
        None => Reading::Value(0),
    }
}

/// The time to load the playlists one after the other: the master
/// playlist, where there is one, then the playlist of the rendition.
pub open spec fn playlist_chain_load_time(master: Option<Master>, rendition: Rendition)
    -> Reading {
    sum_of(
        match master {
            Some(m) => load_time(m.metrics),
            None => Reading::Value(0),
        },
        load_time(rendition.metrics),
    )
}

/// The time until the first fragment is there: the playlists, then the
/// connection and the download of the fragment.
pub open spec fn initial_buffer_ms(chain: Reading, first: FragmentMetrics) -> Reading {
    sum_of(chain, sum_of(load_time(first.metrics), download_time(first.download_metrics)))
}

/// Whether a buffer can be estimated from a download ratio and the
/// duration of a fragment: the ratio is a number above one and the
/// duration a number above zero.
pub open spec fn estimable(ratio: Reading, duration: Reading) -> bool {
    ratio.above(1_000_000) && duration.above(0)
}

/// The estimated buffer in milliseconds, `(ratio - 1) * duration * 1000`
/// with the duration in seconds, rounded down to a millionth.
pub open spec fn estimated_buffer_ms(ratio: Reading, duration: Reading) -> Reading {
    match (ratio, duration) {
        (Reading::Value(r), Reading::Value(d)) => reading_of(((r - 1_000_000) * d) / 1000),
        _ => Reading::Invalid,
    }
}

/// Why no buffer is estimated: `invalid_ratio` where the download ratio is
/// no number above one; `invalid_duration` where the ratio is in order and
/// the duration of the fragment is no number above zero; and
/// `invalid_buffer_ms` where both are in order and the estimate is too
/// large to be held.
pub open spec fn estimate_error_reason(ratio: Reading, duration: Reading) -> Seq<char> {
    if !ratio.above(1_000_000) {
        "invalid_ratio"@
    } else if !duration.above(0) {
        "invalid_duration"@
    } else {
        "invalid_buffer_ms"@
    }
}

/// The reasons of a calculation error differ from one another: a bad
/// ratio, a bad duration, an estimate too large, a fill rate that cannot
/// be given, and a rendition without fragments are told apart.
pub proof fn lemma_reasons_differ()
    ensures
        "invalid_ratio"@ != "invalid_duration"@,
        "invalid_ratio"@ != "invalid_buffer_ms"@,
        "invalid_ratio"@ != "invalid_download_ratio"@,
        "invalid_ratio"@ != "no_fragments"@,
        "invalid_duration"@ != "invalid_buffer_ms"@,
        "invalid_duration"@ != "invalid_download_ratio"@,
        "invalid_duration"@ != "no_fragments"@,
        "invalid_buffer_ms"@ != "invalid_download_ratio"@,
        "invalid_buffer_ms"@ != "no_fragments"@,
        "invalid_download_ratio"@ != "no_fragments"@,
{
    reveal_strlit("invalid_ratio");
    reveal_strlit("invalid_duration");
    reveal_strlit("invalid_buffer_ms");
    reveal_strlit("invalid_download_ratio");
    reveal_strlit("no_fragments");
    assert("invalid_ratio"@.len() == 13);
    assert("invalid_duration"@.len() == 16);
    assert("invalid_buffer_ms"@.len() == 17);
    assert("invalid_download_ratio"@.len() == 22);
    assert("no_fragments"@.len() == 12);
}

/// What the estimate of the buffer gives: the gauge where the buffer can
/// be estimated and the estimate is a number that can be held, else one
/// more calculation error, with the reason why.
pub open spec fn estimate_samples(
    prefix: Seq<char>,
    labels: Labels,
    ratio: Reading,
    duration: Reading,
) -> Seq<SampleModel> {
    if estimable(ratio, duration) {
        if estimated_buffer_ms(ratio, duration).non_negative() {
            seq![
                gauged(
                    prefix,
                    "hls_estimated_buffer_ms"@,
                    labels,
                    estimated_buffer_ms(ratio, duration),
                ),
            ]
        } else {
            seq![calculation_error(prefix, labels, estimate_error_reason(ratio, duration))]
        }
    } else {
        seq![calculation_error(prefix, labels, estimate_error_reason(ratio, duration))]
    }
}

/// What the download ratio gives: the fill rate of the buffer where the
/// ratio is a number above zero, else one more calculation error.
pub open spec fn fill_rate_samples(prefix: Seq<char>, labels: Labels, ratio: Reading) -> Seq<
    SampleModel,
> {
    if ratio.above(0) {
        seq![gauged(prefix, "hls_buffer_fill_rate"@, labels, ratio)]
    } else {
        seq![calculation_error(prefix, labels, "invalid_download_ratio"@)]
    }
}

/// An observation of `r`, unless `r` is no number or below zero.
pub open spec fn observed_if_valid(
    prefix: Seq<char>,
    suffix: Seq<char>,
    labels: Labels,
    r: Reading,
) -> Seq<SampleModel> {
    if r.non_negative() {
        seq![observed(prefix, suffix, labels, r)]
    } else {
        Seq::empty()
    }
}

/// The samples on buffering of one rendition: the time to load the
/// playlists; then, from the first fragment, the time until it is there,
/// the fill rate and the estimated buffer. No derived value that is not a
/// number of at least zero becomes a sample. Without a fragment there is
/// one more calculation error.
pub open spec fn buffer_samples(
    prefix: Seq<char>,
    labels: Labels,
    master: Option<Master>,
    rendition: Rendition,
) -> Seq<SampleModel> {
    let chain = playlist_chain_load_time(master, rendition);
    let fragments = rendition.content_fragment_metrics@;
    observed_if_valid(prefix, "hls_playlist_chain_load_time"@, labels, chain) + (if fragments.len()
        > 0 {
        let first = fragments[0];
        observed_if_valid(
            prefix,
            "hls_initial_buffer_ms"@,
            labels,
            initial_buffer_ms(chain, first),
        ) + fill_rate_samples(prefix, labels, first.download_ratio) + estimate_samples(
            prefix,
            labels,
            first.download_ratio,
            first.content_fragment_duration_secs,
        )
    } else {
        seq![calculation_error(prefix, labels, "no_fragments"@)]
    })
}

/// Some sample of `samples` has the name `name`.
pub open spec fn emits(samples: Seq<SampleModel>, name: Seq<char>) -> bool {
    exists|i: int| 0 <= i < samples.len() && (#[trigger] samples[i]).name == name
}

/// Whether the estimate of the buffer can be held as a reading. It cannot
/// where the product of ratio and duration is too large.
pub open spec fn holdable(ratio: Reading, duration: Reading) -> bool {
    estimable(ratio, duration) ==> estimated_buffer_ms(ratio, duration) is Value
}

/// The estimate of the buffer gives exactly one sample. Where the
/// estimate can be held, that sample is the gauge, with the estimate as
/// its value, exactly if the download ratio is a number above one and the
/// duration of the fragment is above zero; in every other case it is one
/// more calculation error.
pub proof fn lemma_estimate_rule(
    prefix: Seq<char>,
    labels: Labels,
    ratio: Reading,
    duration: Reading,
)
    requires
        holdable(ratio, duration),
    ensures
        estimate_samples(prefix, labels, ratio, duration).len() == 1,
        estimable(ratio, duration) ==> estimate_samples(prefix, labels, ratio, duration)[0]
            == gauged(
            prefix,
            "hls_estimated_buffer_ms"@,
            labels,
            estimated_buffer_ms(ratio, duration),
        ) && estimated_buffer_ms(ratio, duration).non_negative(),
        !estimable(ratio, duration) ==> estimate_samples(prefix, labels, ratio, duration)[0]
            == calculation_error(prefix, labels, estimate_error_reason(ratio, duration)),
        !ratio.above(1_000_000) ==> estimate_error_reason(ratio, duration) == "invalid_ratio"@,
        ratio.above(1_000_000) && !duration.above(0) ==> estimate_error_reason(ratio, duration)
            == "invalid_duration"@,
        estimate_samples(prefix, labels, ratio, duration)[0].kind == MetricKind::Gauge
            <==> estimable(ratio, duration),
{
    if estimable(ratio, duration) {
        let r = ratio->Value_0;
        let d = duration->Value_0;
        assert(((r - 1_000_000) * d) / 1000 >= 0) by (nonlinear_arith)
            requires
                r > 1_000_000,
                d > 0,
        ;
    }
}

/// The names of the samples on buffering differ from one another.
proof fn lemma_buffer_names_differ(prefix: Seq<char>)
    ensures
        prefix + "hls_estimated_buffer_ms"@ != prefix + "hls_playlist_chain_load_time"@,
        prefix + "hls_estimated_buffer_ms"@ != prefix + "hls_initial_buffer_ms"@,
        prefix + "hls_estimated_buffer_ms"@ != prefix + "hls_buffer_fill_rate"@,
        prefix + "hls_estimated_buffer_ms"@ != prefix + "hls_buffer_calculation_errors"@,
{
    reveal_strlit("hls_estimated_buffer_ms");
    reveal_strlit("hls_playlist_chain_load_time");
    reveal_strlit("hls_initial_buffer_ms");
    reveal_strlit("hls_buffer_fill_rate");
    reveal_strlit("hls_buffer_calculation_errors");
    assert((prefix + "hls_estimated_buffer_ms"@).len() == prefix.len() + 23);
    assert((prefix + "hls_playlist_chain_load_time"@).len() == prefix.len() + 28);
    assert((prefix + "hls_initial_buffer_ms"@).len() == prefix.len() + 21);
    assert((prefix + "hls_buffer_fill_rate"@).len() == prefix.len() + 20);
    assert((prefix + "hls_buffer_calculation_errors"@).len() == prefix.len() + 29);
}

/// Among the samples on buffering of a rendition with a fragment, the
/// gauge of the estimated buffer occurs exactly if the download ratio of
/// the first fragment is a number above one and the duration of that
/// fragment is above zero. Where it does not occur, a calculation error is
/// counted. This holds wherever the estimate can be held.
pub proof fn lemma_estimate_emitted_iff(
    prefix: Seq<char>,
    labels: Labels,
    master: Option<Master>,
    rendition: Rendition,
)
    requires
        rendition.content_fragment_metrics@.len() > 0,
        holdable(
            rendition.content_fragment_metrics@[0].download_ratio,
            rendition.content_fragment_metrics@[0].content_fragment_duration_secs,
        ),
    ensures
        emits(
            buffer_samples(prefix, labels, master, rendition),
            prefix + "hls_estimated_buffer_ms"@,
        ) <==> estimable(
            rendition.content_fragment_metrics@[0].download_ratio,
            rendition.content_fragment_metrics@[0].content_fragment_duration_secs,
        ),
        !estimable(
            rendition.content_fragment_metrics@[0].download_ratio,
            rendition.content_fragment_metrics@[0].content_fragment_duration_secs,
        ) ==> emits(
            buffer_samples(prefix, labels, master, rendition),
            prefix + "hls_buffer_calculation_errors"@,
        ),
{
    let first = rendition.content_fragment_metrics@[0];
    let ratio = first.download_ratio;
    let duration = first.content_fragment_duration_secs;
    let chain = playlist_chain_load_time(master, rendition);
    let a = observed_if_valid(prefix, "hls_playlist_chain_load_time"@, labels, chain);
    let b = observed_if_valid(
        prefix,
        "hls_initial_buffer_ms"@,
        labels,
        initial_buffer_ms(chain, first),
    );
    let c = fill_rate_samples(prefix, labels, ratio);
    let d = estimate_samples(prefix, labels, ratio, duration);
    let all = buffer_samples(prefix, labels, master, rendition);
    let name = prefix + "hls_estimated_buffer_ms"@;
    assert(all =~= a + (b + c + d));
    lemma_estimate_rule(prefix, labels, ratio, duration);
    lemma_buffer_names_differ(prefix);
    let last = all.len() - 1;
    assert(all[last] == d[0]);
    if estimable(ratio, duration) {
        assert(all[last].name == name);
    } else {
        assert(all[last].name == prefix + "hls_buffer_calculation_errors"@);
        assert forall|i: int| 0 <= i < all.len() implies (#[trigger] all[i]).name != name by {
            if i < a.len() {
                assert(all[i] == a[i]);
            } else if i < a.len() + b.len() {
                assert(all[i] == b[i - a.len()]);
            } else if i < a.len() + b.len() + c.len() {
                assert(all[i] == c[i - a.len() - b.len()]);
            } else {
                assert(all[i] == d[i - a.len() - b.len() - c.len()]);
            }
        }
    }
}

/// The samples of the connection to the master playlist.
pub open spec fn master_connection_samples(
    prefix: Seq<char>,
    labels: Labels,
    m: Option<ConnectionMetrics>,
) -> Seq<SampleModel> {
    match m {
        Some(m) => seq![
            observed(prefix, "hls_master_tcp_connect_ms"@, labels, m.tcp_connect_duration_ms),
            observed(prefix, "hls_master_ttfb_ms"@, labels, m.http_ttfb_duration_ms),
            observed(
                prefix,
                "hls_master_dns_resolve_ms"@,
                labels,
                or_zero(m.dns_resolve_duration_ms),
            ),
            observed(
                prefix,
                "hls_master_tls_handshake_ms"@,
                labels,
                or_zero(m.tls_handshake_duration_ms),
            ),
        ],
        None => Seq::empty(),
    }
}

/// The samples of the download of the master playlist: its size, its time
/// and its rate in bits per second. The rate in bits is a derived value:
/// where it is no number or below zero it is withheld.
pub open spec fn master_download_samples(
    prefix: Seq<char>,
    labels: Labels,
    d: Option<DownloadMetrics>,
) -> Seq<SampleModel> {
    match d {
        Some(d) => seq![
            gauged(prefix, "hls_master_size_bytes"@, labels, d.size),
            observed(prefix, "hls_master_download_ms"@, labels, d.time_ms),
        ] + derived_gauge(
            prefix,
            "hls_master_bitrate"@,
            labels,
            scaled_by(d.bytes_per_second, 8),
        ),
        None => Seq::empty(),
    }
}

/// The samples of the master playlist: its connection, its download, and
/// the number of its renditions.
pub open spec fn master_samples(prefix: Seq<char>, labels: Labels, master: Master) -> Seq<
    SampleModel,
> {
    master_connection_samples(prefix, labels, master.metrics) + master_download_samples(
        prefix,
        labels,
        master.download_metrics,
    ) + seq![
        named(
            prefix,
            "hls_renditions_count"@,
            labels,
            SampleValue::Count(master.renditions@.len() as u64),
            MetricKind::Gauge,
        ),
    ]
}

/// The samples of the download of a fragment.
pub open spec fn fragment_download_samples(
    prefix: Seq<char>,
    labels: Labels,
    d: Option<DownloadMetrics>,
) -> Seq<SampleModel> {
    match d {
        Some(d) => seq![
            observed(prefix, "hls_fragment_download_ms"@, labels, d.time_ms),
            gauged(prefix, "hls_fragment_size_bytes"@, labels, d.size),
            gauged(
                prefix,
                "hls_fragment_bandwidth_bytes_per_second"@,
                labels,
                d.bytes_per_second,
            ),
        ],
        None => Seq::empty(),
    }
}

/// The samples of the connection to a fragment.
pub open spec fn fragment_connection_samples(
    prefix: Seq<char>,
    labels: Labels,
    m: Option<ConnectionMetrics>,
) -> Seq<SampleModel> {
    match m {
        Some(m) => seq![
            observed(prefix, "hls_fragment_tcp_connect_ms"@, labels, m.tcp_connect_duration_ms),
            observed(prefix, "hls_fragment_ttfb_ms"@, labels, m.http_ttfb_duration_ms),
            observed(
                prefix,
                "hls_fragment_dns_resolve_ms"@,
                labels,
                or_zero(m.dns_resolve_duration_ms),
            ),
            observed(
                prefix,
                "hls_fragment_tls_handshake_ms"@,
                labels,
                or_zero(m.tls_handshake_duration_ms),
            ),
        ],
        None => Seq::empty(),
    }
}

/// The samples of one fragment: its download ratio, its download and its
/// connection where they are known, and how long it plays.
pub open spec fn fragment_samples(prefix: Seq<char>, labels: Labels, f: FragmentMetrics) -> Seq<
    SampleModel,
> {
    seq![gauged(prefix, "hls_fragment_download_ratio"@, labels, f.download_ratio)]
        + fragment_download_samples(prefix, labels, f.download_metrics)
        + fragment_connection_samples(prefix, labels, f.metrics) + seq![
        gauged(prefix, "hls_fragment_duration_seconds"@, labels, f.content_fragment_duration_secs),
    ]
}

/// The samples of a list of fragments, in order.
pub open spec fn fragments_samples(
    prefix: Seq<char>,
    labels: Labels,
    fragments: Seq<FragmentMetrics>,
) -> Seq<SampleModel>
    decreases fragments.len(),
{
    if fragments.len() == 0 {
        Seq::empty()
    } else {
        fragments_samples(prefix, labels, fragments.drop_last()) + fragment_samples(
            prefix,
            labels,
            fragments.last(),
        )
    }
}

/// The labels of the samples of a rendition: its resolution, its place on
/// the ladder, its target duration, its discontinuity sequence, and
/// whether it was reached through a master playlist (`variant`) or
/// directly (`direct`).
pub open spec fn rendition_labels(labels: Labels, through_master: bool, rendition: Rendition)
    -> Labels {
    let l1 = with_label(labels, "resolution"@, rendition.resolution@);
    let l2 = with_label(l1, "bandwidth"@, decimal(rendition.bandwidth as nat));
    let l3 = with_label(l2, "target_duration_secs"@, decimal(rendition.target_duration_secs as nat));
    let l4 = with_label(
        l3,
        "discontinuity_sequence"@,
        decimal(rendition.discontinuity_sequence as nat),
    );
    with_label(
        l4,
        "playlist_type"@,
        if through_master {
            "variant"@
        } else {
            "direct"@
        },
    )
}

/// The samples of one rendition: those of its fragments, then those on
/// buffering.
pub open spec fn rendition_samples(
    prefix: Seq<char>,
    labels: Labels,
    master: Option<Master>,
    rendition: Rendition,
) -> Seq<SampleModel> {
    let own = rendition_labels(labels, master is Some, rendition);
    fragments_samples(prefix, own, rendition.content_fragment_metrics@) + buffer_samples(
        prefix,
        own,
        master,
        rendition,
    )
}

/// The samples of the first `n` renditions of a master playlist.
pub open spec fn ladder_samples(prefix: Seq<char>, labels: Labels, master: Master, n: int) -> Seq<
    SampleModel,
>
    decreases n,
{
    if n <= 0 {
        Seq::empty()
    } else {
        ladder_samples(prefix, labels, master, n - 1) + rendition_samples(
            prefix,
            labels,
            Some(master),
            master.renditions@[n - 1],
        )
    }
}

/// The samples of a payload: the duration of the whole test; the master
/// playlist and each of its renditions, where there is a master playlist;
/// the rendition that was reached directly, where there is one.
pub open spec fn hls_success(
    prefix: Seq<char>,
    labels: Labels,
    duration: Option<Reading>,
    result: HlsResult,
) -> Seq<SampleModel> {
    seq![observed(prefix, "hls_total_ms"@, labels, or_zero(duration))] + (match result.master {
        Some(master) => master_samples(prefix, labels, master) + ladder_samples(
            prefix,
            labels,
            master,
            master.renditions@.len() as int,
        ),
        None => Seq::empty(),
    }) + (match result.rendition {
        Some(rendition) => rendition_samples(prefix, labels, None, rendition),
        None => Seq::empty(),
    })
}

/// The samples that a response to an HLS probe stands for. The response
/// has to name its vantage point and to hold a first result; that result
/// is an error text, which gives the failure samples, or a payload.
pub open spec fn hls_derived(config: HlsConfig, response: HlsResponse) -> Result<
    Seq<SampleModel>,
    ErrorModel,
> {
    let endpoint = endpoint_label(config.common_config);
    let prefix = config.common_config.prefix@;
    match response.node_info {
        None => Err(ErrorModel::MissingNodeInfo(endpoint)),
        Some(node) => if response.results@.len() == 0 {
            Err(ErrorModel::MissingData(endpoint, "no_results"@))
        } else {
            let first = response.results@[0];
            let labels = located_labels(node, endpoint);
            match first.error {
                Some(e) => Ok(hls_failure(prefix, labels, e@)),
                None => match first.result {
                    Some(result) => Ok(hls_success(prefix, labels, first.duration, result)),
                    None => Err(ErrorModel::MissingData(endpoint, "hls_result"@)),
                },
            }
        },
    }
}

/// The samples of a list of fragments hold the shared keys where the
/// labels of the rendition do.
proof fn lemma_fragments_carry(prefix: Seq<char>, labels: Labels, fragments: Seq<FragmentMetrics>)
    requires
        carries_base(labels),
    ensures
        all_carry_base(fragments_samples(prefix, labels, fragments)),
    decreases fragments.len(),
{
    if fragments.len() > 0 {
        lemma_fragments_carry(prefix, labels, fragments.drop_last());
        let f = fragments.last();
        let head = seq![gauged(prefix, "hls_fragment_download_ratio"@, labels, f.download_ratio)];
        let down = fragment_download_samples(prefix, labels, f.download_metrics);
        let conn = fragment_connection_samples(prefix, labels, f.metrics);
        let tail = seq![
            gauged(
                prefix,
                "hls_fragment_duration_seconds"@,
                labels,
                f.content_fragment_duration_secs,
            ),
        ];
        lemma_joined_carry(head, down);
        lemma_joined_carry(head + down, conn);
        lemma_joined_carry(head + down + conn, tail);
        lemma_joined_carry(
            fragments_samples(prefix, labels, fragments.drop_last()),
            fragment_samples(prefix, labels, f),
        );
    }
}

/// The samples on buffering hold the shared keys where the labels of the
/// rendition do.
proof fn lemma_buffer_carries(
    prefix: Seq<char>,
    labels: Labels,
    master: Option<Master>,
    rendition: Rendition,
)
    requires
        carries_base(labels),
    ensures
        all_carry_base(buffer_samples(prefix, labels, master, rendition)),
{
    let chain = playlist_chain_load_time(master, rendition);
    let fragments = rendition.content_fragment_metrics@;
    let a = observed_if_valid(prefix, "hls_playlist_chain_load_time"@, labels, chain);
    lemma_with_label_carries(labels, "error_type"@, "no_fragments"@);
    lemma_with_label_carries(labels, "error_type"@, "invalid_download_ratio"@);
    lemma_with_label_carries(labels, "error_type"@, "invalid_buffer_ms"@);
    lemma_with_label_carries(labels, "error_type"@, "invalid_ratio"@);
    lemma_with_label_carries(labels, "error_type"@, "invalid_duration"@);
    if fragments.len() > 0 {
        let first = fragments[0];
        let b = observed_if_valid(
            prefix,
            "hls_initial_buffer_ms"@,
            labels,
            initial_buffer_ms(chain, first),
        );
        let c = fill_rate_samples(prefix, labels, first.download_ratio);
        let d = estimate_samples(
            prefix,
            labels,
            first.download_ratio,
            first.content_fragment_duration_secs,
        );
        lemma_joined_carry(b, c);
        lemma_joined_carry(b + c, d);
        lemma_joined_carry(a, b + c + d);
    } else {
        lemma_joined_carry(a, seq![calculation_error(prefix, labels, "no_fragments"@)]);
    }
}

/// The samples of a rendition hold the shared keys where the labels of
/// the vantage point do.
proof fn lemma_rendition_carries(
    prefix: Seq<char>,
    labels: Labels,
    master: Option<Master>,
    rendition: Rendition,
)
    requires
        carries_base(labels),
    ensures
        all_carry_base(rendition_samples(prefix, labels, master, rendition)),
{
    let l1 = with_label(labels, "resolution"@, rendition.resolution@);
    let l2 = with_label(l1, "bandwidth"@, decimal(rendition.bandwidth as nat));
    let l3 = with_label(l2, "target_duration_secs"@, decimal(rendition.target_duration_secs as nat));
    let l4 = with_label(
        l3,
        "discontinuity_sequence"@,
        decimal(rendition.discontinuity_sequence as nat),
    );
    lemma_with_label_carries(labels, "resolution"@, rendition.resolution@);
    lemma_with_label_carries(l1, "bandwidth"@, decimal(rendition.bandwidth as nat));
    lemma_with_label_carries(
        l2,
        "target_duration_secs"@,
        decimal(rendition.target_duration_secs as nat),
    );
    lemma_with_label_carries(
        l3,
        "discontinuity_sequence"@,
        decimal(rendition.discontinuity_sequence as nat),
    );
    lemma_with_label_carries(l4, "playlist_type"@, "variant"@);
    lemma_with_label_carries(l4, "playlist_type"@, "direct"@);
    let own = rendition_labels(labels, master is Some, rendition);
    lemma_fragments_carry(prefix, own, rendition.content_fragment_metrics@);
    lemma_buffer_carries(prefix, own, master, rendition);
    lemma_joined_carry(
        fragments_samples(prefix, own, rendition.content_fragment_metrics@),
        buffer_samples(prefix, own, master, rendition),
    );
}

/// The samples of the renditions of a master playlist hold the shared
/// keys where the labels of the vantage point do.
proof fn lemma_ladder_carries(prefix: Seq<char>, labels: Labels, master: Master, n: int)
    requires
        carries_base(labels),
        n <= master.renditions@.len(),
    ensures
        all_carry_base(ladder_samples(prefix, labels, master, n)),
    decreases n,
{
    if n > 0 {
        lemma_ladder_carries(prefix, labels, master, n - 1);
        lemma_rendition_carries(prefix, labels, Some(master), master.renditions@[n - 1]);
        lemma_joined_carry(
            ladder_samples(prefix, labels, master, n - 1),
            rendition_samples(prefix, labels, Some(master), master.renditions@[n - 1]),
        );
    }
}

/// The samples of a payload hold the shared keys where the labels of the
/// vantage point do.
proof fn lemma_success_carries(
    prefix: Seq<char>,
    labels: Labels,
    duration: Option<Reading>,
    result: HlsResult,
)
    requires
        carries_base(labels),
    ensures
        all_carry_base(hls_success(prefix, labels, duration, result)),
{
    let timed = seq![observed(prefix, "hls_total_ms"@, labels, or_zero(duration))];
    let mastered = match result.master {
        Some(master) => master_samples(prefix, labels, master) + ladder_samples(
            prefix,
            labels,
            master,
            master.renditions@.len() as int,
        ),
        None => Seq::empty(),
    };
    let direct = match result.rendition {
        Some(rendition) => rendition_samples(prefix, labels, None, rendition),
        None => Seq::empty(),
    };
    match result.master {
        Some(master) => {
            let conn = master_connection_samples(prefix, labels, master.metrics);
            let down = master_download_samples(prefix, labels, master.download_metrics);
            let count = seq![
                named(
                    prefix,
                    "hls_renditions_count"@,
                    labels,
                    SampleValue::Count(master.renditions@.len() as u64),
                    MetricKind::Gauge,
                ),
            ];
            assert(all_carry_base(down)) by {
                assert forall|i: int| 0 <= i < down.len() implies (#[trigger] down[i]).labels
                    == labels by {}
            }
            lemma_joined_carry(conn, down);
            lemma_joined_carry(conn + down, count);
            lemma_ladder_carries(prefix, labels, master, master.renditions@.len() as int);
            lemma_joined_carry(
                master_samples(prefix, labels, master),
                ladder_samples(prefix, labels, master, master.renditions@.len() as int),
            );
        },
        None => {},
    }
    match result.rendition {
        Some(rendition) => {
            lemma_rendition_carries(prefix, labels, None, rendition);
        },
        None => {},
    }
    lemma_joined_carry(timed, mastered);
    lemma_joined_carry(timed + mastered, direct);
}

/// The time that the phases of a connection took together.
pub fn total_phases(m: &ConnectionMetrics) -> (r: Reading)
    ensures
        r == phase_total(*m),
{
    reading_or_zero(m.dns_resolve_duration_ms).plus(
        reading_or_zero(m.tls_handshake_duration_ms),
    ).plus(m.tcp_connect_duration_ms).plus(m.http_ttfb_duration_ms)
}

/// The time that a connection took, zero where nothing is known of it.
pub fn connection_time(m: &Option<ConnectionMetrics>) -> (r: Reading)
    ensures
        r == load_time(*m),
{
    match m {
        Some(m) => total_phases(m),
        None => Reading::Value(0),
    }
}

/// The estimated buffer in milliseconds for a download ratio above one
/// and a fragment duration above zero.
pub fn estimate_buffer(ratio: Reading, duration: Reading) -> (r: Reading)
    requires
        estimable(ratio, duration),
    ensures
        r == estimated_buffer_ms(ratio, duration),
{
    match (ratio, duration) {
        (Reading::Value(x), Reading::Value(d)) => {
            let gain: u128 = (x - 1_000_000) as u128;
            let span: u128 = d as u128;
            assert(gain * span <= 0x8000_0000_0000_0000 * 0x8000_0000_0000_0000)
                by (nonlinear_arith)
                requires
                    gain <= 0x8000_0000_0000_0000,
                    span <= 0x8000_0000_0000_0000,
            ;
            let q: u128 = (gain * span) / 1000;
            if q <= i64::MAX as u128 {
                Reading::Value(q as i64)
            } else {
                Reading::Invalid
            }
        },
        _ => Reading::Invalid,
    }
}

/// Adds to `out` an observation of `r`.
fn observe(out: &mut Vec<MetricSample>, prefix: &str, suffix: &str, labels: &LabelSet, r: Reading)
    ensures
        samples_view(final(out)@) == samples_view(old(out)@).push(
            observed(prefix@, suffix@, labels@, r),
        ),
{
    emit(out, prefix, suffix, labels, SampleValue::Measure(r), MetricKind::Histogram);
}

/// Sets in `out` a gauge to `r`.
fn gauge(out: &mut Vec<MetricSample>, prefix: &str, suffix: &str, labels: &LabelSet, r: Reading)
    ensures
        samples_view(final(out)@) == samples_view(old(out)@).push(
            gauged(prefix@, suffix@, labels@, r),
        ),
{
    emit(out, prefix, suffix, labels, SampleValue::Measure(r), MetricKind::Gauge);
}

/// Counts in `out` one more calculation error.
fn count_calculation_error(
    out: &mut Vec<MetricSample>,
    prefix: &str,
    labels: &LabelSet,
    reason: &str,
)
    ensures
        samples_view(final(out)@) == samples_view(old(out)@).push(
            calculation_error(prefix@, labels@, reason@),
        ),
{
    let mut typed = labels.duplicate();
    typed.insert("error_type", String::from_str(reason));
    emit(
        out,
        prefix,
        "hls_buffer_calculation_errors",
        &typed,
        SampleValue::Count(1),
        MetricKind::Counter,
    );
}

/// Adds to `out` an observation of `r`, unless `r` is no number or below
/// zero.
fn observe_if_valid(
    out: &mut Vec<MetricSample>,
    prefix: &str,
    suffix: &str,
    labels: &LabelSet,
    r: Reading,
)
    ensures
        samples_view(final(out)@) == samples_view(old(out)@) + observed_if_valid(
            prefix@,
            suffix@,
            labels@,
            r,
        ),
{
    if r.is_non_negative() {
        observe(out, prefix, suffix, labels, r);
        assert(samples_view(out@) =~= samples_view(old(out)@) + observed_if_valid(
            prefix@,
            suffix@,
            labels@,
            r,
        ));
    } else {
        assert(samples_view(out@) =~= samples_view(old(out)@) + observed_if_valid(
            prefix@,
            suffix@,
            labels@,
            r,
        ));
    }
}

/// The metrics of an HLS probe.
pub open spec fn hls_descriptors(prefix: Seq<char>) -> Seq<DescriptorModel> {
    seq![
        described(
            prefix,
            "hls_total_ms"@,
            "Total time taken to perform HLS test"@,
            MetricKind::Histogram,
        ),
        described(
            prefix,
            "hls_master_download_ms"@,
            "Time taken to download master playlist"@,
            MetricKind::Histogram,
        ),
        described(
            prefix,
            "hls_master_size_bytes"@,
            "Size of master playlist in bytes"@,
            MetricKind::Gauge,
        ),
        described(
            prefix,
            "hls_renditions_count"@,
            "Number of available renditions"@,
            MetricKind::Gauge,
        ),
        described(
            prefix,
            "hls_master_bitrate"@,
            "Master playlist download bits per second"@,
            MetricKind::Gauge,
        ),
        described(
            prefix,
            "hls_master_tcp_connect_ms"@,
            "Master Manifest TCP connection establishment time"@,
            MetricKind::Histogram,
        ),
        described(
            prefix,
            "hls_master_ttfb_ms"@,
            "Master Manifest Time to first byte"@,
            MetricKind::Histogram,
        ),
        described(
            prefix,
            "hls_master_dns_resolve_ms"@,
            "Master Manifest DNS resolution time"@,
            MetricKind::Histogram,
        ),
        described(
            prefix,
            "hls_master_tls_handshake_ms"@,
            "Master Manifest TLS handshake duration"@,
            MetricKind::Histogram,
        ),
        described(
            prefix,
            "hls_fragment_download_ratio"@,
            "Fragment duration relative to its download time"@,
            MetricKind::Gauge,
        ),
        described(
            prefix,
            "hls_fragment_download_ms"@,
            "Fragment download time"@,
            MetricKind::Histogram,
        ),
        described(
            prefix,
            "hls_fragment_size_bytes"@,
            "Fragment size"@,
            MetricKind::Gauge,
        ),
        described(
            prefix,
            "hls_fragment_bandwidth_bytes_per_second"@,
            "Fragment bandwidth"@,
            MetricKind::Gauge,
        ),
        described(
            prefix,
            "hls_fragment_tcp_connect_ms"@,
            "Fragment TCP connection establishment time"@,
            MetricKind::Histogram,
        ),
        described(
            prefix,
            "hls_fragment_ttfb_ms"@,
            "Fragment Time to first byte"@,
            MetricKind::Histogram,
        ),
        described(
            prefix,
            "hls_fragment_dns_resolve_ms"@,
            "Fragment DNS resolution time"@,
            MetricKind::Histogram,
        ),
        described(
            prefix,
            "hls_fragment_tls_handshake_ms"@,
            "Fragment TLS handshake duration"@,
            MetricKind::Histogram,
        ),
        described(
            prefix,
            "hls_fragment_duration_seconds"@,
            "Fragment duration in seconds"@,
            MetricKind::Gauge,
        ),
        described(
            prefix,
            "hls_buffer_fill_rate"@,
            "Rate at which buffer is filling relative to playback speed (>1 means faster than realtime)"@,
            MetricKind::Gauge,
        ),
        described(
            prefix,
            "hls_estimated_buffer_ms"@,
            "Estimated buffer length in milliseconds based on download speeds"@,
            MetricKind::Gauge,
        ),
        described(
            prefix,
            "hls_initial_buffer_ms"@,
            "Time taken to load initial buffer including master playlist, variant playlist, and first segment"@,
            MetricKind::Histogram,
        ),
        described(
            prefix,
            "hls_playlist_chain_load_time"@,
            "Time taken to load master and variant playlists"@,
            MetricKind::Histogram,
        ),
        described(
            prefix,
            "hls_buffer_calculation_errors"@,
            "Buffer calculations that could not be made, by reason"@,
            MetricKind::Counter,
        ),
        described(
            prefix,
            "hls_failures_total"@,
            "Total number of failures"@,
            MetricKind::Counter,
        ),
        described(
            prefix,
            "hls_errors_by_type"@,
            "Errors categorized by type"@,
            MetricKind::Counter,
        ),
    ]
}

/// The collector of one HLS probe.
pub struct HlsCollector {
    config: &'static HlsConfig,
}

impl HlsCollector {
    /// The samples for an error text that the service reported.
    pub fn record_failure_with_labels(&self, error: &str, labels: &LabelSet) -> (out: Vec<
        MetricSample,
    >)
        ensures
            samples_view(out@) == hls_failure(self.config().common_config.prefix@, labels@, error@),
    {
        let prefix = self.config.common_config.prefix.as_str();
        let mut typed = labels.duplicate();
        typed.insert("error_type", String::from_str(classify_hls_error(error)));
        let mut out: Vec<MetricSample> = Vec::new();
        assert(samples_view(out@) =~= Seq::<SampleModel>::empty());
        emit(
            &mut out,
            prefix,
            "hls_failures_total",
            &typed,
            SampleValue::Count(1),
            MetricKind::Counter,
        );
        emit(
            &mut out,
            prefix,
            "hls_errors_by_type",
            &typed,
            SampleValue::Count(1),
            MetricKind::Counter,
        );
        assert(samples_view(out@) =~= hls_failure(prefix@, labels@, error@));
        out
    }

    /// Adds to `out` the samples of the master playlist.
    pub fn record_master_metrics(
        &self,
        out: &mut Vec<MetricSample>,
        labels: &LabelSet,
        master: &Master,
    )
        ensures
            samples_view(final(out)@) == samples_view(old(out)@) + master_samples(
                self.config().common_config.prefix@,
                labels@,
                *master,
            ),
    {
        let prefix = self.config.common_config.prefix.as_str();
        let ghost start = samples_view(out@);
        match &master.metrics {
            Some(m) => {
                observe(out, prefix, "hls_master_tcp_connect_ms", labels, m.tcp_connect_duration_ms);
                observe(out, prefix, "hls_master_ttfb_ms", labels, m.http_ttfb_duration_ms);
                observe(
                    out,
                    prefix,
                    "hls_master_dns_resolve_ms",
                    labels,
                    reading_or_zero(m.dns_resolve_duration_ms),
                );
                observe(
                    out,
                    prefix,
                    "hls_master_tls_handshake_ms",
                    labels,
                    reading_or_zero(m.tls_handshake_duration_ms),
                );
            },
            None => {},
        }
        let ghost connected = samples_view(out@);
        assert(connected =~= start + master_connection_samples(prefix@, labels@, master.metrics));
        match &master.download_metrics {
            Some(d) => {
                gauge(out, prefix, "hls_master_size_bytes", labels, d.size);
                observe(out, prefix, "hls_master_download_ms", labels, d.time_ms);
                emit_derived_gauge(
                    out,
                    prefix,
                    "hls_master_bitrate",
                    labels,
                    d.bytes_per_second.times(8),
                );
            },
            None => {},
        }
        let ghost downloaded = samples_view(out@);
        assert(downloaded =~= connected + master_download_samples(
            prefix@,
            labels@,
            master.download_metrics,
        ));
        emit(
            out,
            prefix,
            "hls_renditions_count",
            labels,
            SampleValue::Count(master.renditions.len() as u64),
            MetricKind::Gauge,
        );
        assert(samples_view(out@) =~= start + master_samples(prefix@, labels@, *master));
    }

    /// Adds to `out` the samples of one fragment.
    fn record_fragment_metrics(
        &self,
        out: &mut Vec<MetricSample>,
        labels: &LabelSet,
        fragment: &FragmentMetrics,
    )
        ensures
            samples_view(final(out)@) == samples_view(old(out)@) + fragment_samples(
                self.config().common_config.prefix@,
                labels@,
                *fragment,
            ),
    {
        let prefix = self.config.common_config.prefix.as_str();
        let ghost start = samples_view(out@);
        gauge(out, prefix, "hls_fragment_download_ratio", labels, fragment.download_ratio);
        let ghost rated = samples_view(out@);
        match &fragment.download_metrics {
            Some(d) => {
                observe(out, prefix, "hls_fragment_download_ms", labels, d.time_ms);
                gauge(out, prefix, "hls_fragment_size_bytes", labels, d.size);
                gauge(
                    out,
                    prefix,
                    "hls_fragment_bandwidth_bytes_per_second",
                    labels,
                    d.bytes_per_second,
                );
            },
            None => {},
        }
        let ghost downloaded = samples_view(out@);
        assert(downloaded =~= rated + fragment_download_samples(
            prefix@,
            labels@,
            fragment.download_metrics,
        ));
        match &fragment.metrics {
            Some(m) => {
                observe(
                    out,
                    prefix,
                    "hls_fragment_tcp_connect_ms",
                    labels,
                    m.tcp_connect_duration_ms,
                );
                observe(out, prefix, "hls_fragment_ttfb_ms", labels, m.http_ttfb_duration_ms);
                observe(
                    out,
                    prefix,
                    "hls_fragment_dns_resolve_ms",
                    labels,
                    reading_or_zero(m.dns_resolve_duration_ms),
                );
                observe(
                    out,
                    prefix,
                    "hls_fragment_tls_handshake_ms",
                    labels,
                    reading_or_zero(m.tls_handshake_duration_ms),
                );
            },
            None => {},
        }
        let ghost connected = samples_view(out@);
        assert(connected =~= downloaded + fragment_connection_samples(
            prefix@,
            labels@,
            fragment.metrics,
        ));
        gauge(
            out,
            prefix,
            "hls_fragment_duration_seconds",
            labels,
            fragment.content_fragment_duration_secs,
        );
        assert(samples_view(out@) =~= start + fragment_samples(prefix@, labels@, *fragment));
    }

    /// Adds to `out` the samples of one rendition, reached through `master`
    /// or directly.
    pub fn record_rendition_metrics(
        &self,
        out: &mut Vec<MetricSample>,
        labels: &LabelSet,
        master: Option<&Master>,
        rendition: &Rendition,
    )
        ensures
            samples_view(final(out)@) == samples_view(old(out)@) + rendition_samples(
                self.config().common_config.prefix@,
                labels@,
                match master {
                    Some(m) => Some(*m),
                    None => None,
                },
                *rendition,
            ),
    {
        let prefix = self.config.common_config.prefix.as_str();
        let ghost start = samples_view(out@);
        let ghost through = match master {
            Some(m) => Some(*m),
            None => None,
        };
        let mut own = labels.duplicate();
        own.insert("resolution", rendition.resolution.clone());
        own.insert("bandwidth", render_decimal(rendition.bandwidth));
        own.insert("target_duration_secs", render_decimal(rendition.target_duration_secs));
        own.insert("discontinuity_sequence", render_decimal(rendition.discontinuity_sequence));
        own.insert(
            "playlist_type",
            String::from_str(
                if master.is_some() {
                    "variant"
                } else {
                    "direct"
                },
            ),
        );
        assert(own@ == rendition_labels(labels@, through is Some, *rendition));
        let fragments = &rendition.content_fragment_metrics;
        let mut i: usize = 0;
        assert(fragments@.take(0) =~= Seq::<FragmentMetrics>::empty());
        assert(samples_view(out@) =~= start + fragments_samples(
            prefix@,
            own@,
            fragments@.take(0),
        ));
        while i < fragments.len()
            invariant
                i <= fragments@.len(),
                prefix@ == self.config().common_config.prefix@,
                samples_view(out@) == start + fragments_samples(
                    prefix@,
                    own@,
                    fragments@.take(i as int),
                ),
            decreases fragments.len() - i,
        {
            assert(fragments@.take(i + 1).drop_last() =~= fragments@.take(i as int));
            assert(fragments@.take(i + 1).last() == fragments@[i as int]);
            self.record_fragment_metrics(out, &own, &fragments[i]);
            assert(samples_view(out@) =~= start + fragments_samples(
                prefix@,
                own@,
                fragments@.take(i + 1),
            ));
            i += 1;
        }
        assert(fragments@.take(i as int) =~= fragments@);
        self.calculate_buffer_metrics(out, &own, master, rendition);
        assert(samples_view(out@) =~= start + rendition_samples(
            prefix@,
            labels@,
            through,
            *rendition,
        ));
    }

    /// Adds to `out` the samples on buffering of one rendition.
    pub fn calculate_buffer_metrics(
        &self,
        out: &mut Vec<MetricSample>,
        labels: &LabelSet,
        master: Option<&Master>,
        rendition: &Rendition,
    )
        ensures
            samples_view(final(out)@) == samples_view(old(out)@) + buffer_samples(
                self.config().common_config.prefix@,
                labels@,
                match master {
                    Some(m) => Some(*m),
                    None => None,
                },
                *rendition,
            ),
    {
        let prefix = self.config.common_config.prefix.as_str();
        let ghost start = samples_view(out@);
        let ghost through = match master {
            Some(m) => Some(*m),
            None => None,
        };
        let master_load_time = match master {
            Some(m) => connection_time(&m.metrics),
            None => Reading::Value(0),
        };
        let variant_load_time = connection_time(&rendition.metrics);
        let chain = master_load_time.plus(variant_load_time);
        assert(chain == playlist_chain_load_time(through, *rendition));
        observe_if_valid(out, prefix, "hls_playlist_chain_load_time", labels, chain);
        if rendition.content_fragment_metrics.len() > 0 {
            let first = &rendition.content_fragment_metrics[0];
            let download = match &first.download_metrics {
                Some(d) => d.time_ms,
                None => Reading::Value(0),
            };
            let first_segment_load_time = connection_time(&first.metrics).plus(download);
            let initial = chain.plus(first_segment_load_time);
            observe_if_valid(out, prefix, "hls_initial_buffer_ms", labels, initial);
            let ghost begun = samples_view(out@);
            let ratio = first.download_ratio;
            let duration = first.content_fragment_duration_secs;
            if ratio.is_above_zero() {
                gauge(out, prefix, "hls_buffer_fill_rate", labels, ratio);
            } else {
                count_calculation_error(out, prefix, labels, "invalid_download_ratio");
            }
            let ghost filled = samples_view(out@);
            assert(filled =~= begun + fill_rate_samples(prefix@, labels@, ratio));
            if ratio.is_above_one() && duration.is_above_zero() {
                let estimate = estimate_buffer(ratio, duration);
                if estimate.is_non_negative() {
                    gauge(out, prefix, "hls_estimated_buffer_ms", labels, estimate);
                } else {
                    count_calculation_error(out, prefix, labels, "invalid_buffer_ms");
                }
            } else if !ratio.is_above_one() {
                count_calculation_error(out, prefix, labels, "invalid_ratio");
            } else {
                count_calculation_error(out, prefix, labels, "invalid_duration");
            }
            assert(samples_view(out@) =~= filled + estimate_samples(
                prefix@,
                labels@,
                ratio,
                duration,
            ));
            assert(samples_view(out@) =~= start + buffer_samples(
                prefix@,
                labels@,
                through,
                *rendition,
            ));
        } else {
            count_calculation_error(out, prefix, labels, "no_fragments");
            assert(samples_view(out@) =~= start + buffer_samples(
                prefix@,
                labels@,
                through,
                *rendition,
            ));
        }
    }

    /// The samples of a payload.
    fn record_result(&self, labels: &LabelSet, duration: Option<Reading>, result: &HlsResult) -> (out:
        Vec<MetricSample>)
        ensures
            samples_view(out@) == hls_success(
                self.config().common_config.prefix@,
                labels@,
                duration,
                *result,
            ),
    {
        let prefix = self.config.common_config.prefix.as_str();
        let mut out: Vec<MetricSample> = Vec::new();
        assert(samples_view(out@) =~= Seq::<SampleModel>::empty());
        observe(&mut out, prefix, "hls_total_ms", labels, reading_or_zero(duration));
        let ghost timed = samples_view(out@);
        match &result.master {
            Some(master) => {
                self.record_master_metrics(&mut out, labels, master);
                let ghost mastered = samples_view(out@);
                let mut i: usize = 0;
                assert(mastered =~= mastered + ladder_samples(prefix@, labels@, *master, 0));
                while i < master.renditions.len()
                    invariant
                        i <= master.renditions@.len(),
                        prefix@ == self.config().common_config.prefix@,
                        samples_view(out@) == mastered + ladder_samples(
                            prefix@,
                            labels@,
                            *master,
                            i as int,
                        ),
                    decreases master.renditions.len() - i,
                {
                    self.record_rendition_metrics(
                        &mut out,
                        labels,
                        Some(master),
                        &master.renditions[i],
                    );
                    assert(samples_view(out@) =~= mastered + ladder_samples(
                        prefix@,
                        labels@,
                        *master,
                        i + 1,
                    ));
                    i += 1;
                }
            },
            None => {},
        }
        let ghost laddered = samples_view(out@);
        assert(laddered =~= timed + (match result.master {
            Some(master) => master_samples(prefix@, labels@, master) + ladder_samples(
                prefix@,
                labels@,
                master,
                master.renditions@.len() as int,
            ),
            None => Seq::empty(),
        }));
        match &result.rendition {
            Some(rendition) => {
                self.record_rendition_metrics(&mut out, labels, None, rendition);
            },
            None => {},
        }
        assert(samples_view(out@) =~= hls_success(prefix@, labels@, duration, *result));
        out
    }
}

impl Collector for HlsCollector {
    type Config = HlsConfig;

    type Request = HlsRequest;

    type Response = HlsResponse;

    closed spec fn config(&self) -> HlsConfig {
        *self.config
    }

    open spec fn descriptors(&self) -> Seq<DescriptorModel> {
        hls_descriptors(self.config().common_config.prefix@)
    }

    open spec fn asks(&self, request: HlsRequest) -> bool {
        &&& request.targeting@ == targeting_of(self.config().common_config, false)
        &&& pair_texts(request.headers@) == pair_texts(self.config().headers@)
    }

    open spec fn frequency(&self) -> Duration {
        self.config().common_config.frequency
    }

    open spec fn derived(&self, response: HlsResponse) -> Result<Seq<SampleModel>, ErrorModel> {
        hls_derived(self.config(), response)
    }

    open spec fn failure(&self, error: ErrorModel) -> Seq<SampleModel> {
        failure_samples(
            self.config().common_config.prefix@,
            "hls_failures_total"@,
            endpoint_label(self.config().common_config),
            error,
        )
    }

    fn new(config: &'static HlsConfig) -> (collector: Self) {
        HlsCollector { config }
    }

    fn register_metrics(&self) -> (list: Vec<MetricDescriptor>) {
        let prefix = self.config.common_config.prefix.as_str();
        let mut list: Vec<MetricDescriptor> = Vec::new();
        assert(descriptors_view(list@) =~= Seq::<DescriptorModel>::empty());
        describe(
            &mut list,
            prefix,
            "hls_total_ms",
            "Total time taken to perform HLS test",
            MetricKind::Histogram,
        );
        describe(
            &mut list,
            prefix,
            "hls_master_download_ms",
            "Time taken to download master playlist",
            MetricKind::Histogram,
        );
        describe(
            &mut list,
            prefix,
            "hls_master_size_bytes",
            "Size of master playlist in bytes",
            MetricKind::Gauge,
        );
        describe(
            &mut list,
            prefix,
            "hls_renditions_count",
            "Number of available renditions",
            MetricKind::Gauge,
        );
        describe(
            &mut list,
            prefix,
            "hls_master_bitrate",
            "Master playlist download bits per second",
            MetricKind::Gauge,
        );
        describe(
            &mut list,
            prefix,
            "hls_master_tcp_connect_ms",
            "Master Manifest TCP connection establishment time",
            MetricKind::Histogram,
        );
        describe(
            &mut list,
            prefix,
            "hls_master_ttfb_ms",
            "Master Manifest Time to first byte",
            MetricKind::Histogram,
        );
        describe(
            &mut list,
            prefix,
            "hls_master_dns_resolve_ms",
            "Master Manifest DNS resolution time",
            MetricKind::Histogram,
        );
        describe(
            &mut list,
            prefix,
            "hls_master_tls_handshake_ms",
            "Master Manifest TLS handshake duration",
            MetricKind::Histogram,
        );
        describe(
            &mut list,
            prefix,
            "hls_fragment_download_ratio",
            "Fragment duration relative to its download time",
            MetricKind::Gauge,
        );
        describe(
            &mut list,
            prefix,
            "hls_fragment_download_ms",
            "Fragment download time",
            MetricKind::Histogram,
        );
        describe(
            &mut list,
            prefix,
            "hls_fragment_size_bytes",
            "Fragment size",
            MetricKind::Gauge,
        );
        describe(
            &mut list,
            prefix,
            "hls_fragment_bandwidth_bytes_per_second",
            "Fragment bandwidth",
            MetricKind::Gauge,
        );
        describe(
            &mut list,
            prefix,
            "hls_fragment_tcp_connect_ms",
            "Fragment TCP connection establishment time",
            MetricKind::Histogram,
        );
        describe(
            &mut list,
            prefix,
            "hls_fragment_ttfb_ms",
            "Fragment Time to first byte",
            MetricKind::Histogram,
        );
        describe(
            &mut list,
            prefix,
            "hls_fragment_dns_resolve_ms",
            "Fragment DNS resolution time",
            MetricKind::Histogram,
        );
        describe(
            &mut list,
            prefix,
            "hls_fragment_tls_handshake_ms",
            "Fragment TLS handshake duration",
            MetricKind::Histogram,
        );
        describe(
            &mut list,
            prefix,
            "hls_fragment_duration_seconds",
            "Fragment duration in seconds",
            MetricKind::Gauge,
        );
        describe(
            &mut list,
            prefix,
            "hls_buffer_fill_rate",
            "Rate at which buffer is filling relative to playback speed (>1 means faster than realtime)",
            MetricKind::Gauge,
        );
        describe(
            &mut list,
            prefix,
            "hls_estimated_buffer_ms",
            "Estimated buffer length in milliseconds based on download speeds",
            MetricKind::Gauge,
        );
        describe(
            &mut list,
            prefix,
            "hls_initial_buffer_ms",
            "Time taken to load initial buffer including master playlist, variant playlist, and first segment",
            MetricKind::Histogram,
        );
        describe(
            &mut list,
            prefix,
            "hls_playlist_chain_load_time",
            "Time taken to load master and variant playlists",
            MetricKind::Histogram,
        );
        describe(
            &mut list,
            prefix,
            "hls_buffer_calculation_errors",
            "Buffer calculations that could not be made, by reason",
            MetricKind::Counter,
        );
        describe(
            &mut list,
            prefix,
            "hls_failures_total",
            "Total number of failures",
            MetricKind::Counter,
        );
        describe(
            &mut list,
            prefix,
            "hls_errors_by_type",
            "Errors categorized by type",
            MetricKind::Counter,
        );
        assert(descriptors_view(list@) =~= hls_descriptors(prefix@));
        list
    }

    fn build_request(&self) -> (request: HlsRequest) {
        hls_request(self.config)
    }

    fn get_frequency(&self) -> (d: Duration) {
        self.config.common_config.frequency
    }

    fn handle_response(&self, response: HlsResponse) -> (r: Result<
        Vec<MetricSample>,
        CollectorErrors,
    >) {
        let endpoint = self.config.common_config.label();
        let node_info = match &response.node_info {
            Some(node) => node,
            None => {
                return Err(CollectorErrors::MissingNodeInfo(endpoint.clone()));
            },
        };
        let labels = make_located_labels(node_info, endpoint.as_str());
        if response.results.len() == 0 {
            return Err(CollectorErrors::MissingData(endpoint.clone(), "no_results"));
        }
        let first = &response.results[0];
        match &first.error {
            Some(error) => Ok(self.record_failure_with_labels(error.as_str(), &labels)),
            None => match &first.result {
                Some(result) => Ok(self.record_result(&labels, first.duration, result)),
                None => Err(CollectorErrors::MissingData(endpoint.clone(), "hls_result")),
            },
        }
    }

    fn handle_errors(&self, error: CollectorErrors) -> (samples: Vec<MetricSample>) {
        make_failure_samples(&self.config.common_config, "hls_failures_total", &error)
    }

    proof fn lemma_derived_carries_base(&self, response: HlsResponse) {
        let config = self.config();
        let endpoint = endpoint_label(config.common_config);
        let prefix = config.common_config.prefix@;
        if response.node_info is Some && response.results@.len() > 0 {
            let node = response.node_info->Some_0;
            let first = response.results@[0];
            let labels = located_labels(node, endpoint);
            lemma_base_labels_carry(node, endpoint);
            match first.error {
                Some(e) => {
                    lemma_with_label_carries(labels, "error_type"@, hls_error_type(e@));
                },
                None => match first.result {
                    Some(result) => {
                        lemma_success_carries(prefix, labels, first.duration, result);
                    },
                    None => {},
                },
            }
        }
    }

    proof fn lemma_failure_carries_base(&self, error: ErrorModel) {
        lemma_failure_samples_carry(
            self.config().common_config.prefix@,
            "hls_failures_total"@,
            endpoint_label(self.config().common_config),
            error,
        );
    }
}

} // verus!
