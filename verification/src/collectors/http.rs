//! The HTTP collector: status, body fingerprint and pattern matches of one
//! HTTP probe.

use vstd::prelude::*;
use crate::collectors::{
    Collector, CollectorErrors, ErrorModel, ProbeResponse, describe, described, descriptors_view,
    emit, failure_samples, lemma_base_labels_carry, lemma_failure_samples_carry,
    lemma_with_label_carries, located_labels, make_failure_samples, make_located_labels, named,
};
use crate::collectors::dns::address::{all_digits, digit_of, digits_value};
use crate::collectors::fingerprint::{record_fingerprint, record_hash};
use crate::collectors::request::{HttpRequest, http_request, opt_text, pair_texts, targeting_of};
use crate::config::{Duration, HttpConfig, endpoint_label};
use crate::metric::{
    DescriptorModel, Labels, LabelSet, MetricDescriptor, MetricKind, MetricSample, SampleModel,
    SampleValue, samples_view, with_label,
};
use crate::reading::{Reading, or_zero, reading_or_zero};
use crate::text::{chars_of, decimal, holds_phrase, occurs_in, render_decimal, texts_of};

verus! {

/// What an HTTP probe measured: the status of the answer, the hash of its
/// body in hexadecimal, and the matches of the configured pattern.
#[derive(Debug, Clone)]
pub struct HttpResult {
    pub status_code: u16,
    pub body_hash: String,
    pub matches: Vec<String>,
}

/// The answer of the measurement service to an HTTP probe.
pub type HttpResponse = ProbeResponse<HttpResult>;

/// The value of the label `error_type` for the error text of an HTTP
/// probe: the first of the known phrases that the text holds decides.
pub open spec fn http_error_type(error: Seq<char>) -> Seq<char> {
    if occurs_in(error, "no record found for Query"@) {
        "dns_resolution_failed"@
    } else if occurs_in(error, "connection refused"@) {
        "connection_refused"@
    } else if occurs_in(error, "connection timed out"@) {
        "timeout"@
    } else if occurs_in(error, "name resolution failed"@) {
        "resolution_failed"@
    } else if occurs_in(error, "server misbehaving"@) {
        "server_misbehaving"@
    } else if occurs_in(error, "network is unreachable"@) {
        "network_unreachable"@
    } else if occurs_in(error, "Failed to execute HTTP Request"@) {
        "http_request_failed"@
    } else {
        "unknown_error"@
    }
}

/// The value of the label `error_type` for the error text of an HTTP probe.
pub fn classify_http_error(error: &str) -> (kind: &'static str)
    ensures
        kind@ == http_error_type(error@),
{
    let e = chars_of(error);
    if holds_phrase(&e, "no record found for Query") {
        "dns_resolution_failed"
    } else if holds_phrase(&e, "connection refused") {
        "connection_refused"
    } else if holds_phrase(&e, "connection timed out") {
        "timeout"
    } else if holds_phrase(&e, "name resolution failed") {
        "resolution_failed"
    } else if holds_phrase(&e, "server misbehaving") {
        "server_misbehaving"
    } else if holds_phrase(&e, "network is unreachable") {
        "network_unreachable"
    } else if holds_phrase(&e, "Failed to execute HTTP Request") {
        "http_request_failed"
    } else {
        "unknown_error"
    }
}

/// The samples by which an HTTP probe shows that the service reported the
/// error `error`: one more failed request, and one more request.
pub open spec fn http_failure(prefix: Seq<char>, labels: Labels, error: Seq<char>) -> Seq<
    SampleModel,
> {
    let typed = with_label(labels, "error_type"@, http_error_type(error));
    seq![
        named(
            prefix,
            "http_request_error_total"@,
            typed,
            SampleValue::Count(1),
            MetricKind::Counter,
        ),
        named(prefix, "http_request_total"@, typed, SampleValue::Count(1), MetricKind::Counter),
    ]
}

/// The digits of the first sixteen characters of a body hash: all sixteen,
/// or the fifteen after a leading `+`.
pub open spec fn hash_digits(hash: Seq<char>) -> Seq<char> {
    if hash.len() >= 16 && hash[0] == '+' {
        hash.subrange(1, 16)
    } else {
        hash.take(16)
    }
}

/// The number that a body hash stands for: its first sixteen characters
/// read as a hexadecimal number; zero where the hash is shorter or these
/// characters are no such number.
pub open spec fn body_hash_value(hash: Seq<char>) -> u64 {
    if hash.len() >= 16 && all_digits(hash_digits(hash), 16) {
        digits_value(hash_digits(hash), 16) as u64
    } else {
        0
    }
}

/// Sixteen to the power of `n`.
pub open spec fn sixteen_to(n: nat) -> int
    decreases n,
{
    if n == 0 {
        1
    } else {
        16 * sixteen_to((n - 1) as nat)
    }
}

/// Sixteen to the sixteenth is two to the sixty-fourth, and smaller
/// powers are smaller.
proof fn lemma_sixteen_to(n: nat)
    requires
        n <= 16,
    ensures
        1 <= sixteen_to(n) <= 0x1_0000_0000_0000_0000,
    decreases 16 - n,
{
    if n < 16 {
        lemma_sixteen_to(n + 1);
    } else {
        reveal_with_fuel(sixteen_to, 17);
    }
}

/// The number that a body hash stands for.
pub fn parse_body_hash(hash: &str) -> (value: u64)
    ensures
        value == body_hash_value(hash@),
{
    let t = chars_of(hash);
    if t.len() < 16 {
        return 0;
    }
    let from: usize = if t[0] == '+' {
        1
    } else {
        0
    };
    let ghost digits = hash_digits(hash@);
    assert(digits =~= t@.subrange(from as int, 16));
    let mut v: u128 = 0;
    let mut i: usize = from;
    assert(t@.subrange(from as int, from as int) =~= Seq::<char>::empty());
    while i < 16
        invariant
            from <= i <= 16 <= t@.len(),
            from <= 1,
            t@ == hash@,
            digits == hash_digits(hash@),
            digits == t@.subrange(from as int, 16),
            all_digits(t@.subrange(from as int, i as int), 16),
            v == digits_value(t@.subrange(from as int, i as int), 16),
            v < sixteen_to((i - from) as nat),
        decreases 16 - i,
    {
        let ghost prev = t@.subrange(from as int, i as int);
        let ghost next = t@.subrange(from as int, i + 1);
        assert(next.drop_last() =~= prev);
        assert(next.last() == t@[i as int]);
        proof {
            lemma_sixteen_to((i - from) as nat);
        }
        let n: u32 = t[i] as u32;
        let d: u128 = if 48 <= n && n <= 57 {
            (n - 48) as u128
        } else if 97 <= n && n <= 102 {
            (n - 87) as u128
        } else if 65 <= n && n <= 70 {
            (n - 55) as u128
        } else {
            assert(digits[i - from] == t@[i as int]);
            return 0;
        };
        assert forall|j: int| 0 <= j < next.len() implies digit_of(#[trigger] next[j], 16)
            is Some by {
            if j < prev.len() {
                assert(next[j] == prev[j]);
            }
        }
        v = v * 16 + d;
        i += 1;
    }
    assert(t@.subrange(from as int, 16) =~= digits);
    proof {
        lemma_sixteen_to((16 - from) as nat);
    }
    v as u64
}

/// The samples of an answer: the duration; the status; the number of the
/// body hash; the number of matches; one more success; one more request.
pub open spec fn http_success(
    prefix: Seq<char>,
    labels: Labels,
    duration: Reading,
    result: HttpResult,
) -> Seq<SampleModel> {
    seq![
        named(
            prefix,
            "http_request_duration_ms"@,
            labels,
            SampleValue::Measure(duration),
            MetricKind::Histogram,
        ),
        named(
            prefix,
            "http_status_code"@,
            with_label(labels, "status_code"@, decimal(result.status_code as nat)),
            SampleValue::Count(result.status_code as u64),
            MetricKind::Gauge,
        ),
        named(
            prefix,
            "http_body_hash"@,
            labels,
            SampleValue::Count(body_hash_value(result.body_hash@)),
            MetricKind::Gauge,
        ),
        named(
            prefix,
            "http_regex_match_count"@,
            with_label(labels, "match_count"@, decimal(result.matches@.len())),
            SampleValue::Count(result.matches@.len() as u64),
            MetricKind::Gauge,
        ),
        named(
            prefix,
            "http_request_success_total"@,
            labels,
            SampleValue::Count(1),
            MetricKind::Counter,
        ),
        named(prefix, "http_request_total"@, labels, SampleValue::Count(1), MetricKind::Counter),
    ]
}

/// The samples that a response to an HTTP probe stands for. The response
/// has to name its vantage point and to hold a first result; that result
/// is an error text, which gives the failure samples, or a payload.
pub open spec fn http_derived(config: HttpConfig, response: HttpResponse) -> Result<
    Seq<SampleModel>,
    ErrorModel,
> {
    let endpoint = endpoint_label(config.common_config);
    let prefix = config.common_config.prefix@;
    match response.node_info {
        None => Err(ErrorModel::MissingNodeInfo(endpoint)),
        Some(node) => if response.results@.len() == 0 {
            Err(ErrorModel::MissingData(endpoint, "no_results"@))
        } else {
            let first = response.results@[0];
            let labels = located_labels(node, endpoint);
            match first.error {
                Some(e) => Ok(http_failure(prefix, labels, e@)),
                None => match first.result {
                    Some(result) => Ok(
                        http_success(prefix, labels, or_zero(first.duration), result),
                    ),
                    None => Err(ErrorModel::MissingData(endpoint, "http_result"@)),
                },
            }
        },
    }
}

/// The metrics of an HTTP probe.
pub open spec fn http_descriptors(prefix: Seq<char>) -> Seq<DescriptorModel> {
    seq![
        described(
            prefix,
            "http_request_duration_ms"@,
            "HTTP request duration in milliseconds"@,
            MetricKind::Histogram,
        ),
        described(prefix, "http_status_code"@, "HTTP response status code"@, MetricKind::Gauge),
        described(prefix, "http_body_hash"@, "Hash of the HTTP response body"@, MetricKind::Gauge),
        described(
            prefix,
            "http_regex_match_count"@,
            "Number of matches of the pattern in the HTTP response body"@,
            MetricKind::Gauge,
        ),
        described(
            prefix,
            "http_request_success_total"@,
            "Total number of successful HTTP requests"@,
            MetricKind::Counter,
        ),
        described(
            prefix,
            "http_request_error_total"@,
            "Total number of failed HTTP requests"@,
            MetricKind::Counter,
        ),
        described(
            prefix,
            "http_request_total"@,
            "Total number of HTTP requests"@,
            MetricKind::Counter,
        ),
    ]
}

/// The collector of one HTTP probe.
pub struct HttpCollector {
    config: &'static HttpConfig,
}

impl HttpCollector {
    /// The fingerprint of a record set.
    pub fn hash_records(records: &Vec<String>) -> (hash: u64)
        ensures
            hash == record_fingerprint(texts_of(records@)),
    {
        record_hash(records)
    }

    /// The samples for an error text that the service reported.
    pub fn record_failure_with_labels(&self, error: &str, labels: &LabelSet) -> (out: Vec<
        MetricSample,
    >)
        ensures
            samples_view(out@) == http_failure(
                self.config().common_config.prefix@,
                labels@,
                error@,
            ),
    {
        let prefix = self.config.common_config.prefix.as_str();
        let mut typed = labels.duplicate();
        typed.insert("error_type", String::from_str(classify_http_error(error)));
        let mut out: Vec<MetricSample> = Vec::new();
        assert(samples_view(out@) =~= Seq::<SampleModel>::empty());
        emit(
            &mut out,
            prefix,
            "http_request_error_total",
            &typed,
            SampleValue::Count(1),
            MetricKind::Counter,
        );
        emit(
            &mut out,
            prefix,
            "http_request_total",
            &typed,
            SampleValue::Count(1),
            MetricKind::Counter,
        );
        assert(samples_view(out@) =~= http_failure(prefix@, labels@, error@));
        out
    }

    /// The samples of an answer.
    pub fn record_success_metrics(&self, result: &HttpResult, duration: Reading, labels: &LabelSet)
        -> (out: Vec<MetricSample>)
        ensures
            samples_view(out@) == http_success(
                self.config().common_config.prefix@,
                labels@,
                duration,
                *result,
            ),
    {
        let prefix = self.config.common_config.prefix.as_str();
        let mut out: Vec<MetricSample> = Vec::new();
        assert(samples_view(out@) =~= Seq::<SampleModel>::empty());
        emit(
            &mut out,
            prefix,
            "http_request_duration_ms",
            labels,
            SampleValue::Measure(duration),
            MetricKind::Histogram,
        );
        let mut status_labels = labels.duplicate();
        status_labels.insert("status_code", render_decimal(result.status_code as u64));
        emit(
            &mut out,
            prefix,
            "http_status_code",
            &status_labels,
            SampleValue::Count(result.status_code as u64),
            MetricKind::Gauge,
        );
        let hash = parse_body_hash(result.body_hash.as_str());
        emit(&mut out, prefix, "http_body_hash", labels, SampleValue::Count(hash), MetricKind::Gauge);
        let count = result.matches.len();
        let mut match_labels = labels.duplicate();
        match_labels.insert("match_count", render_decimal(count as u64));
        emit(
            &mut out,
            prefix,
            "http_regex_match_count",
            &match_labels,
            SampleValue::Count(count as u64),
            MetricKind::Gauge,
        );
        emit(
            &mut out,
            prefix,
            "http_request_success_total",
            labels,
            SampleValue::Count(1),
            MetricKind::Counter,
        );
        emit(
            &mut out,
            prefix,
            "http_request_total",
            labels,
            SampleValue::Count(1),
            MetricKind::Counter,
        );
        assert(samples_view(out@) =~= http_success(prefix@, labels@, duration, *result));
        out
    }
}

impl Collector for HttpCollector {
    type Config = HttpConfig;

    type Request = HttpRequest;

    type Response = HttpResponse;

    closed spec fn config(&self) -> HttpConfig {
        *self.config
    }

    open spec fn descriptors(&self) -> Seq<DescriptorModel> {
        http_descriptors(self.config().common_config.prefix@)
    }

    open spec fn asks(&self, request: HttpRequest) -> bool {
        &&& request.targeting@ == targeting_of(self.config().common_config, true)
        &&& request.method@ == self.config().method@
        &&& opt_text(request.body) == opt_text(self.config().body)
        &&& pair_texts(request.headers@) == pair_texts(self.config().headers@)
        &&& opt_text(request.regex) == opt_text(self.config().regex)
        &&& request.return_body == Some(true)
        &&& request.status_codes@.len() == 0
    }

    open spec fn frequency(&self) -> Duration {
        self.config().common_config.frequency
    }

    open spec fn derived(&self, response: HttpResponse) -> Result<Seq<SampleModel>, ErrorModel> {
        http_derived(self.config(), response)
    }

    open spec fn failure(&self, error: ErrorModel) -> Seq<SampleModel> {
        failure_samples(
            self.config().common_config.prefix@,
            "http_request_error_total"@,
            endpoint_label(self.config().common_config),
            error,
        )
    }

    fn new(config: &'static HttpConfig) -> (collector: Self) {
        HttpCollector { config }
    }

    fn register_metrics(&self) -> (list: Vec<MetricDescriptor>) {
        let prefix = self.config.common_config.prefix.as_str();
        let mut list: Vec<MetricDescriptor> = Vec::new();
        assert(descriptors_view(list@) =~= Seq::<DescriptorModel>::empty());
        describe(
            &mut list,
            prefix,
            "http_request_duration_ms",
            "HTTP request duration in milliseconds",
            MetricKind::Histogram,
        );
        describe(&mut list, prefix, "http_status_code", "HTTP response status code", MetricKind::Gauge);
        describe(
            &mut list,
            prefix,
            "http_body_hash",
            "Hash of the HTTP response body",
            MetricKind::Gauge,
        );
        describe(
            &mut list,
            prefix,
            "http_regex_match_count",
            "Number of matches of the pattern in the HTTP response body",
            MetricKind::Gauge,
        );
        describe(
            &mut list,
            prefix,
            "http_request_success_total",
            "Total number of successful HTTP requests",
            MetricKind::Counter,
        );
        describe(
            &mut list,
            prefix,
            "http_request_error_total",
            "Total number of failed HTTP requests",
            MetricKind::Counter,
        );
        describe(
            &mut list,
            prefix,
            "http_request_total",
            "Total number of HTTP requests",
            MetricKind::Counter,
        );
        assert(descriptors_view(list@) =~= http_descriptors(prefix@));
        list
    }

    fn build_request(&self) -> (request: HttpRequest) {
        http_request(self.config)
    }

    fn get_frequency(&self) -> (d: Duration) {
        self.config.common_config.frequency
    }

    fn handle_response(&self, response: HttpResponse) -> (r: Result<
        Vec<MetricSample>,
        CollectorErrors,
    >) {
        let endpoint = self.config.common_config.label();
        let node_info = match &response.node_info {
            Some(node) => node,
            None => {
                return Err(CollectorErrors::MissingNodeInfo(endpoint.clone()));
            },
        };
        let labels = make_located_labels(node_info, endpoint.as_str());
        if response.results.len() == 0 {
            return Err(CollectorErrors::MissingData(endpoint.clone(), "no_results"));
        }
        let first = &response.results[0];
        match &first.error {
            Some(error) => Ok(self.record_failure_with_labels(error.as_str(), &labels)),
            None => match &first.result {
                Some(result) => Ok(
                    self.record_success_metrics(result, reading_or_zero(first.duration), &labels),
                ),
                None => Err(CollectorErrors::MissingData(endpoint.clone(), "http_result")),
            },
        }
    }

    fn handle_errors(&self, error: CollectorErrors) -> (samples: Vec<MetricSample>) {
        make_failure_samples(&self.config.common_config, "http_request_error_total", &error)
    }

    proof fn lemma_derived_carries_base(&self, response: HttpResponse) {
        let config = self.config();
        let endpoint = endpoint_label(config.common_config);
        if response.node_info is Some && response.results@.len() > 0 {
            let node = response.node_info->Some_0;
            let first = response.results@[0];
            let labels = located_labels(node, endpoint);
            lemma_base_labels_carry(node, endpoint);
            match first.error {
                Some(e) => {
                    lemma_with_label_carries(labels, "error_type"@, http_error_type(e@));
                },
                None => match first.result {
                    Some(result) => {
                        lemma_with_label_carries(
                            labels,
                            "status_code"@,
                            decimal(result.status_code as nat),
                        );
                        lemma_with_label_carries(
                            labels,
                            "match_count"@,
                            decimal(result.matches@.len()),
                        );
                    },
                    None => {},
                },
            }
        }
    }

    proof fn lemma_failure_carries_base(&self, error: ErrorModel) {
        lemma_failure_samples_carry(
            self.config().common_config.prefix@,
            "http_request_error_total"@,
            endpoint_label(self.config().common_config),
            error,
        );
    }
}

} // verus!
