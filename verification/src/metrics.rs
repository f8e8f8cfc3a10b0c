//! The Prometheus metric handles that the manager holds, and the calls into
//! the `prometheus` crate that create and register them, find the members of
//! families, increase counters and copy handles.
//!
//! Each handle holds one value of the `prometheus` crate, and only this
//! crate makes handles. The metric inside a gauge or histogram handle can be
//! read from outside, to set, read or observe its float values. A metric value of
//! that crate is a shared cell: cloning a handle gives a second handle on the
//! same cell, and updating through one is seen through the other.

use vstd::prelude::*;
use prometheus_exporter::prometheus::{
    Counter, CounterVec, Gauge, GaugeVec, Histogram, HistogramOpts, HistogramVec, Opts,
};

verus! {

/// The error type of the `prometheus` crate.
#[verifier::external_type_specification]
#[verifier::external_body]
pub struct ExPrometheusError(prometheus_exporter::prometheus::Error);

/// A counter: one value that only goes up.
#[verifier::external_body]
pub struct PromCounter {
    inner: Counter,
}

/// A family of counters, one per tuple of label values.
#[verifier::external_body]
pub struct PromCounterVec {
    inner: CounterVec,
}

/// A gauge: one value that can be set to anything.
#[verifier::external_body]
pub struct PromGauge {
    /// The metric, on which the float values are set, read or observed.
    pub inner: Gauge,
    sealed: (),
}

/// A family of gauges, one per tuple of label values.
#[verifier::external_body]
pub struct PromGaugeVec {
    inner: GaugeVec,
}

/// A histogram with the default buckets.
#[verifier::external_body]
pub struct PromHistogram {
    /// The metric, on which the float values are set, read or observed.
    pub inner: Histogram,
    sealed: (),
}

/// A family of histograms, one per tuple of label values.
#[verifier::external_body]
pub struct PromHistogramVec {
    inner: HistogramVec,
}

/// The name and help text that a counter was made with.
pub uninterp spec fn counter_desc(c: PromCounter) -> (Seq<char>, Seq<char>);

/// The name and help text that a counter family was made with.
pub uninterp spec fn counter_vec_desc(v: PromCounterVec) -> (Seq<char>, Seq<char>);

/// The name and help text that a gauge was made with.
pub uninterp spec fn gauge_desc(g: PromGauge) -> (Seq<char>, Seq<char>);

/// The name and help text that a gauge family was made with.
pub uninterp spec fn gauge_vec_desc(v: PromGaugeVec) -> (Seq<char>, Seq<char>);

/// The name and help text that a histogram was made with.
pub uninterp spec fn histogram_desc(h: PromHistogram) -> (Seq<char>, Seq<char>);

/// The name and help text that a histogram family was made with.
pub uninterp spec fn histogram_vec_desc(v: PromHistogramVec) -> (Seq<char>, Seq<char>);

/// The counter family `v`, asked for the member for `values`, gave `c`.
pub uninterp spec fn counter_vec_gave(v: PromCounterVec, values: Seq<Seq<char>>, c: PromCounter) -> bool;

/// The gauge family `v`, asked for the member for `values`, gave `g`.
pub uninterp spec fn gauge_vec_gave(v: PromGaugeVec, values: Seq<Seq<char>>, g: PromGauge) -> bool;

/// The histogram family `v`, asked for the member for `values`, gave `h`.
pub uninterp spec fn histogram_vec_gave(
    v: PromHistogramVec,
    values: Seq<Seq<char>>,
    h: PromHistogram,
) -> bool;

/// The label names that a counter family was made with.
pub uninterp spec fn counter_vec_labels(v: PromCounterVec) -> Seq<Seq<char>>;

/// The label names that a gauge family was made with.
pub uninterp spec fn gauge_vec_labels(v: PromGaugeVec) -> Seq<Seq<char>>;

/// The label names that a histogram family was made with.
pub uninterp spec fn histogram_vec_labels(v: PromHistogramVec) -> Seq<Seq<char>>;

/// A character that may start a name: an ASCII letter or `_`, and `:` where
/// `colon` is set.
pub open spec fn name_start_char(c: char, colon: bool) -> bool {
    ||| ('a' <= c && c <= 'z')
    ||| ('A' <= c && c <= 'Z')
    ||| c == '_'
    ||| (colon && c == ':')
}

/// `[a-zA-Z_][a-zA-Z0-9_]*`, with `:` allowed too where `colon` is set.
pub open spec fn valid_ident(s: Seq<char>, colon: bool) -> bool {
    &&& s.len() > 0
    &&& name_start_char(s[0], colon)
    &&& forall|i: int|
        1 <= i < s.len() ==> name_start_char(#[trigger] s[i], colon) || ('0' <= s[i] && s[i]
            <= '9')
}

/// The label name that histograms keep for their buckets.
pub open spec fn bucket_label() -> Seq<char> {
    seq!['l', 'e']
}

/// What `prometheus` asks of a metric description: a help text that is not
/// empty, a valid metric name, valid label names, and no label name twice.
pub open spec fn valid_description(name: Seq<char>, help: Seq<char>, labels: Seq<Seq<char>>) -> bool {
    &&& help.len() > 0
    &&& valid_ident(name, true)
    &&& forall|i: int| 0 <= i < labels.len() ==> valid_ident(#[trigger] labels[i], false)
    &&& forall|i: int, j: int| 0 <= i < j < labels.len() ==> labels[i] != labels[j]
}

/// A registration that `prometheus` refused: its error, and the name, help
/// text and label names of the metric it refused. Only the registering
/// calls below make one.
pub struct Refusal {
    error: prometheus_exporter::prometheus::Error,
    refused: Ghost<(Seq<char>, Seq<char>, Seq<Seq<char>>)>,
}

impl Refusal {
    /// The name, help text and label names of the metric whose registration
    /// was refused.
    pub closed spec fn refused(&self) -> (Seq<char>, Seq<char>, Seq<Seq<char>>) {
        self.refused@
    }
}

/// What `register_counter!(name, help)` does: `Counter::with_opts(Opts::new(name,
/// help))`, then `prometheus::register` of a copy of the result in the
/// process-wide default registry. Making it fails (the outer `Err`) exactly
/// when the description is not valid, following `Desc::new`; a metric that is
/// made keeps the name and help text in its fixed description. Whether
/// registering succeeds (the inner result) depends on what the default
/// registry already holds, so it is not stated; a handle comes back only once
/// it is registered, and a refusal records the name and help text refused.
#[verifier::external_body]
pub(crate) fn register_counter(name: &str, help: &str) -> (r: Result<
    Result<PromCounter, Refusal>,
    prometheus_exporter::prometheus::Error,
>)
    ensures
        r is Ok <==> valid_description(name@, help@, seq![]),
        r matches Ok(Ok(m)) ==> counter_desc(m) == (name@, help@),
        r matches Ok(Err(f)) ==> f.refused() == (name@, help@, Seq::<Seq<char>>::empty()),
{
    match Counter::with_opts(Opts::new(name, help)) {
        Ok(m) => Ok(match prometheus_exporter::prometheus::register(Box::new(m.clone())) {
            Ok(()) => Ok(PromCounter { inner: m }),
            Err(e) => Err(Refusal { error: e, refused: Ghost((name@, help@, Seq::empty())) }),
        }),
        Err(e) => Err(e),
    }
}

/// What `register_counter_vec!(name, help, labels)` does: `CounterVec::new(Opts::new(name,
/// help), labels)`, then `prometheus::register` of a copy of the result in the
/// default registry. Making it fails (the outer `Err`) exactly when the
/// description is not valid; a family that is made keeps the name, the help
/// text and `labels` as its label names. Whether registering succeeds (the
/// inner result) depends on the default registry and is not stated; a handle
/// comes back only once it is registered, and a refusal records the name,
/// help text and label names refused.
#[verifier::external_body]
pub(crate) fn register_counter_vec(name: &str, help: &str, labels: &Vec<String>) -> (r: Result<
    Result<PromCounterVec, Refusal>,
    prometheus_exporter::prometheus::Error,
>)
    ensures
        r is Ok <==> valid_description(name@, help@, labels.deep_view()),
        r matches Ok(Ok(v)) ==> counter_vec_desc(v) == (name@, help@) && counter_vec_labels(v) == labels.deep_view(),
        r matches Ok(Err(f)) ==> f.refused() == (name@, help@, labels.deep_view()),
{
    let names: Vec<&str> = labels.iter().map(|s| s.as_str()).collect();
    match CounterVec::new(Opts::new(name, help), &names) {
        Ok(v) => Ok(match prometheus_exporter::prometheus::register(Box::new(v.clone())) {
            Ok(()) => Ok(PromCounterVec { inner: v }),
            Err(e) => Err(Refusal { error: e, refused: Ghost((name@, help@, labels.deep_view())) }),
        }),
        Err(e) => Err(e),
    }
}

/// What `register_gauge!(name, help)` does: `Gauge::with_opts(Opts::new(name,
/// help))`, then `prometheus::register` of a copy of the result in the
/// process-wide default registry. Making it fails (the outer `Err`) exactly
/// when the description is not valid, following `Desc::new`; a metric that is
/// made keeps the name and help text in its fixed description. Whether
/// registering succeeds (the inner result) depends on what the default
/// registry already holds, so it is not stated; a handle comes back only once
/// it is registered, and a refusal records the name and help text refused.
#[verifier::external_body]
pub(crate) fn register_gauge(name: &str, help: &str) -> (r: Result<
    Result<PromGauge, Refusal>,
    prometheus_exporter::prometheus::Error,
>)
    ensures
        r is Ok <==> valid_description(name@, help@, seq![]),
        r matches Ok(Ok(m)) ==> gauge_desc(m) == (name@, help@),
        r matches Ok(Err(f)) ==> f.refused() == (name@, help@, Seq::<Seq<char>>::empty()),
{
    match Gauge::with_opts(Opts::new(name, help)) {
        Ok(m) => Ok(match prometheus_exporter::prometheus::register(Box::new(m.clone())) {
            Ok(()) => Ok(PromGauge { inner: m, sealed: () }),
            Err(e) => Err(Refusal { error: e, refused: Ghost((name@, help@, Seq::empty())) }),
        }),
        Err(e) => Err(e),
    }
}

/// What `register_gauge_vec!(name, help, labels)` does: `GaugeVec::new(Opts::new(name,
/// help), labels)`, then `prometheus::register` of a copy of the result in the
/// default registry. Making it fails (the outer `Err`) exactly when the
/// description is not valid; a family that is made keeps the name, the help
/// text and `labels` as its label names. Whether registering succeeds (the
/// inner result) depends on the default registry and is not stated; a handle
/// comes back only once it is registered, and a refusal records the name,
/// help text and label names refused.
#[verifier::external_body]
pub(crate) fn register_gauge_vec(name: &str, help: &str, labels: &Vec<String>) -> (r: Result<
    Result<PromGaugeVec, Refusal>,
    prometheus_exporter::prometheus::Error,
>)
    ensures
        r is Ok <==> valid_description(name@, help@, labels.deep_view()),
        r matches Ok(Ok(v)) ==> gauge_vec_desc(v) == (name@, help@) && gauge_vec_labels(v) == labels.deep_view(),
        r matches Ok(Err(f)) ==> f.refused() == (name@, help@, labels.deep_view()),
{
    let names: Vec<&str> = labels.iter().map(|s| s.as_str()).collect();
    match GaugeVec::new(Opts::new(name, help), &names) {
        Ok(v) => Ok(match prometheus_exporter::prometheus::register(Box::new(v.clone())) {
            Ok(()) => Ok(PromGaugeVec { inner: v }),
            Err(e) => Err(Refusal { error: e, refused: Ghost((name@, help@, labels.deep_view())) }),
        }),
        Err(e) => Err(e),
    }
}

/// What `register_histogram!(name, help)` does: `Histogram::with_opts(HistogramOpts::new(name,
/// help))`, then `prometheus::register` of a copy of the result in the
/// process-wide default registry. Making it fails (the outer `Err`) exactly
/// when the description is not valid, following `Desc::new`; a metric that is
/// made keeps the name and help text in its fixed description (the
/// default buckets are in increasing order). Whether
/// registering succeeds (the inner result) depends on what the default
/// registry already holds, so nothing is stated of it; a handle comes back
/// only once it is registered.
#[verifier::external_body]
pub(crate) fn register_histogram(name: &str, help: &str) -> (r: Result<
    Result<PromHistogram, Refusal>,
    prometheus_exporter::prometheus::Error,
>)
    ensures
        r is Ok <==> valid_description(name@, help@, seq![]),
        r matches Ok(Ok(m)) ==> histogram_desc(m) == (name@, help@),
        r matches Ok(Err(f)) ==> f.refused() == (name@, help@, Seq::<Seq<char>>::empty()),
{
    match Histogram::with_opts(HistogramOpts::new(name, help)) {
        Ok(m) => Ok(match prometheus_exporter::prometheus::register(Box::new(m.clone())) {
            Ok(()) => Ok(PromHistogram { inner: m, sealed: () }),
            Err(e) => Err(Refusal { error: e, refused: Ghost((name@, help@, Seq::empty())) }),
        }),
        Err(e) => Err(e),
    }
}

/// What `register_histogram_vec!(name, help, labels)` does: `HistogramVec::new(HistogramOpts::new(name,
/// help), labels)`, then `prometheus::register` of a copy of the result in the
/// default registry. Making it fails (the outer `Err`) exactly when the
/// description is not valid; a family that is made keeps the name, the help
/// text and `labels` as its label names. The bucket label `le` is only
/// refused when a member is made. Whether registering succeeds (the inner
/// result) depends on the default registry and is not stated; a handle comes
/// back only once it is registered, and a refusal records what was refused.
#[verifier::external_body]
pub(crate) fn register_histogram_vec(name: &str, help: &str, labels: &Vec<String>) -> (r: Result<
    Result<PromHistogramVec, Refusal>,
    prometheus_exporter::prometheus::Error,
>)
    ensures
        r is Ok <==> valid_description(name@, help@, labels.deep_view()),
        r matches Ok(Ok(v)) ==> histogram_vec_desc(v) == (name@, help@) && histogram_vec_labels(v) == labels.deep_view(),
        r matches Ok(Err(f)) ==> f.refused() == (name@, help@, labels.deep_view()),
{
    let names: Vec<&str> = labels.iter().map(|s| s.as_str()).collect();
    match HistogramVec::new(HistogramOpts::new(name, help), &names) {
        Ok(v) => Ok(match prometheus_exporter::prometheus::register(Box::new(v.clone())) {
            Ok(()) => Ok(PromHistogramVec { inner: v }),
            Err(e) => Err(Refusal { error: e, refused: Ghost((name@, help@, labels.deep_view())) }),
        }),
        Err(e) => Err(e),
    }
}

/// A counter together with how many times it has been increased through
/// this value. Only this module makes one (with no increases yet), and only
/// `counter_inc` raises the count, so the count is the number of increases
/// made through it.
pub struct CounterTally {
    counter: PromCounter,
    increases: Ghost<nat>,
}

impl CounterTally {
    /// The counter.
    pub closed spec fn counter(&self) -> PromCounter {
        self.counter
    }

    /// How many times the counter has been increased through this value.
    pub closed spec fn increases(&self) -> nat {
        self.increases@
    }
}

/// Starts a tally on `c`, with no increases yet.
pub(crate) fn tally(c: PromCounter) -> (t: CounterTally)
    ensures
        t.counter() == c,
        t.increases() == 0,
{
    CounterTally { counter: c, increases: Ghost(0) }
}

/// `Counter::inc`: adds one to the counter's shared value. That value is a
/// float and is not modelled; what is stated is that the call is one
/// increase of the tallied counter.
#[verifier::external_body]
pub(crate) fn counter_inc(t: &mut CounterTally)
    ensures
        final(t).counter() == old(t).counter(),
        final(t).increases() == old(t).increases() + 1,
{
    t.counter.inner.inc();
}

/// `MetricVec::with_label_values` on a counter family: the member for these
/// label values, made on first use. It panics only on a wrong number of
/// values, which `requires` leaves out. The member is made from the family's
/// options, so it has the family's name and help text. What comes back is
/// what the family gave for these values (`counter_vec_gave`); which member
/// that is depends on what the family has made before, so it has no name of
/// its own.
#[verifier::external_body]
pub(crate) fn counter_vec_member(v: &PromCounterVec, values: &Vec<String>) -> (c: PromCounter)
    requires
        values.len() == counter_vec_labels(*v).len(),
    ensures
        counter_vec_gave(*v, values.deep_view(), c),
        counter_desc(c) == counter_vec_desc(*v),
{
    let vals: Vec<&str> = values.iter().map(|s| s.as_str()).collect();
    PromCounter { inner: v.inner.with_label_values(&vals) }
}

/// `MetricVec::with_label_values` on a gauge family: as for counter
/// families.
#[verifier::external_body]
pub(crate) fn gauge_vec_member(v: &PromGaugeVec, values: &Vec<String>) -> (g: PromGauge)
    requires
        values.len() == gauge_vec_labels(*v).len(),
    ensures
        gauge_vec_gave(*v, values.deep_view(), g),
        gauge_desc(g) == gauge_vec_desc(*v),
{
    let vals: Vec<&str> = values.iter().map(|s| s.as_str()).collect();
    PromGauge { inner: v.inner.with_label_values(&vals), sealed: () }
}

/// `MetricVec::with_label_values` on a histogram family: as for counter
/// families; it also panics where a label name is the bucket label `le`
/// (`HistogramCore::new` refuses to make the member), which `requires` leaves
/// out too.
#[verifier::external_body]
pub(crate) fn histogram_vec_member(v: &PromHistogramVec, values: &Vec<String>) -> (h: PromHistogram)
    requires
        values.len() == histogram_vec_labels(*v).len(),
        !histogram_vec_labels(*v).contains(bucket_label()),
    ensures
        histogram_vec_gave(*v, values.deep_view(), h),
        histogram_desc(h) == histogram_vec_desc(*v),
{
    let vals: Vec<&str> = values.iter().map(|s| s.as_str()).collect();
    PromHistogram { inner: v.inner.with_label_values(&vals), sealed: () }
}

/// `Clone::clone` of a counter: a second handle on the same shared cell (the
/// clone copies an `Arc`), so it is the same counter.
#[verifier::external_body]
pub(crate) fn counter_clone(c: &PromCounter) -> (r: PromCounter)
    ensures
        r == *c,
{
    PromCounter { inner: c.inner.clone() }
}

/// `Clone::clone` of a counter family: a second handle on the same family
/// (the clone copies an `Arc`).
#[verifier::external_body]
pub(crate) fn counter_vec_clone(v: &PromCounterVec) -> (r: PromCounterVec)
    ensures
        r == *v,
{
    PromCounterVec { inner: v.inner.clone() }
}

/// `Clone::clone` of a gauge family: a second handle on the same family.
#[verifier::external_body]
pub(crate) fn gauge_vec_clone(v: &PromGaugeVec) -> (r: PromGaugeVec)
    ensures
        r == *v,
{
    PromGaugeVec { inner: v.inner.clone() }
}

/// `Clone::clone` of a histogram family: a second handle on the same family.
#[verifier::external_body]
pub(crate) fn histogram_vec_clone(v: &PromHistogramVec) -> (r: PromHistogramVec)
    ensures
        r == *v,
{
    PromHistogramVec { inner: v.inner.clone() }
}

/// `Clone::clone` of a gauge: a second handle on the same shared cell (the
/// clone copies an `Arc`), so it is the same gauge.
#[verifier::external_body]
pub(crate) fn gauge_clone(g: &PromGauge) -> (r: PromGauge)
    ensures
        r == *g,
{
    PromGauge { inner: g.inner.clone(), sealed: () }
}

/// `Clone::clone` of a histogram: a second handle on the same shared cell.
#[verifier::external_body]
pub(crate) fn histogram_clone(h: &PromHistogram) -> (r: PromHistogram)
    ensures
        r == *h,
{
    PromHistogram { inner: h.inner.clone(), sealed: () }
}

} // verus!
