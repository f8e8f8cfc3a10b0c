//! The manager of named metrics, and what it does with a command that names
//! one of them.

use vstd::prelude::*;
use crate::metrics::{
    bucket_label, counter_vec_gave, gauge_vec_gave, histogram_vec_gave, counter_clone, counter_inc, counter_vec_member, tally, CounterTally, gauge_vec_member,
    histogram_vec_member, counter_desc, counter_vec_desc, gauge_desc, gauge_vec_desc,
    histogram_desc, histogram_vec_desc, counter_vec_clone, counter_vec_labels, gauge_clone,
    gauge_vec_clone, gauge_vec_labels, histogram_clone, histogram_vec_clone,
    histogram_vec_labels, PromCounter, PromCounterVec, PromGauge, PromGaugeVec, PromHistogram,
    PromHistogramVec,
};
use crate::registry::Registry;

verus! {

/// The six kinds of metric that the manager keeps, each under names of its
/// own.
#[derive(Clone, Copy, Debug, PartialEq, Eq, Structural)]
pub enum MetricKind {
    Counter,
    CounterVec,
    Gauge,
    GaugeVec,
    Histogram,
    HistogramVec,
}

/// A command to the manager, with the numbers left out: the value to set a
/// gauge to or to observe in a histogram travels beside the command and is
/// applied by the caller to the metric that the answer gives. Each command
/// names a metric; those on a family also give one value for each label.
pub enum Request {
    IncreaseCounter(String),
    IncreaseCounterVec(String, Vec<String>),
    SetGauge(String),
    GetGauge(String),
    SetGaugeVec(String, Vec<String>),
    GetGaugeVec(String, Vec<String>),
    ObserveHistogram(String),
    ObserveHistogramVec(String, Vec<String>),
}

/// What a command came to. A counter has been increased here; for a gauge
/// or histogram the caller still applies the command's value (or replies with
/// the gauge's value) on the metric given. For a family, the answer gives the
/// family, the label values and the member for those values
/// (`with_label_values`).
pub enum Action {
    /// No metric of that kind has that name: nothing was done.
    Ignored,
    /// This counter was increased by one.
    Incremented(CounterTally),
    /// The member (third) of this counter family for these values was
    /// increased by one.
    IncrementedMember(PromCounterVec, Vec<String>, CounterTally),
    /// Set this gauge to the command's value.
    SetGauge(PromGauge),
    /// Set the member (third) of this gauge family for these values to the
    /// command's value.
    SetGaugeMember(PromGaugeVec, Vec<String>, PromGauge),
    /// Reply with this gauge's value.
    ReadGauge(PromGauge),
    /// Reply with the value of the member (third) of this gauge family for
    /// these values.
    ReadGaugeMember(PromGaugeVec, Vec<String>, PromGauge),
    /// No gauge of that name: reply with the fallback value.
    ReplyMissing,
    /// Observe the command's value in this histogram.
    Observe(PromHistogram),
    /// Observe the command's value in the member (third) of this histogram
    /// family for these values.
    ObserveMember(PromHistogramVec, Vec<String>, PromHistogram),
}

/// The named metrics of a running exporter, by kind.
pub struct PromManager {
    counters: Registry<PromCounter>,
    counter_vecs: Registry<PromCounterVec>,
    gauges: Registry<PromGauge>,
    gauge_vecs: Registry<PromGaugeVec>,
    histograms: Registry<PromHistogram>,
    histogram_vecs: Registry<PromHistogramVec>,
}

impl PromManager {
    /// The counters by name, each with its label names and handle.
    pub closed spec fn counters(&self) -> Map<Seq<char>, (Seq<Seq<char>>, PromCounter)> {
        self.counters@
    }

    /// The counter families by name.
    pub closed spec fn counter_vecs(&self) -> Map<Seq<char>, (Seq<Seq<char>>, PromCounterVec)> {
        self.counter_vecs@
    }

    /// The gauges by name.
    pub closed spec fn gauges(&self) -> Map<Seq<char>, (Seq<Seq<char>>, PromGauge)> {
        self.gauges@
    }

    /// The gauge families by name.
    pub closed spec fn gauge_vecs(&self) -> Map<Seq<char>, (Seq<Seq<char>>, PromGaugeVec)> {
        self.gauge_vecs@
    }

    /// The histograms by name.
    pub closed spec fn histograms(&self) -> Map<Seq<char>, (Seq<Seq<char>>, PromHistogram)> {
        self.histograms@
    }

    /// The histogram families by name.
    pub closed spec fn histogram_vecs(&self) -> Map<
        Seq<char>,
        (Seq<Seq<char>>, PromHistogramVec),
    > {
        self.histogram_vecs@
    }

    /// Each family is stored with the label names it was made with.
    #[verifier::type_invariant]
    spec fn wf(self) -> bool {
        &&& forall|k: Seq<char>| #[trigger]
            self.counter_vecs@.contains_key(k) ==> counter_vec_labels(self.counter_vecs@[k].1)
                == self.counter_vecs@[k].0
        &&& forall|k: Seq<char>| #[trigger]
            self.gauge_vecs@.contains_key(k) ==> gauge_vec_labels(self.gauge_vecs@[k].1)
                == self.gauge_vecs@[k].0
        &&& forall|k: Seq<char>| #[trigger]
            self.histogram_vecs@.contains_key(k) ==> histogram_vec_labels(
                self.histogram_vecs@[k].1,
            ) == self.histogram_vecs@[k].0
    }

    /// The command's action can be carried out: where it names a family that
    /// is registered, it gives as many values as the family has labels, and a
    /// histogram family does not use the bucket label `le` as a label name.
    /// Otherwise finding the member (`with_label_values`) fails.
    pub open spec fn admits(&self, req: Request) -> bool {
        match req {
            Request::IncreaseCounterVec(name, values) => self.counter_vecs().contains_key(name@)
                ==> values.len() == self.counter_vecs()[name@].0.len(),
            Request::SetGaugeVec(name, values) => self.gauge_vecs().contains_key(name@)
                ==> values.len() == self.gauge_vecs()[name@].0.len(),
            Request::GetGaugeVec(name, values) => self.gauge_vecs().contains_key(name@)
                ==> values.len() == self.gauge_vecs()[name@].0.len(),
            Request::ObserveHistogramVec(name, values) => self.histogram_vecs().contains_key(
                name@,
            ) ==> {
                &&& values.len() == self.histogram_vecs()[name@].0.len()
                &&& !self.histogram_vecs()[name@].0.contains(bucket_label())
            },
            _ => true,
        }
    }

    /// The answer `a` to `req`: the metric of the kind and name the command
    /// gives, as registered; for a family, the registered family, the
    /// command's label values and the member that family gave for those
    /// values; where there is none, `Ignored`, or `ReplyMissing` for a read.
    pub open spec fn answers(&self, req: Request, a: Action) -> bool {
        match req {
            Request::IncreaseCounter(name) => if self.counters().contains_key(name@) {
                a matches Action::Incremented(t) && t.counter() == self.counters()[name@].1
                    && t.increases() == 1
            } else {
                a is Ignored
            },
            Request::IncreaseCounterVec(name, values) => if self.counter_vecs().contains_key(
                name@,
            ) {
                a matches Action::IncrementedMember(v, vals, t) && v == self.counter_vecs()[name@].1
                    && vals == values && counter_vec_gave(v, values.deep_view(), t.counter())
                    && counter_desc(t.counter()) == counter_vec_desc(v) && t.increases() == 1
            } else {
                a is Ignored
            },
            Request::SetGauge(name) => if self.gauges().contains_key(name@) {
                a == Action::SetGauge(self.gauges()[name@].1)
            } else {
                a is Ignored
            },
            Request::GetGauge(name) => if self.gauges().contains_key(name@) {
                a == Action::ReadGauge(self.gauges()[name@].1)
            } else {
                a is ReplyMissing
            },
            Request::SetGaugeVec(name, values) => if self.gauge_vecs().contains_key(name@) {
                a matches Action::SetGaugeMember(v, vals, member) && v == self.gauge_vecs()[name@].1
                    && vals == values && gauge_vec_gave(v, values.deep_view(), member) && gauge_desc(member) == gauge_vec_desc(v)
            } else {
                a is Ignored
            },
            Request::GetGaugeVec(name, values) => if self.gauge_vecs().contains_key(name@) {
                a matches Action::ReadGaugeMember(v, vals, member) && v == self.gauge_vecs()[name@].1
                    && vals == values && gauge_vec_gave(v, values.deep_view(), member) && gauge_desc(member) == gauge_vec_desc(v)
            } else {
                a is ReplyMissing
            },
            Request::ObserveHistogram(name) => if self.histograms().contains_key(name@) {
                a == Action::Observe(self.histograms()[name@].1)
            } else {
                a is Ignored
            },
            Request::ObserveHistogramVec(name, values) => if self.histogram_vecs().contains_key(
                name@,
            ) {
                a matches Action::ObserveMember(v, vals, member) && v == self.histogram_vecs()[name@].1
                    && vals == values && histogram_vec_gave(v, values.deep_view(), member) && histogram_desc(member) == histogram_vec_desc(v)
            } else {
                a is Ignored
            },
        }
    }
}

impl Request {
    /// The kind and the name of the metric that the command is for.
    pub open spec fn target(self) -> (MetricKind, Seq<char>) {
        match self {
            Request::IncreaseCounter(name) => (MetricKind::Counter, name@),
            Request::IncreaseCounterVec(name, _) => (MetricKind::CounterVec, name@),
            Request::SetGauge(name) => (MetricKind::Gauge, name@),
            Request::GetGauge(name) => (MetricKind::Gauge, name@),
            Request::SetGaugeVec(name, _) => (MetricKind::GaugeVec, name@),
            Request::GetGaugeVec(name, _) => (MetricKind::GaugeVec, name@),
            Request::ObserveHistogram(name) => (MetricKind::Histogram, name@),
            Request::ObserveHistogramVec(name, _) => (MetricKind::HistogramVec, name@),
        }
    }
}

impl PromManager {
    /// Whether a metric of kind `k` is registered under `name`.
    pub open spec fn has(&self, k: MetricKind, name: Seq<char>) -> bool {
        match k {
            MetricKind::Counter => self.counters().contains_key(name),
            MetricKind::CounterVec => self.counter_vecs().contains_key(name),
            MetricKind::Gauge => self.gauges().contains_key(name),
            MetricKind::GaugeVec => self.gauge_vecs().contains_key(name),
            MetricKind::Histogram => self.histograms().contains_key(name),
            MetricKind::HistogramVec => self.histogram_vecs().contains_key(name),
        }
    }
}

/// A command does something exactly when a metric of its kind is registered
/// under its name; otherwise it is ignored, or, for a read, answered as
/// missing.
pub proof fn command_acts_iff_metric_registered(m: PromManager, req: Request, a: Action)
    requires
        m.answers(req, a),
    ensures
        (a is Ignored || a is ReplyMissing) <==> !m.has(req.target().0, req.target().1),
{
}

/// Setting a gauge and reading it use the same gauge: what is set under a
/// name is what a read of that name sees.
pub proof fn set_and_get_share_the_gauge(
    m: PromManager,
    set_name: String,
    get_name: String,
    set: Action,
    get: Action,
)
    requires
        set_name@ == get_name@,
        m.gauges().contains_key(set_name@),
        m.answers(Request::SetGauge(set_name), set),
        m.answers(Request::GetGauge(get_name), get),
    ensures
        set matches Action::SetGauge(g1) && get matches Action::ReadGauge(g2) && g1 == g2,
{
}

/// A counter command on a registered counter increases exactly that counter,
/// exactly once.
pub proof fn increase_counter_increases_it_once(m: PromManager, name: String, a: Action)
    requires
        m.counters().contains_key(name@),
        m.answers(Request::IncreaseCounter(name), a),
    ensures
        a matches Action::Incremented(t) && t.counter() == m.counters()[name@].1 && t.increases()
            == 1,
{
}

/// A counter-family command on a registered family increases exactly once
/// the member that family gives for the command's label values.
pub proof fn increase_member_increases_it_once(
    m: PromManager,
    name: String,
    values: Vec<String>,
    a: Action,
)
    requires
        m.counter_vecs().contains_key(name@),
        m.answers(Request::IncreaseCounterVec(name, values), a),
    ensures
        a matches Action::IncrementedMember(v, vals, t) && v == m.counter_vecs()[name@].1
            && vals@ == values@ && counter_vec_gave(v, values.deep_view(), t.counter())
            && t.increases() == 1,
{
}

/// Setting a member of a gauge family and reading it, with the same name and
/// label values, go to the same family with the same values, and each uses
/// the member that family gave for those values.
pub proof fn set_and_get_share_the_gauge_member(
    m: PromManager,
    set_name: String,
    set_values: Vec<String>,
    get_name: String,
    get_values: Vec<String>,
    set: Action,
    get: Action,
)
    requires
        set_name@ == get_name@,
        set_values.deep_view() == get_values.deep_view(),
        m.gauge_vecs().contains_key(set_name@),
        m.answers(Request::SetGaugeVec(set_name, set_values), set),
        m.answers(Request::GetGaugeVec(get_name, get_values), get),
    ensures
        set matches Action::SetGaugeMember(v1, vals1, g1) && get matches Action::ReadGaugeMember(
            v2,
            vals2,
            g2,
        ) && v1 == v2 && vals1.deep_view() == vals2.deep_view() && gauge_vec_gave(
            v1,
            vals1.deep_view(),
            g1,
        ) && gauge_vec_gave(v1, vals1.deep_view(), g2),
{
}

/// The name and help text that the metric an action acts on was made with;
/// none where there is no metric to act on.
pub open spec fn action_desc(a: Action) -> Option<(Seq<char>, Seq<char>)> {
    match a {
        Action::Ignored => None,
        Action::ReplyMissing => None,
        Action::Incremented(t) => Some(counter_desc(t.counter())),
        Action::IncrementedMember(v, _, _) => Some(counter_vec_desc(v)),
        Action::SetGauge(g) => Some(gauge_desc(g)),
        Action::SetGaugeMember(v, _, _) => Some(gauge_vec_desc(v)),
        Action::ReadGauge(g) => Some(gauge_desc(g)),
        Action::ReadGaugeMember(v, _, _) => Some(gauge_vec_desc(v)),
        Action::Observe(h) => Some(histogram_desc(h)),
        Action::ObserveMember(v, _, _) => Some(histogram_vec_desc(v)),
    }
}

impl PromManager {
    /// Whether `req` can be carried out (see `admits`).
    pub fn accepts(&self, req: &Request) -> (b: bool)
        ensures
            b == self.admits(*req),
    {
        match req {
            Request::IncreaseCounterVec(name, values) => match self.counter_vecs.get(name) {
                Some(e) => values.len() == e.labels.len(),
                None => true,
            },
            Request::SetGaugeVec(name, values) | Request::GetGaugeVec(name, values) => {
                match self.gauge_vecs.get(name) {
                    Some(e) => values.len() == e.labels.len(),
                    None => true,
                }
            },
            Request::ObserveHistogramVec(name, values) => match self.histogram_vecs.get(name) {
                Some(e) => values.len() == e.labels.len() && !has_bucket_label(&e.labels),
                None => true,
            },
            _ => true,
        }
    }
}

/// Whether one of `labels` is the bucket label `le`.
fn has_bucket_label(labels: &Vec<String>) -> (b: bool)
    ensures
        b == labels.deep_view().contains(bucket_label()),
{
    let le = String::from_str("le");
    proof {
        reveal_strlit("le");
    }
    assert(le@ == bucket_label());
    let n = labels.len();
    let mut i: usize = 0;
    while i < n
        invariant
            n == labels.len(),
            i <= n,
            le@ == bucket_label(),
            forall|j: int| 0 <= j < i ==> labels.deep_view()[j] != bucket_label(),
        decreases n - i,
    {
        if labels[i] == le {
            assert(labels.deep_view()[i as int] == bucket_label());
            return true;
        }
        i = i + 1;
    }
    false
}

impl PromManager {
    /// Puts six tables together into a manager.
    pub(crate) fn from_tables(
        counters: Registry<PromCounter>,
        counter_vecs: Registry<PromCounterVec>,
        gauges: Registry<PromGauge>,
        gauge_vecs: Registry<PromGaugeVec>,
        histograms: Registry<PromHistogram>,
        histogram_vecs: Registry<PromHistogramVec>,
    ) -> (m: PromManager)
        requires
            forall|k: Seq<char>| #[trigger]
                counter_vecs@.contains_key(k) ==> counter_vec_labels(counter_vecs@[k].1)
                    == counter_vecs@[k].0,
            forall|k: Seq<char>| #[trigger]
                gauge_vecs@.contains_key(k) ==> gauge_vec_labels(gauge_vecs@[k].1)
                    == gauge_vecs@[k].0,
            forall|k: Seq<char>| #[trigger]
                histogram_vecs@.contains_key(k) ==> histogram_vec_labels(histogram_vecs@[k].1)
                    == histogram_vecs@[k].0,
        ensures
            m.counters() == counters@,
            m.counter_vecs() == counter_vecs@,
            m.gauges() == gauges@,
            m.gauge_vecs() == gauge_vecs@,
            m.histograms() == histograms@,
            m.histogram_vecs() == histogram_vecs@,
    {
        PromManager { counters, counter_vecs, gauges, gauge_vecs, histograms, histogram_vecs }
    }
}

/// A manager with no metric of any kind.
pub fn get_manager() -> (m: PromManager)
    ensures
        m.counters() == Map::<Seq<char>, (Seq<Seq<char>>, PromCounter)>::empty(),
        m.counter_vecs() == Map::<Seq<char>, (Seq<Seq<char>>, PromCounterVec)>::empty(),
        m.gauges() == Map::<Seq<char>, (Seq<Seq<char>>, PromGauge)>::empty(),
        m.gauge_vecs() == Map::<Seq<char>, (Seq<Seq<char>>, PromGaugeVec)>::empty(),
        m.histograms() == Map::<Seq<char>, (Seq<Seq<char>>, PromHistogram)>::empty(),
        m.histogram_vecs() == Map::<Seq<char>, (Seq<Seq<char>>, PromHistogramVec)>::empty(),
{
    PromManager {
        counters: Registry::new(),
        counter_vecs: Registry::new(),
        gauges: Registry::new(),
        gauge_vecs: Registry::new(),
        histograms: Registry::new(),
        histogram_vecs: Registry::new(),
    }
}

/// Carries out the non-numeric part of `req` on the metric it names: a
/// counter is increased by one here; for a gauge or histogram the registered
/// handle is given back, on which the caller applies the command's value or
/// reads the reply. For a family the member for the command's label values is
/// found (and made on first use) first. A command that names no registered
/// metric of its kind comes to nothing, or to the fallback reply for a read.
/// The manager's tables are not changed.
pub fn handle_command(m: &PromManager, req: Request) -> (a: Action)
    requires
        m.admits(req),
    ensures
        m.answers(req, a),
{
    proof {
        use_type_invariant(m);
    }
    match req {
        Request::IncreaseCounter(name) => match m.counters.get(&name) {
            Some(e) => {
                let mut t = tally(counter_clone(&e.metric));
                counter_inc(&mut t);
                Action::Incremented(t)
            },
            None => Action::Ignored,
        },
        Request::IncreaseCounterVec(name, values) => match m.counter_vecs.get(&name) {
            Some(e) => {
                let mut t = tally(counter_vec_member(&e.metric, &values));
                counter_inc(&mut t);
                Action::IncrementedMember(counter_vec_clone(&e.metric), values, t)
            },
            None => Action::Ignored,
        },
        Request::SetGauge(name) => match m.gauges.get(&name) {
            Some(e) => Action::SetGauge(gauge_clone(&e.metric)),
            None => Action::Ignored,
        },
        Request::GetGauge(name) => match m.gauges.get(&name) {
            Some(e) => Action::ReadGauge(gauge_clone(&e.metric)),
            None => Action::ReplyMissing,
        },
        Request::SetGaugeVec(name, values) => match m.gauge_vecs.get(&name) {
            Some(e) => {
                let member = gauge_vec_member(&e.metric, &values);
                Action::SetGaugeMember(gauge_vec_clone(&e.metric), values, member)
            },
            None => Action::Ignored,
        },
        Request::GetGaugeVec(name, values) => match m.gauge_vecs.get(&name) {
            Some(e) => {
                let member = gauge_vec_member(&e.metric, &values);
                Action::ReadGaugeMember(gauge_vec_clone(&e.metric), values, member)
            },
            None => Action::ReplyMissing,
        },
        Request::ObserveHistogram(name) => match m.histograms.get(&name) {
            Some(e) => Action::Observe(histogram_clone(&e.metric)),
            None => Action::Ignored,
        },
        Request::ObserveHistogramVec(name, values) => match m.histogram_vecs.get(&name) {
            Some(e) => {
                let member = histogram_vec_member(&e.metric, &values);
                Action::ObserveMember(histogram_vec_clone(&e.metric), values, member)
            },
            None => Action::Ignored,
        },
    }
}

} // verus!
