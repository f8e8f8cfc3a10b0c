//! Making and registering the metrics that an exporter starts with.

use vstd::prelude::*;
use crate::manager::{action_desc, command_acts_iff_metric_registered, Action, MetricKind, PromManager, Request};
use crate::metrics::{
    counter_desc, counter_vec_desc, counter_vec_labels, gauge_desc, gauge_vec_desc,
    gauge_vec_labels, histogram_desc, histogram_vec_desc, histogram_vec_labels,
    register_counter, register_counter_vec, register_gauge, register_gauge_vec,
    register_histogram, register_histogram_vec, valid_description, Refusal, PromCounter, PromCounterVec,
    PromGauge, PromGaugeVec, PromHistogram, PromHistogramVec,
};
use crate::registry::Registry;

verus! {

/// A plain metric to make: its name and help text.
pub struct MetricDef {
    pub name: String,
    pub help: String,
}

/// A metric family to make: its name, help text and label names.
pub struct MetricVecDef {
    pub name: String,
    pub help: String,
    pub labels: Vec<String>,
}

/// The metrics to make, by kind, in the order in which they are made.
pub struct MetricDefs {
    pub counters: Vec<MetricDef>,
    pub counter_vecs: Vec<MetricVecDef>,
    pub gauges: Vec<MetricDef>,
    pub gauge_vecs: Vec<MetricVecDef>,
    pub histograms: Vec<MetricDef>,
    pub histogram_vecs: Vec<MetricVecDef>,
}

/// Why the metrics could not all be set up: the definition at this position
/// of this kind is not a valid description, or `prometheus` would not
/// register the metric made from it.
#[derive(Clone, Copy, Debug, PartialEq, Eq, Structural)]
pub enum SetupError {
    InvalidDefinition(MetricKind, usize),
    RegistrationRefused(MetricKind, usize),
}

enum Failure {
    Invalid(usize),
    Refused(usize, Refusal),
}

/// A plain definition that `prometheus` accepts.
pub open spec fn def_valid(d: MetricDef) -> bool {
    valid_description(d.name@, d.help@, Seq::empty())
}

/// A family definition that `prometheus` accepts.
pub open spec fn vec_def_valid(d: MetricVecDef) -> bool {
    valid_description(d.name@, d.help@, d.labels.deep_view())
}

/// A definition as the tables see it: name, help text and label names.
pub type DefEntry = (Seq<char>, Seq<char>, Seq<Seq<char>>);

/// The name, help text and (no) label names of each plain definition.
pub open spec fn def_entries(ds: Seq<MetricDef>) -> Seq<DefEntry> {
    ds.map_values(|d: MetricDef| (d.name@, d.help@, Seq::<Seq<char>>::empty()))
}

/// The name, help text and label names of each family definition.
pub open spec fn vec_def_entries(ds: Seq<MetricVecDef>) -> Seq<DefEntry> {
    ds.map_values(|d: MetricVecDef| (d.name@, d.help@, d.labels.deep_view()))
}

/// `ds[i]` is named `k`.
pub open spec fn named(ds: Seq<DefEntry>, i: int, k: Seq<char>) -> bool {
    0 <= i < ds.len() && ds[i].0 == k
}

/// `ds[i]` is the last of `ds` named `k`.
pub open spec fn last_named(ds: Seq<DefEntry>, i: int, k: Seq<char>) -> bool {
    &&& named(ds, i, k)
    &&& forall|j: int| i < j < ds.len() ==> ds[j].0 != k
}

/// A table made from the definitions `ds`, one after the other, where `desc`
/// gives the name and help text a handle was made with: it holds exactly
/// their names, each with the label names of the last definition of that
/// name and a handle made with that definition's name and help text.
pub open spec fn made_from<M>(
    table: Map<Seq<char>, (Seq<Seq<char>>, M)>,
    ds: Seq<DefEntry>,
    desc: spec_fn(M) -> (Seq<char>, Seq<char>),
) -> bool {
    &&& forall|k: Seq<char>| #[trigger]
        table.contains_key(k) <==> exists|i: int| named(ds, i, k)
    &&& forall|k: Seq<char>| #[trigger]
        table.contains_key(k) ==> exists|i: int|
            {
                &&& last_named(ds, i, k)
                &&& table[k].0 == ds[i].2
                &&& desc(table[k].1) == (ds[i].0, ds[i].1)
            }
}

proof fn lemma_made_from_push<M>(
    table: Map<Seq<char>, (Seq<Seq<char>>, M)>,
    ds: Seq<DefEntry>,
    e: DefEntry,
    m: M,
    desc: spec_fn(M) -> (Seq<char>, Seq<char>),
)
    requires
        made_from(table, ds, desc),
        desc(m) == (e.0, e.1),
    ensures
        made_from(table.insert(e.0, (e.2, m)), ds.push(e), desc),
{
    let name = e.0;
    let t2 = table.insert(name, (e.2, m));
    let d2 = ds.push(e);
    let last = ds.len() as int;
    assert(named(d2, last, name));
    assert forall|k: Seq<char>| #[trigger]
        t2.contains_key(k) <==> exists|i: int| named(d2, i, k) by {
        if k != name {
            if t2.contains_key(k) {
                let i = choose|i: int| named(ds, i, k);
                assert(named(d2, i, k));
            }
            if exists|i: int| named(d2, i, k) {
                let i = choose|i: int| named(d2, i, k);
                assert(named(ds, i, k));
            }
        }
    }
    assert forall|k: Seq<char>| #[trigger]
        t2.contains_key(k) implies exists|i: int|
            {
                &&& last_named(d2, i, k)
                &&& t2[k].0 == d2[i].2
                &&& desc(t2[k].1) == (d2[i].0, d2[i].1)
            } by {
        if k == name {
            assert(last_named(d2, last, k));
        } else {
            let i = choose|i: int|
                {
                    &&& last_named(ds, i, k)
                    &&& table[k].0 == ds[i].2
                    &&& desc(table[k].1) == (ds[i].0, ds[i].1)
                };
            assert(last_named(d2, i, k));
        }
    }
}

/// One step of making a table: after the definitions before `i`, adding the
/// metric made from definition `i` gives the table made from those up to `i`.
proof fn lemma_made_from_step<M>(
    table: Map<Seq<char>, (Seq<Seq<char>>, M)>,
    ds: Seq<DefEntry>,
    i: int,
    m: M,
    desc: spec_fn(M) -> (Seq<char>, Seq<char>),
)
    requires
        0 <= i < ds.len(),
        made_from(table, ds.take(i), desc),
        desc(m) == (ds[i].0, ds[i].1),
    ensures
        made_from(table.insert(ds[i].0, (ds[i].2, m)), ds.take(i + 1), desc),
{
    lemma_made_from_push(table, ds.take(i), ds[i], m, desc);
    assert(ds.take(i).push(ds[i]) =~= ds.take(i + 1));
}

/// Settles one registration by what `prometheus` answered: a metric that was
/// registered goes into the table under its name; on a refusal the table
/// stays as it was.
pub fn record_registration<M>(
    table: &mut Registry<M>,
    name: String,
    labels: Vec<String>,
    registration: Result<M, prometheus_exporter::prometheus::Error>,
) -> (registered: bool)
    ensures
        registered == registration is Ok,
        registration matches Ok(m) ==> final(table)@ == old(table)@.insert(
            name@,
            (labels.deep_view(), m),
        ),
        registration is Err ==> final(table)@ == old(table)@,
{
    match registration {
        Ok(m) => {
            table.insert(name, labels, m);
            true
        },
        Err(_) => false,
    }
}

/// A plain metric as setup makes it: from a name and a help text.
trait PlainMetric: Sized {
    /// The name and help text the metric was made with.
    spec fn desc(self) -> (Seq<char>, Seq<char>);

    /// Makes the metric and registers it with `prometheus`. Making fails
    /// (the outer `Err`) exactly when the description is not valid; the
    /// inner result is that of registering.
    fn make_registered(name: &str, help: &str) -> (r: Result<
        Result<Self, Refusal>,
        prometheus_exporter::prometheus::Error,
    >)
        ensures
            r is Ok <==> valid_description(name@, help@, seq![]),
            r matches Ok(Ok(m)) ==> m.desc() == (name@, help@),
            r matches Ok(Err(f)) ==> f.refused() == (name@, help@, Seq::<Seq<char>>::empty()),
    ;
}

/// A metric family as setup makes it: from a name, a help text and label
/// names.
trait FamilyMetric: Sized {
    /// The name and help text the family was made with.
    spec fn desc(self) -> (Seq<char>, Seq<char>);

    /// The label names the family was made with.
    spec fn labels(self) -> Seq<Seq<char>>;

    /// Makes the family and registers it with `prometheus`. Making fails
    /// (the outer `Err`) exactly when the description is not valid; the
    /// inner result is that of registering.
    fn make_registered(name: &str, help: &str, labels: &Vec<String>) -> (r: Result<
        Result<Self, Refusal>,
        prometheus_exporter::prometheus::Error,
    >)
        ensures
            r is Ok <==> valid_description(name@, help@, labels.deep_view()),
            r matches Ok(Ok(v)) ==> v.desc() == (name@, help@) && v.labels() == labels.deep_view(),
            r matches Ok(Err(f)) ==> f.refused() == (name@, help@, labels.deep_view()),
    ;
}

impl PlainMetric for PromCounter {
    spec fn desc(self) -> (Seq<char>, Seq<char>) {
        counter_desc(self)
    }

    fn make_registered(name: &str, help: &str) -> (r: Result<
        Result<Self, Refusal>,
        prometheus_exporter::prometheus::Error,
    >) {
        register_counter(name, help)
    }
}

impl PlainMetric for PromGauge {
    spec fn desc(self) -> (Seq<char>, Seq<char>) {
        gauge_desc(self)
    }

    fn make_registered(name: &str, help: &str) -> (r: Result<
        Result<Self, Refusal>,
        prometheus_exporter::prometheus::Error,
    >) {
        register_gauge(name, help)
    }
}

impl PlainMetric for PromHistogram {
    spec fn desc(self) -> (Seq<char>, Seq<char>) {
        histogram_desc(self)
    }

    fn make_registered(name: &str, help: &str) -> (r: Result<
        Result<Self, Refusal>,
        prometheus_exporter::prometheus::Error,
    >) {
        register_histogram(name, help)
    }
}

impl FamilyMetric for PromCounterVec {
    spec fn desc(self) -> (Seq<char>, Seq<char>) {
        counter_vec_desc(self)
    }

    spec fn labels(self) -> Seq<Seq<char>> {
        counter_vec_labels(self)
    }

    fn make_registered(name: &str, help: &str, labels: &Vec<String>) -> (r: Result<
        Result<Self, Refusal>,
        prometheus_exporter::prometheus::Error,
    >) {
        register_counter_vec(name, help, labels)
    }
}

impl FamilyMetric for PromGaugeVec {
    spec fn desc(self) -> (Seq<char>, Seq<char>) {
        gauge_vec_desc(self)
    }

    spec fn labels(self) -> Seq<Seq<char>> {
        gauge_vec_labels(self)
    }

    fn make_registered(name: &str, help: &str, labels: &Vec<String>) -> (r: Result<
        Result<Self, Refusal>,
        prometheus_exporter::prometheus::Error,
    >) {
        register_gauge_vec(name, help, labels)
    }
}

impl FamilyMetric for PromHistogramVec {
    spec fn desc(self) -> (Seq<char>, Seq<char>) {
        histogram_vec_desc(self)
    }

    spec fn labels(self) -> Seq<Seq<char>> {
        histogram_vec_labels(self)
    }

    fn make_registered(name: &str, help: &str, labels: &Vec<String>) -> (r: Result<
        Result<Self, Refusal>,
        prometheus_exporter::prometheus::Error,
    >) {
        register_histogram_vec(name, help, labels)
    }
}

/// Makes and registers the plain metrics of `ds`, in order, stopping at the
/// first failure.
fn make_plain<M: PlainMetric>(ds: &Vec<MetricDef>) -> (r: Result<Registry<M>, Failure>)
    ensures
        match r {
            Ok(t) => {
                &&& made_from(t@, def_entries(ds@), |m: M| m.desc())
                &&& forall|j: int| 0 <= j < ds.len() ==> def_valid(#[trigger] ds[j])
            },
            Err(Failure::Invalid(i)) => {
                &&& i < ds.len()
                &&& !def_valid(ds[i as int])
                &&& forall|j: int| 0 <= j < i ==> def_valid(#[trigger] ds[j])
            },
            Err(Failure::Refused(i, f)) => {
                &&& i < ds.len()
                &&& def_valid(ds[i as int])
                &&& f.refused() == def_entries(ds@)[i as int]
                &&& forall|j: int| 0 <= j < i ==> def_valid(#[trigger] ds[j])
            },
        },
{
    let ghost desc = |m: M| m.desc();
    let mut t: Registry<M> = Registry::new();
    let n = ds.len();
    let mut i: usize = 0;
    assert(def_entries(ds@).take(0) =~= Seq::empty());
    while i < n
        invariant
            n == ds.len(),
            i <= n,
            desc == (|m: M| m.desc()),
            made_from(t@, def_entries(ds@).take(i as int), desc),
            forall|j: int| 0 <= j < i ==> def_valid(#[trigger] ds[j]),
        decreases n - i,
    {
        let d = &ds[i];
        let registration = match M::make_registered(d.name.as_str(), d.help.as_str()) {
            Ok(r) => r,
            Err(_) => {
                return Err(Failure::Invalid(i));
            },
        };
        let labels: Vec<String> = Vec::new();
        proof {
            assert(labels.deep_view() =~= Seq::<Seq<char>>::empty());
            if registration is Ok {
                lemma_made_from_step(t@, def_entries(ds@), i as int, registration->Ok_0, desc);
            }
        }
        match registration {
            Ok(m) => t.insert(d.name.clone(), labels, m),
            Err(f) => {
                return Err(Failure::Refused(i, f));
            },
        }
        i = i + 1;
    }
    assert(def_entries(ds@).take(n as int) =~= def_entries(ds@));
    Ok(t)
}

/// Makes and registers the metric families of `ds`, in order, stopping at
/// the first failure. Each is stored with the label names it was made with.
fn make_families<M: FamilyMetric>(ds: &Vec<MetricVecDef>) -> (r: Result<Registry<M>, Failure>)
    ensures
        match r {
            Ok(t) => {
                &&& made_from(t@, vec_def_entries(ds@), |m: M| m.desc())
                &&& forall|k: Seq<char>| #[trigger] t@.contains_key(k) ==> t@[k].1.labels() == t@[k].0
                &&& forall|j: int| 0 <= j < ds.len() ==> vec_def_valid(#[trigger] ds[j])
            },
            Err(Failure::Invalid(i)) => {
                &&& i < ds.len()
                &&& !vec_def_valid(ds[i as int])
                &&& forall|j: int| 0 <= j < i ==> vec_def_valid(#[trigger] ds[j])
            },
            Err(Failure::Refused(i, f)) => {
                &&& i < ds.len()
                &&& vec_def_valid(ds[i as int])
                &&& f.refused() == vec_def_entries(ds@)[i as int]
                &&& forall|j: int| 0 <= j < i ==> vec_def_valid(#[trigger] ds[j])
            },
        },
{
    let ghost desc = |m: M| m.desc();
    let mut t: Registry<M> = Registry::new();
    let n = ds.len();
    let mut i: usize = 0;
    assert(vec_def_entries(ds@).take(0) =~= Seq::empty());
    while i < n
        invariant
            n == ds.len(),
            i <= n,
            desc == (|m: M| m.desc()),
            made_from(t@, vec_def_entries(ds@).take(i as int), desc),
            forall|k: Seq<char>| #[trigger] t@.contains_key(k) ==> t@[k].1.labels() == t@[k].0,
            forall|j: int| 0 <= j < i ==> vec_def_valid(#[trigger] ds[j]),
        decreases n - i,
    {
        let d = &ds[i];
        let registration = match M::make_registered(d.name.as_str(), d.help.as_str(), &d.labels) {
            Ok(r) => r,
            Err(_) => {
                return Err(Failure::Invalid(i));
            },
        };
        let labels = d.labels.clone();
        proof {
            assert(labels.deep_view() =~= d.labels.deep_view());
            if registration is Ok {
                lemma_made_from_step(
                    t@,
                    vec_def_entries(ds@),
                    i as int,
                    registration->Ok_0,
                    desc,
                );
            }
        }
        match registration {
            Ok(m) => t.insert(d.name.clone(), labels, m),
            Err(f) => {
                return Err(Failure::Refused(i, f));
            },
        }
        i = i + 1;
    }
    assert(vec_def_entries(ds@).take(n as int) =~= vec_def_entries(ds@));
    Ok(t)
}

impl MetricKind {
    /// Where the kind stands in the order in which metrics are made.
    pub open spec fn rank(self) -> int {
        match self {
            MetricKind::Counter => 0,
            MetricKind::CounterVec => 1,
            MetricKind::Gauge => 2,
            MetricKind::GaugeVec => 3,
            MetricKind::Histogram => 4,
            MetricKind::HistogramVec => 5,
        }
    }
}

impl MetricDefs {
    /// How many definitions of kind `k` there are.
    pub open spec fn count(&self, k: MetricKind) -> int {
        match k {
            MetricKind::Counter => self.counters.len() as int,
            MetricKind::CounterVec => self.counter_vecs.len() as int,
            MetricKind::Gauge => self.gauges.len() as int,
            MetricKind::GaugeVec => self.gauge_vecs.len() as int,
            MetricKind::Histogram => self.histograms.len() as int,
            MetricKind::HistogramVec => self.histogram_vecs.len() as int,
        }
    }

    /// The definition at `i` of kind `k` is one that `prometheus` accepts.
    pub open spec fn valid_at(&self, k: MetricKind, i: int) -> bool {
        match k {
            MetricKind::Counter => def_valid(self.counters[i]),
            MetricKind::CounterVec => vec_def_valid(self.counter_vecs[i]),
            MetricKind::Gauge => def_valid(self.gauges[i]),
            MetricKind::GaugeVec => vec_def_valid(self.gauge_vecs[i]),
            MetricKind::Histogram => def_valid(self.histograms[i]),
            MetricKind::HistogramVec => vec_def_valid(self.histogram_vecs[i]),
        }
    }

    /// Every definition made before the one at `i` of kind `k` is valid.
    pub open spec fn valid_before(&self, k: MetricKind, i: int) -> bool {
        forall|k2: MetricKind, j: int|
            0 <= j < self.count(k2) && (k2.rank() < k.rank() || (k2 == k && j < i))
                ==> #[trigger] self.valid_at(k2, j)
    }

    /// Every definition is valid.
    pub open spec fn all_valid(&self) -> bool {
        forall|k: MetricKind, j: int| 0 <= j < self.count(k) ==> #[trigger] self.valid_at(k, j)
    }
}

/// The manager holds exactly the metrics made from `defs`: for each kind,
/// the names defined, each with the label names of its last definition and
/// a handle made with that definition's name and help text.
pub open spec fn holds_defs(m: &PromManager, defs: &MetricDefs) -> bool {
    &&& made_from(m.counters(), def_entries(defs.counters@), |c: PromCounter| counter_desc(c))
    &&& made_from(
        m.counter_vecs(),
        vec_def_entries(defs.counter_vecs@),
        |v: PromCounterVec| counter_vec_desc(v),
    )
    &&& made_from(m.gauges(), def_entries(defs.gauges@), |g: PromGauge| gauge_desc(g))
    &&& made_from(
        m.gauge_vecs(),
        vec_def_entries(defs.gauge_vecs@),
        |v: PromGaugeVec| gauge_vec_desc(v),
    )
    &&& made_from(
        m.histograms(),
        def_entries(defs.histograms@),
        |h: PromHistogram| histogram_desc(h),
    )
    &&& made_from(
        m.histogram_vecs(),
        vec_def_entries(defs.histogram_vecs@),
        |v: PromHistogramVec| histogram_vec_desc(v),
    )
}

/// The answer of `register_metrics` to `defs`: a manager that holds the
/// metrics made from them, all definitions being valid; or the first
/// definition, in the order of making, that is not valid or whose metric
/// `prometheus` would not register, every definition before it being valid.
pub open spec fn setup_outcome(defs: &MetricDefs, r: Result<PromManager, SetupError>) -> bool {
    match r {
        Ok(m) => defs.all_valid() && holds_defs(&m, defs),
        Err(SetupError::InvalidDefinition(k, i)) => {
            &&& i < defs.count(k)
            &&& !defs.valid_at(k, i as int)
            &&& defs.valid_before(k, i as int)
        },
        Err(SetupError::RegistrationRefused(k, i)) => {
            &&& i < defs.count(k)
            &&& defs.valid_at(k, i as int)
            &&& defs.valid_before(k, i as int)
        },
    }
}

fn to_setup_error(k: MetricKind, f: Failure) -> (e: SetupError)
    ensures
        match f {
            Failure::Invalid(i) => e == SetupError::InvalidDefinition(k, i),
            Failure::Refused(i, _) => e == SetupError::RegistrationRefused(k, i),
        },
{
    match f {
        Failure::Invalid(i) => SetupError::InvalidDefinition(k, i),
        Failure::Refused(i, _) => SetupError::RegistrationRefused(k, i),
    }
}

/// Makes each metric that `defs` defines, registers it with `prometheus`, and
/// puts it in a manager under its name: counters first, then counter
/// families, gauges, gauge families, histograms and histogram families, each
/// kind in the order given. Stops at the first definition that fails.
pub fn register_metrics(defs: &MetricDefs) -> (r: Result<PromManager, SetupError>)
    ensures
        setup_outcome(defs, r),
{
    let counters = match make_plain::<PromCounter>(&defs.counters) {
        Ok(t) => t,
        Err(f) => {
            return Err(to_setup_error(MetricKind::Counter, f));
        },
    };
    let counter_vecs = match make_families::<PromCounterVec>(&defs.counter_vecs) {
        Ok(t) => t,
        Err(f) => {
            return Err(to_setup_error(MetricKind::CounterVec, f));
        },
    };
    let gauges = match make_plain::<PromGauge>(&defs.gauges) {
        Ok(t) => t,
        Err(f) => {
            return Err(to_setup_error(MetricKind::Gauge, f));
        },
    };
    let gauge_vecs = match make_families::<PromGaugeVec>(&defs.gauge_vecs) {
        Ok(t) => t,
        Err(f) => {
            return Err(to_setup_error(MetricKind::GaugeVec, f));
        },
    };
    let histograms = match make_plain::<PromHistogram>(&defs.histograms) {
        Ok(t) => t,
        Err(f) => {
            return Err(to_setup_error(MetricKind::Histogram, f));
        },
    };
    let histogram_vecs = match make_families::<PromHistogramVec>(&defs.histogram_vecs) {
        Ok(t) => t,
        Err(f) => {
            return Err(to_setup_error(MetricKind::HistogramVec, f));
        },
    };
    Ok(PromManager::from_tables(counters, counter_vecs, gauges, gauge_vecs, histograms, histogram_vecs))
}

impl MetricDefs {
    /// The definitions of kind `k`, as the tables see them.
    pub open spec fn entries(&self, k: MetricKind) -> Seq<DefEntry> {
        match k {
            MetricKind::Counter => def_entries(self.counters@),
            MetricKind::CounterVec => vec_def_entries(self.counter_vecs@),
            MetricKind::Gauge => def_entries(self.gauges@),
            MetricKind::GaugeVec => vec_def_entries(self.gauge_vecs@),
            MetricKind::Histogram => def_entries(self.histograms@),
            MetricKind::HistogramVec => vec_def_entries(self.histogram_vecs@),
        }
    }

    /// Whether a metric of kind `k` named `name` is defined.
    pub open spec fn defines(&self, k: MetricKind, name: Seq<char>) -> bool {
        exists|i: int| named(self.entries(k), i, name)
    }

    /// The help text of the last definition of kind `k` named `name`.
    pub open spec fn help_of(&self, k: MetricKind, name: Seq<char>) -> Seq<char> {
        let i = choose|i: int| last_named(self.entries(k), i, name);
        self.entries(k)[i].1
    }
}

/// After setup, a command acts exactly on the metrics that were defined: one
/// that names a defined metric of its kind does something, and one that
/// names anything else is ignored or answered as missing.
pub proof fn set_up_metrics_are_served(
    defs: MetricDefs,
    m: PromManager,
    req: Request,
    a: Action,
)
    requires
        setup_outcome(&defs, Ok(m)),
        m.answers(req, a),
    ensures
        (a is Ignored || a is ReplyMissing) <==> !defs.defines(req.target().0, req.target().1),
{
    command_acts_iff_metric_registered(m, req, a);
    lemma_has_iff_defines(defs, m, req.target().0, req.target().1);
}

/// Definitions that are all valid are never refused as invalid: setup then
/// either succeeds or stops at a registration that `prometheus` refused.
pub proof fn valid_definitions_pass_validation(defs: MetricDefs, r: Result<PromManager, SetupError>)
    requires
        setup_outcome(&defs, r),
        defs.all_valid(),
    ensures
        !(r matches Err(SetupError::InvalidDefinition(_, _))),
{
    if let Err(SetupError::InvalidDefinition(k, i)) = r {
        assert(defs.valid_at(k, i as int));
    }
}

proof fn lemma_last_named_unique(ds: Seq<DefEntry>, i: int, j: int, k: Seq<char>)
    requires
        last_named(ds, i, k),
        last_named(ds, j, k),
    ensures
        i == j,
{
}

/// In a manager set up from `defs`, a metric of a kind is registered under a
/// name exactly when it is defined, and it was made with the name and the
/// help text of the last definition of that name.
proof fn lemma_has_iff_defines(defs: MetricDefs, m: PromManager, k: MetricKind, name: Seq<char>)
    requires
        setup_outcome(&defs, Ok(m)),
    ensures
        m.has(k, name) == defs.defines(k, name),
        m.has(k, name) ==> exists|i: int| last_named(defs.entries(k), i, name),
{
    assert(holds_defs(&m, &defs));
    match k {
        MetricKind::Counter => {
            let ds = def_entries(defs.counters@);
            assert(defs.entries(k) == ds);
            assert(m.counters().contains_key(name) == exists|i: int| named(ds, i, name));
        },
        MetricKind::CounterVec => {
            let ds = vec_def_entries(defs.counter_vecs@);
            assert(defs.entries(k) == ds);
            assert(m.counter_vecs().contains_key(name) == exists|i: int| named(ds, i, name));
        },
        MetricKind::Gauge => {
            let ds = def_entries(defs.gauges@);
            assert(defs.entries(k) == ds);
            assert(m.gauges().contains_key(name) == exists|i: int| named(ds, i, name));
        },
        MetricKind::GaugeVec => {
            let ds = vec_def_entries(defs.gauge_vecs@);
            assert(defs.entries(k) == ds);
            assert(m.gauge_vecs().contains_key(name) == exists|i: int| named(ds, i, name));
        },
        MetricKind::Histogram => {
            let ds = def_entries(defs.histograms@);
            assert(defs.entries(k) == ds);
            assert(m.histograms().contains_key(name) == exists|i: int| named(ds, i, name));
        },
        MetricKind::HistogramVec => {
            let ds = vec_def_entries(defs.histogram_vecs@);
            assert(defs.entries(k) == ds);
            assert(m.histogram_vecs().contains_key(name) == exists|i: int| named(ds, i, name));
        },
    }
}

/// After setup, the metric that a command on a defined metric acts on was
/// made with the command's name and the help text of the last definition of
/// that name and kind.
pub proof fn served_metric_is_the_defined_one(
    defs: MetricDefs,
    m: PromManager,
    req: Request,
    a: Action,
)
    requires
        setup_outcome(&defs, Ok(m)),
        m.answers(req, a),
        defs.defines(req.target().0, req.target().1),
    ensures
        action_desc(a) == Some((req.target().1, defs.help_of(req.target().0, req.target().1))),
{
    let k = req.target().0;
    let name = req.target().1;
    let ds = defs.entries(k);
    lemma_has_iff_defines(defs, m, k, name);
    let j = choose|j: int| last_named(ds, j, name);
    assert(defs.help_of(k, name) == ds[j].1);
    match k {
        MetricKind::Counter => {
            let i = choose|i: int|
                {
                    &&& last_named(ds, i, name)
                    &&& m.counters()[name].0 == ds[i].2
                    &&& counter_desc(m.counters()[name].1) == (ds[i].0, ds[i].1)
                };
            lemma_last_named_unique(ds, i, j, name);
        },
        MetricKind::CounterVec => {
            let i = choose|i: int|
                {
                    &&& last_named(ds, i, name)
                    &&& m.counter_vecs()[name].0 == ds[i].2
                    &&& counter_vec_desc(m.counter_vecs()[name].1) == (ds[i].0, ds[i].1)
                };
            lemma_last_named_unique(ds, i, j, name);
        },
        MetricKind::Gauge => {
            let i = choose|i: int|
                {
                    &&& last_named(ds, i, name)
                    &&& m.gauges()[name].0 == ds[i].2
                    &&& gauge_desc(m.gauges()[name].1) == (ds[i].0, ds[i].1)
                };
            lemma_last_named_unique(ds, i, j, name);
        },
        MetricKind::GaugeVec => {
            let i = choose|i: int|
                {
                    &&& last_named(ds, i, name)
                    &&& m.gauge_vecs()[name].0 == ds[i].2
                    &&& gauge_vec_desc(m.gauge_vecs()[name].1) == (ds[i].0, ds[i].1)
                };
            lemma_last_named_unique(ds, i, j, name);
        },
        MetricKind::Histogram => {
            let i = choose|i: int|
                {
                    &&& last_named(ds, i, name)
                    &&& m.histograms()[name].0 == ds[i].2
                    &&& histogram_desc(m.histograms()[name].1) == (ds[i].0, ds[i].1)
                };
            lemma_last_named_unique(ds, i, j, name);
        },
        MetricKind::HistogramVec => {
            let i = choose|i: int|
                {
                    &&& last_named(ds, i, name)
                    &&& m.histogram_vecs()[name].0 == ds[i].2
                    &&& histogram_vec_desc(m.histogram_vecs()[name].1) == (ds[i].0, ds[i].1)
                };
            lemma_last_named_unique(ds, i, j, name);
        },
    }
}

} // verus!
