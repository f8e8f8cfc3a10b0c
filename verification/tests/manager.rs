use prometheus_exporter::prometheus;
use yzy_prom::manager::{get_manager, handle_command, Action, MetricKind, PromManager, Request};
use yzy_prom::setup::{register_metrics, MetricDef, MetricDefs, MetricVecDef, SetupError};

fn s(x: &str) -> String {
    x.to_string()
}

fn def(name: &str, help: &str) -> MetricDef {
    MetricDef { name: s(name), help: s(help) }
}

fn vec_def(name: &str, help: &str, labels: &[&str]) -> MetricVecDef {
    MetricVecDef { name: s(name), help: s(help), labels: labels.iter().map(|l| s(l)).collect() }
}

fn no_defs() -> MetricDefs {
    MetricDefs {
        counters: Vec::new(),
        counter_vecs: Vec::new(),
        gauges: Vec::new(),
        gauge_vecs: Vec::new(),
        histograms: Vec::new(),
        histogram_vecs: Vec::new(),
    }
}

fn values(vals: &[&str]) -> Vec<String> {
    vals.iter().map(|v| s(v)).collect()
}

/// The value of the counter `name` (with the given label values, if any) in
/// the default registry.
fn counter_value(name: &str, labels: &[(&str, &str)]) -> Option<f64> {
    for family in prometheus::gather() {
        if family.get_name() != name {
            continue;
        }
        for metric in family.get_metric() {
            let pairs = metric.get_label();
            let all = labels.iter().all(|(k, v)| {
                pairs.iter().any(|p| p.get_name() == *k && p.get_value() == *v)
            });
            if all && pairs.len() == labels.len() {
                return Some(metric.get_counter().get_value());
            }
        }
    }
    None
}

fn set_up(defs: &MetricDefs) -> PromManager {
    match register_metrics(defs) {
        Ok(m) => m,
        Err(e) => panic!("setup failed: {:?}", e),
    }
}

#[test]
fn fresh_manager_ignores_every_command() {
    let m = get_manager();
    assert!(matches!(handle_command(&m, Request::IncreaseCounter(s("a"))), Action::Ignored));
    assert!(matches!(
        handle_command(&m, Request::IncreaseCounterVec(s("a"), values(&["x"]))),
        Action::Ignored
    ));
    assert!(matches!(handle_command(&m, Request::SetGauge(s("a"))), Action::Ignored));
    assert!(matches!(handle_command(&m, Request::GetGauge(s("a"))), Action::ReplyMissing));
    assert!(matches!(
        handle_command(&m, Request::SetGaugeVec(s("a"), values(&["x"]))),
        Action::Ignored
    ));
    assert!(matches!(
        handle_command(&m, Request::GetGaugeVec(s("a"), values(&["x"]))),
        Action::ReplyMissing
    ));
    assert!(matches!(handle_command(&m, Request::ObserveHistogram(s("a"))), Action::Ignored));
    assert!(matches!(
        handle_command(&m, Request::ObserveHistogramVec(s("a"), values(&["x"]))),
        Action::Ignored
    ));
}

#[test]
fn counter_is_increased_by_one_per_command() {
    let mut defs = no_defs();
    defs.counters.push(def("t_counter_inc_total", "how many requests"));
    let m = set_up(&defs);
    assert_eq!(counter_value("t_counter_inc_total", &[]), Some(0.0));
    for _ in 0..2 {
        match handle_command(&m, Request::IncreaseCounter(s("t_counter_inc_total"))) {
            Action::Incremented(_) => {},
            _ => panic!("expected a counter to be increased"),
        }
    }
    assert_eq!(counter_value("t_counter_inc_total", &[]), Some(2.0));
    assert!(matches!(
        handle_command(&m, Request::IncreaseCounter(s("t_counter_other"))),
        Action::Ignored
    ));
}

#[test]
fn counter_family_member_is_increased() {
    let mut defs = no_defs();
    defs.counter_vecs.push(vec_def("t_counter_vec_total", "per endpoint", &["path", "status_code"]));
    let m = set_up(&defs);
    for _ in 0..2 {
        let req = Request::IncreaseCounterVec(s("t_counter_vec_total"), values(&["/abc", "200"]));
        assert!(m.accepts(&req));
        match handle_command(&m, req) {
            Action::IncrementedMember(_, vals, _) => assert_eq!(vals, values(&["/abc", "200"])),
            _ => panic!("expected a counter family member to be increased"),
        }
    }
    assert_eq!(
        counter_value("t_counter_vec_total", &[("path", "/abc"), ("status_code", "200")]),
        Some(2.0)
    );
    assert_eq!(
        counter_value("t_counter_vec_total", &[("path", "/abc"), ("status_code", "404")]),
        None
    );
}

#[test]
fn gauge_set_then_get_reads_the_value() {
    let mut defs = no_defs();
    defs.gauges.push(def("t_gauge_level", "a level"));
    let m = set_up(&defs);
    match handle_command(&m, Request::SetGauge(s("t_gauge_level"))) {
        Action::SetGauge(g) => g.inner.set(4.5),
        _ => panic!("expected a gauge to set"),
    }
    match handle_command(&m, Request::GetGauge(s("t_gauge_level"))) {
        Action::ReadGauge(g) => assert_eq!(g.inner.get(), 4.5),
        _ => panic!("expected a gauge to read"),
    }
    assert!(matches!(handle_command(&m, Request::GetGauge(s("t_gauge_none"))), Action::ReplyMissing));
    assert!(matches!(handle_command(&m, Request::SetGauge(s("t_gauge_none"))), Action::Ignored));
}

#[test]
fn gauge_family_set_then_get_reads_the_value() {
    let mut defs = no_defs();
    defs.gauge_vecs.push(vec_def("t_gauge_vec_level", "levels", &["room"]));
    let m = set_up(&defs);
    match handle_command(&m, Request::SetGaugeVec(s("t_gauge_vec_level"), values(&["kitchen"]))) {
        Action::SetGaugeMember(_, _, g) => g.inner.set(-2.0),
        _ => panic!("expected a gauge family to set"),
    }
    match handle_command(&m, Request::GetGaugeVec(s("t_gauge_vec_level"), values(&["kitchen"]))) {
        Action::ReadGaugeMember(_, vals, g) => {
            assert_eq!(vals, values(&["kitchen"]));
            assert_eq!(g.inner.get(), -2.0);
        },
        _ => panic!("expected a gauge family to read"),
    }
    match handle_command(&m, Request::GetGaugeVec(s("t_gauge_vec_level"), values(&["hall"]))) {
        Action::ReadGaugeMember(_, _, g) => assert_eq!(g.inner.get(), 0.0),
        _ => panic!("expected a gauge family to read"),
    }
    assert!(matches!(
        handle_command(&m, Request::GetGaugeVec(s("t_gauge_vec_none"), values(&["hall"]))),
        Action::ReplyMissing
    ));
}

#[test]
fn histogram_observations_are_counted() {
    let mut defs = no_defs();
    defs.histograms.push(def("t_histogram_latency", "latency"));
    defs.histogram_vecs.push(vec_def("t_histogram_vec_latency", "latency per path", &["path"]));
    let m = set_up(&defs);
    match handle_command(&m, Request::ObserveHistogram(s("t_histogram_latency"))) {
        Action::Observe(h) => h.inner.observe(0.25),
        _ => panic!("expected a histogram"),
    }
    match handle_command(&m, Request::ObserveHistogram(s("t_histogram_latency"))) {
        Action::Observe(h) => {
            assert_eq!(h.inner.get_sample_count(), 1);
            assert_eq!(h.inner.get_sample_sum(), 0.25);
        },
        _ => panic!("expected a histogram"),
    }
    match handle_command(&m, Request::ObserveHistogramVec(s("t_histogram_vec_latency"), values(&["/a"]))) {
        Action::ObserveMember(_, _, h) => h.inner.observe(1.0),
        _ => panic!("expected a histogram family"),
    }
    match handle_command(&m, Request::ObserveHistogramVec(s("t_histogram_vec_latency"), values(&["/a"]))) {
        Action::ObserveMember(_, vals, h) => {
            assert_eq!(vals, values(&["/a"]));
            assert_eq!(h.inner.get_sample_count(), 1);
        },
        _ => panic!("expected a histogram family"),
    }
}

#[test]
fn kinds_have_separate_names() {
    let mut defs = no_defs();
    defs.gauges.push(def("t_kinds_shared", "a gauge"));
    let m = set_up(&defs);
    assert!(matches!(handle_command(&m, Request::IncreaseCounter(s("t_kinds_shared"))), Action::Ignored));
    assert!(matches!(handle_command(&m, Request::ObserveHistogram(s("t_kinds_shared"))), Action::Ignored));
    assert!(matches!(
        handle_command(&m, Request::GetGaugeVec(s("t_kinds_shared"), values(&["x"]))),
        Action::ReplyMissing
    ));
    assert!(matches!(handle_command(&m, Request::GetGauge(s("t_kinds_shared"))), Action::ReadGauge(_)));
}

#[test]
fn wrong_number_of_label_values_is_not_accepted() {
    let mut defs = no_defs();
    defs.counter_vecs.push(vec_def("t_accept_counter_vec", "c", &["a", "b"]));
    defs.gauge_vecs.push(vec_def("t_accept_gauge_vec", "g", &["a"]));
    defs.histogram_vecs.push(vec_def("t_accept_histogram_vec", "h", &["a"]));
    let m = set_up(&defs);
    assert!(!m.accepts(&Request::IncreaseCounterVec(s("t_accept_counter_vec"), values(&["x"]))));
    assert!(m.accepts(&Request::IncreaseCounterVec(s("t_accept_counter_vec"), values(&["x", "y"]))));
    assert!(!m.accepts(&Request::SetGaugeVec(s("t_accept_gauge_vec"), values(&[]))));
    assert!(!m.accepts(&Request::GetGaugeVec(s("t_accept_gauge_vec"), values(&["x", "y"]))));
    assert!(m.accepts(&Request::GetGaugeVec(s("t_accept_gauge_vec"), values(&["x"]))));
    assert!(!m.accepts(&Request::ObserveHistogramVec(s("t_accept_histogram_vec"), values(&[]))));
    assert!(m.accepts(&Request::ObserveHistogramVec(s("t_accept_histogram_vec"), values(&["x"]))));
    // A command on a family that is not registered is always accepted (and ignored).
    assert!(m.accepts(&Request::IncreaseCounterVec(s("t_accept_none"), values(&["x"]))));
    assert!(m.accepts(&Request::GetGauge(s("t_accept_none"))));
}

#[test]
fn histogram_family_with_bucket_label_is_not_accepted() {
    let mut defs = no_defs();
    defs.histogram_vecs.push(vec_def("t_bucket_label_histogram", "h", &["le"]));
    let m = set_up(&defs);
    assert!(!m.accepts(&Request::ObserveHistogramVec(s("t_bucket_label_histogram"), values(&["1"]))));
}

#[test]
fn invalid_metric_name_is_reported() {
    let mut defs = no_defs();
    defs.counters.push(def("t_invalid_ok_total", "fine"));
    defs.counters.push(def("1t_invalid", "starts with a digit"));
    assert_eq!(
        register_metrics(&defs).err(),
        Some(SetupError::InvalidDefinition(MetricKind::Counter, 1))
    );
}

#[test]
fn empty_help_is_reported() {
    let mut defs = no_defs();
    defs.gauges.push(def("t_empty_help", ""));
    assert_eq!(
        register_metrics(&defs).err(),
        Some(SetupError::InvalidDefinition(MetricKind::Gauge, 0))
    );
}

#[test]
fn invalid_or_repeated_label_names_are_reported() {
    let mut defs = no_defs();
    defs.gauge_vecs.push(vec_def("t_bad_label_vec", "g", &["has:colon"]));
    assert_eq!(
        register_metrics(&defs).err(),
        Some(SetupError::InvalidDefinition(MetricKind::GaugeVec, 0))
    );
    let mut defs = no_defs();
    defs.histogram_vecs.push(vec_def("t_twice_label_vec", "h", &["a", "a"]));
    assert_eq!(
        register_metrics(&defs).err(),
        Some(SetupError::InvalidDefinition(MetricKind::HistogramVec, 0))
    );
}

#[test]
fn metric_names_may_hold_colons() {
    let mut defs = no_defs();
    defs.counters.push(def("t_colon:requests_total", "with a colon"));
    assert!(register_metrics(&defs).is_ok());
}

#[test]
fn registering_a_name_twice_is_refused() {
    let mut defs = no_defs();
    defs.counters.push(def("t_twice_total", "first"));
    defs.counters.push(def("t_twice_total", "first"));
    assert_eq!(
        register_metrics(&defs).err(),
        Some(SetupError::RegistrationRefused(MetricKind::Counter, 1))
    );
}

#[test]
fn earlier_kinds_are_made_first() {
    let mut defs = no_defs();
    defs.histograms.push(def("t_order_bad", ""));
    defs.counters.push(def("t_order_bad_2", ""));
    assert_eq!(
        register_metrics(&defs).err(),
        Some(SetupError::InvalidDefinition(MetricKind::Counter, 0))
    );
}

/// The value of the gauge `name` (plain) in the default registry.
fn gauge_value(name: &str) -> Option<f64> {
    for family in prometheus::gather() {
        if family.get_name() == name {
            return family.get_metric().first().map(|m| m.get_gauge().get_value());
        }
    }
    None
}

#[test]
fn each_name_gets_its_own_metric() {
    let mut defs = no_defs();
    defs.gauges.push(def("t_own_gauge_a", "first"));
    defs.gauges.push(def("t_own_gauge_b", "second"));
    let m = set_up(&defs);
    match handle_command(&m, Request::SetGauge(s("t_own_gauge_b"))) {
        Action::SetGauge(g) => g.inner.set(7.0),
        _ => panic!("expected a gauge to set"),
    }
    assert_eq!(gauge_value("t_own_gauge_b"), Some(7.0));
    assert_eq!(gauge_value("t_own_gauge_a"), Some(0.0));
    for family in prometheus::gather() {
        if family.get_name() == "t_own_gauge_b" {
            assert_eq!(family.get_help(), "second");
        }
    }
}
