//! Named Prometheus metrics behind one manager: registration of counters,
//! gauges and histograms (plain and labelled), and the dispatch of commands
//! that name a metric.

pub mod metrics;
pub mod registry;
pub mod manager;
pub mod setup;
