# yzy_prom

Named Prometheus metrics behind one manager.

- `src/` is the verified library:
  - `metrics.rs`: handles on the `prometheus` metric types and the calls
    into that crate (making and registering, finding family members,
    increasing counters, copying handles), each with the contract it is
    trusted to meet;
  - `registry.rs`: a table of metrics of one kind, found by name;
  - `manager.rs`: the manager of the six kinds of metric, and what a command
    naming a metric does (`handle_command`): it increases counters itself
    and hands back the gauge or histogram (for a family, the member for the
    command's label values) on which the float value is applied;
  - `setup.rs`: making and registering the metrics an exporter starts with
    (`register_metrics`).
- `app/` is the exporter around it: the command type with its float values
  and reply channels, the tokio task that applies the float values and
  sends replies, the HTTP exporter, and the macros that declare metrics.
