# fleet_core

The verified core of a fleet monitoring agent and its collector.

- `src/` — the library, proved with Verus:
  - `config` — the agent configuration, its validation rules and default;
  - `agent` — the agent's cycle as a state machine (report metrics, poll for a
    configuration override, persist or roll back, rest), with the laws that a
    rejected override is never applied and that a valid one is persisted before
    it is applied;
  - `client` — the collector's addresses and how its replies are read;
  - `collector` — the statuses the collector answers with;
  - `probe` — the order of latency measurements (ICMP, then TCP 80 and 443);
  - `service` — the service's configuration from its settings;
  - `metrics`, `error` — plain records and errors.
- `app/` — the program around it: system metrics, pings, HTTP, the SQLite
  store and the collector server. `app collector` runs the collector,
  `app service` the agent configured from its environment, and no argument the
  agent with its default configuration.
- `tests/` — tests of the library.
