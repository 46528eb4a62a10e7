# multi-arch-container-rust

A worker process that periodically logs its configuration and build provenance until it
receives SIGINT or SIGTERM.

- `src/` is the verified library (Verus):
  - `settings.rs`: the configuration model (`AppConfig`, `Settings`, `LogFormat`), its
    defaults, the reading of a built configuration (what it holds at each key, tied to the
    result by the contracts), validation, and `load`.
  - `worker.rs`: the worker loop as a state machine, with its laws.
  - `telemetry.rs`: the decisions of the logging setup and of its shutdown.
- `app/` is the program around it: building the layered configuration
  (`appsettings.json`, then the environment with `__` as section separator), signal
  handling, the async loop that performs the worker's actions, and the
  `tracing`/OpenTelemetry setup.
- `tests/` runs the library on concrete configurations.
