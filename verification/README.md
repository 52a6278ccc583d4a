# datafusion_bridge

The native side of a bridge between a Java search server and the DataFusion query engine.

- `src/` is the library, verified with Verus: the memory circuit breaker, the cached memory
  statistics, the registry of in-flight queries, the stream that crosses runtimes, the setup of each
  bridge call, and the texts and figures that go over the bridge. Modules whose names end in `_laws`
  state what holds across calls.
- `app/` is ordinary Rust around it: the functions that Java calls, the Tokio runtimes, the timers
  and the process-wide state. It performs what the library decides.
- `tests/` runs the library.

Double-precision arithmetic is worked out on integers (`src/double.rs`), so that the sizes in
messages have exact contracts.
