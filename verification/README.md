# celeriant_integration_tests

Integration tests and benchmarks of the Celeriant event store, with their logic verified by Verus.

A test of a distributed store is mostly waiting: start two nodes, cut a link, write, and look until
something has come or it is too late. What to do, what to expect and what it means lies in `src/`,
and is proved there. `app/` runs it: it has the clock, the tasks, the files and the sockets.

## Layout

| Where | What |
|---|---|
| `src/registry.rs`, `src/catalog.rs`, `src/catalog_names.rs` | categories, filters, the list of all tests, and that no two have the same name |
| `src/model.rs`, `src/bench.rs`, `src/reply.rs` | writes and refusals, nodes and settings, what a bench answers |
| `src/expect.rs`, `src/script.rs` | expectations, and the engine that takes a script through a bench |
| `src/report.rs`, `src/figures.rs` | replies in words, and the figures that the message of a failed step names between curly brackets |
| `src/phase*.rs`, `src/s3_*.rs`, `src/*_main.rs` | the scripted scenarios |
| `src/pool_test.rs`, `src/reference_account_service.rs` | scenarios of the connection pool and the account service |
| `src/loops.rs`, `src/segments.rs`, `src/sorting.rs`, `src/text.rs` | loops, files of a data directory, sorting, text |
| `src/recovery_multiseg_read_amplification.rs`, `src/promotion_failure_process_survival.rs`, `src/regression_list_iterator_truncation.rs` | scenarios that decide more than a script can |
| `src/workload.rs`, `src/workers.rs`, `src/stats.rs`, `src/read_list_benchmark*.rs`, `src/rpi_cluster*.rs` | benchmarks |
| `src/codec.rs`, `src/tls.rs` | keys, key files, certificates: the calls into `hex`, `base64`, `rand`, `rustls`, `rustls-pemfile` and `rustls-pki-types` |
| `tests/` | tests on concrete values |
| `app/` | drivers: scripts, the pool, listings, benchmarks, disk, TLS settings, test selection |

## What is proved

- `Run` ends in `Passed` only after every step of its script was met, in order, and `report` says
  what the failed step is to say, with what it got last.
- For a script `x`, `x_passes` proves that `x_steps` passes on a list of replies exactly where
  `x_holds` does, which states the demands directly.
- The loops that a script cannot express are state machines with exact contracts: `Worker`,
  `Filler`, `Sender`, `ListedFill`, `Pour`, `CursorDrain`, `Load`, `Sidecars`, `Quiescence`, `Watcher`, `Driver` and others.
- `compute_result` is the summary of what was measured, and there is only one.

What is taken on trust are the contracts of the functions marked `external_body` in `codec.rs` and
`tls.rs`, each with a comment that says what is claimed.
