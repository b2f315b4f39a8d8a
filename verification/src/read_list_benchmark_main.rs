//! The small read and list benchmark: one type of one organisation, in one long log.

use crate::bench::{NodeConfig, run_port, standalone};
use crate::read_list_benchmark::{Plan, Stage};
use crate::workers::{Data, Task};
use crate::workload::{BATCHES_PER_AGGREGATE, NUM_AGGREGATES};
use vstd::prelude::*;

verus! {

/// How long each measurement lasts.
pub const TEST_DURATION_SECS: u64 = 15;

/// How long a client waits for an answer.
pub const CLIENTSIDE_TIMEOUT_S: u64 = 30;

/// The settings of the server: on its own, without TLS, with a single shard.
#[verifier::allow_in_spec]
pub fn server_config() -> NodeConfig
    returns
        (NodeConfig {
            log_level: Some("warn"),
            require_client_identity: true,
            insecure_allow_plaintext_auth: true,
            list_page_size: Some(500),
            list_max_duration_ms: Some(5_000),
            ..standalone(1)
        }),
{
    NodeConfig {
        log_level: Some("warn"),
        require_client_identity: true,
        insecure_allow_plaintext_auth: true,
        list_page_size: Some(500),
        list_max_duration_ms: Some(5_000),
        ..standalone(1)
    }
}

/// The parts of the benchmark, in order.
pub open spec fn stages() -> Seq<Stage> {
    seq![
        Stage::Fill {
            connections: 100,
            aggregates: NUM_AGGREGATES,
            batches: BATCHES_PER_AGGREGATE,
        },
        Stage::Pause(1_000),
        Stage::Measure { label: "Read throughput", task: Task::Read, connections: 200 },
        Stage::Pause(1_000),
        Stage::Measure { label: "List throughput", task: Task::ListAggregates, connections: 50 },
        Stage::Pause(1_000),
        Stage::Mixed {
            readers: 150,
            writers: 50,
            read_label: "Mixed-read",
            write_label: "Mixed-write",
        },
        Stage::Pause(1_000),
        Stage::Measure { label: "List pressure", task: Task::ListAggregates, connections: 200 },
    ]
}

/// The benchmark over one type of one organisation.
pub fn run() -> (r: Plan)
    ensures
        r.data == Data::Narrow,
        r.port == run_port(10100, 0),
        r.label@ == "read-list-bench"@,
        r.config == server_config(),
        r.duration_secs == TEST_DURATION_SECS,
        r.timeout_secs == CLIENTSIDE_TIMEOUT_S,
        r.stages@ == stages(),
{
    let stages: Vec<Stage> = vec![
        Stage::Fill {
            connections: 100,
            aggregates: NUM_AGGREGATES,
            batches: BATCHES_PER_AGGREGATE,
        },
        Stage::Pause(1_000),
        Stage::Measure { label: "Read throughput", task: Task::Read, connections: 200 },
        Stage::Pause(1_000),
        Stage::Measure { label: "List throughput", task: Task::ListAggregates, connections: 50 },
        Stage::Pause(1_000),
        Stage::Mixed {
            readers: 150,
            writers: 50,
            read_label: "Mixed-read",
            write_label: "Mixed-write",
        },
        Stage::Pause(1_000),
        Stage::Measure { label: "List pressure", task: Task::ListAggregates, connections: 200 },
    ];
    assert(stages@ =~= self::stages());
    Plan {
        data: Data::Narrow,
        port: run_port(10100, 0),
        label: "read-list-bench",
        config: server_config(),
        duration_secs: TEST_DURATION_SECS,
        timeout_secs: CLIENTSIDE_TIMEOUT_S,
        stages,
    }
}

} // verus!
