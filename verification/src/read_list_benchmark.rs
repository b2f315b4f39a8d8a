//! The read and list benchmark: reads and listings over many aggregates in many segments.
//!
//! The server is filled with 300 000 aggregates, in segments small enough to be rotated many times.
//! Values are small at even positions and large at odd ones, so that both ways of keeping a value
//! are read. Then reads, listings, and reads beside writes are measured, each for the same time.

use crate::bench::{NodeConfig, Port, Preset, plain, run_port};
use crate::segments::{wal_files, wal_names};
use crate::sorting::texts;
use crate::text::{has_prefix, strip_prefix};
use crate::workers::{Data, Task};
use crate::workload::{TOTAL_AGGREGATES, rotated};
use vstd::prelude::*;

verus! {

/// How long each measurement lasts.
pub const TEST_DURATION_SECS: u64 = 15;

/// How long a client waits for an answer.
pub const CLIENTSIDE_TIMEOUT_S: u64 = 60;

/// One part of a benchmark.
#[derive(Debug, Clone, Copy)]
pub enum Stage {
    /// Fills the server over so many connections, with so many writes for each aggregate.
    Fill { connections: u64, aggregates: u64, batches: u64 },
    /// Measures one task over so many connections.
    Measure { label: &'static str, task: Task, connections: u64 },
    /// Measures readers beside writers.
    Mixed { readers: u64, writers: u64, read_label: &'static str, write_label: &'static str },
    /// Waits for so many milliseconds.
    Pause(u64),
    /// Makes sure that the log was rotated.
    CheckRotation,
}

/// A benchmark: where its server runs, how it is set up, and what is done with it.
pub struct Plan {
    pub data: Data,
    pub port: Port,
    pub label: &'static str,
    pub config: NodeConfig,
    pub duration_secs: u64,
    pub timeout_secs: u64,
    pub stages: Vec<Stage>,
}

/// The settings of the server.
#[verifier::allow_in_spec]
pub fn server_config() -> NodeConfig
    returns
        (NodeConfig {
            preset: Preset::Tuned,
            log_level: Some("warn"),
            standalone: true,
            require_client_identity: true,
            insecure_allow_plaintext_auth: true,
            shard_log_preallocate_bytes: Some(134_217_728),
            list_page_size: Some(1000),
            list_max_duration_ms: Some(10_000),
            ..plain()
        }),
{
    NodeConfig {
        preset: Preset::Tuned,
        log_level: Some("warn"),
        standalone: true,
        require_client_identity: true,
        insecure_allow_plaintext_auth: true,
        shard_log_preallocate_bytes: Some(134_217_728),
        list_page_size: Some(1000),
        list_max_duration_ms: Some(10_000),
        ..plain()
    }
}

/// The parts of the benchmark, in order.
pub open spec fn stages() -> Seq<Stage> {
    seq![
        Stage::Fill { connections: 200, aggregates: TOTAL_AGGREGATES, batches: 1 },
        Stage::Pause(1_000),
        Stage::Measure { label: "Read throughput", task: Task::Read, connections: 200 },
        Stage::Pause(1_000),
        Stage::Measure { label: "List aggregates", task: Task::ListAggregates, connections: 100 },
        Stage::Pause(1_000),
        Stage::Measure { label: "List orgs", task: Task::ListOrgs, connections: 50 },
        Stage::Pause(1_000),
        Stage::Measure { label: "List types", task: Task::ListTypes, connections: 50 },
        Stage::Pause(1_000),
        Stage::Mixed {
            readers: 150,
            writers: 50,
            read_label: "Mixed-read",
            write_label: "Mixed-write",
        },
        Stage::Pause(1_000),
        Stage::Measure { label: "List pressure", task: Task::ListAggregates, connections: 200 },
        Stage::CheckRotation,
    ]
}

/// The benchmark over many organisations and types.
pub fn run() -> (r: Plan)
    ensures
        r.data == Data::Wide,
        r.port == run_port(10100, 0),
        r.label@ == "read-list-bench"@,
        r.config == server_config(),
        r.duration_secs == TEST_DURATION_SECS,
        r.timeout_secs == CLIENTSIDE_TIMEOUT_S,
        r.stages@ == stages(),
{
    let stages: Vec<Stage> = vec![
        Stage::Fill { connections: 200, aggregates: TOTAL_AGGREGATES, batches: 1 },
        Stage::Pause(1_000),
        Stage::Measure { label: "Read throughput", task: Task::Read, connections: 200 },
        Stage::Pause(1_000),
        Stage::Measure { label: "List aggregates", task: Task::ListAggregates, connections: 100 },
        Stage::Pause(1_000),
        Stage::Measure { label: "List orgs", task: Task::ListOrgs, connections: 50 },
        Stage::Pause(1_000),
        Stage::Measure { label: "List types", task: Task::ListTypes, connections: 50 },
        Stage::Pause(1_000),
        Stage::Mixed {
            readers: 150,
            writers: 50,
            read_label: "Mixed-read",
            write_label: "Mixed-write",
        },
        Stage::Pause(1_000),
        Stage::Measure { label: "List pressure", task: Task::ListAggregates, connections: 200 },
        Stage::CheckRotation,
    ];
    assert(stages@ =~= self::stages());
    Plan {
        data: Data::Wide,
        port: run_port(10100, 0),
        label: "read-list-bench",
        config: server_config(),
        duration_secs: TEST_DURATION_SECS,
        timeout_secs: CLIENTSIDE_TIMEOUT_S,
        stages,
    }
}

/// Where each result stands in the table, of `measured` results whose last but two and last but one
/// are those of the mixed stage: that stage's come last.
pub open spec fn table_order(measured: int) -> Seq<int> {
    Seq::new(
        measured as nat,
        |i: int|
            if i < measured - 3 {
                i
            } else if i == measured - 3 {
                measured - 1
            } else {
                i - 1
            },
    )
}

/// Where each result stands in the table.
pub fn report_order(measured: usize) -> (r: Vec<usize>)
    requires
        measured >= 3,
    ensures
        r@.len() == measured,
        forall|i: int| 0 <= i < measured ==> #[trigger] r@[i] == table_order(measured as int)[i],
{
    let mut out: Vec<usize> = Vec::new();
    for i in 0..measured
        invariant
            measured >= 3,
            out@.len() == i,
            forall|j: int| 0 <= j < i ==> #[trigger] out@[j] == table_order(measured as int)[j],
    {
        if i < measured - 3 {
            out.push(i);
        } else if i == measured - 3 {
            out.push(measured - 1);
        } else {
            out.push(i - 1);
        }
    }
    out
}

/// The table leaves no result out and shows none twice.
pub proof fn the_table_shows_every_result_once(measured: int, a: int, b: int)
    requires
        measured >= 3,
        0 <= a < measured,
        0 <= b < measured,
    ensures
        0 <= table_order(measured)[a] < measured,
        table_order(measured)[a] == table_order(measured)[b] ==> a == b,
{
}

/// Whether a directory of this name holds a shard.
pub fn is_shard_name(name: &str) -> (r: bool)
    ensures
        r == has_prefix(name@, "shard_"@),
{
    strip_prefix(name, "shard_").is_some()
}

/// How many segments the shards hold together, by the names of their files.
pub open spec fn segment_total(shards: Seq<Vec<String>>) -> nat
    decreases shards.len(),
{
    if shards.len() == 0 {
        0
    } else {
        segment_total(shards.drop_last()) + wal_names(texts(shards.last()@)).len()
    }
}

proof fn lemma_segments_grow(shards: Seq<Vec<String>>, n: int)
    requires
        0 <= n <= shards.len(),
    ensures
        segment_total(shards.take(n)) <= segment_total(shards),
    decreases shards.len() - n,
{
    if n < shards.len() {
        lemma_segments_grow(shards, n + 1);
        assert(shards.take(n + 1).drop_last() =~= shards.take(n));
    } else {
        assert(shards.take(n) =~= shards);
    }
}

/// Whether the log was rotated at least once: there are more segments than shards.
pub fn check_rotation(shards: &Vec<Vec<String>>) -> (r: bool)
    requires
        segment_total(shards@) <= u64::MAX,
    ensures
        r == (segment_total(shards@) > shards@.len()),
{
    let mut total: u64 = 0;
    assert(shards@.take(0) =~= Seq::empty());
    for i in 0..shards.len()
        invariant
            segment_total(shards@) <= u64::MAX,
            total == segment_total(shards@.take(i as int)),
    {
        assert(shards@.take(i + 1).drop_last() =~= shards@.take(i as int));
        proof {
            lemma_segments_grow(shards@, i + 1);
        }
        total = total + wal_files(&shards[i]).len() as u64;
    }
    assert(shards@.take(shards@.len() as int) =~= shards@);
    rotated(total, shards.len() as u64)
}

} // verus!
