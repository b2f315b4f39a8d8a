//! The table of tests: every test of the suite with its description, estimate and categories.

use crate::registry::{Category, Entry, TestEntry, catalogued};
use vstd::prelude::*;

verus! {

/// An entry of the table.
pub open spec fn entry(
    name: &str,
    description: &str,
    estimated_secs: u32,
    categories: Seq<Category>,
    distributed: bool,
) -> Entry {
    Entry { name: name@, description: description@, estimated_secs, categories, distributed }
}

/// Contract suite 1.
pub open spec fn contract_suite_1_tests() -> Seq<Entry> {
    seq![
        entry(
            "p1_append_reads_back_unchanged",
            "Contract suite (phase1)",
            10,
            seq![Category::Core],
            false,
        ),
        entry(
            "p1_reads_are_ordered_and_gap_free",
            "Contract suite (phase1)",
            10,
            seq![Category::Core],
            false,
        ),
        entry(
            "p1_version_tracks_batch_count",
            "Contract suite (phase1)",
            10,
            seq![Category::Core],
            false,
        ),
        entry(
            "p1_read_missing_aggregate_errors",
            "Contract suite (phase1)",
            10,
            seq![Category::Core],
            false,
        ),
        entry(
            "p1_empty_write_rejected",
            "Contract suite (phase1)",
            10,
            seq![Category::Core],
            false,
        ),
        entry(
            "p1_zero_event_type_rejected",
            "Contract suite (phase1)",
            10,
            seq![Category::Core],
            false,
        ),
        entry(
            "p1_write_no_create_rejected",
            "Contract suite (phase1)",
            10,
            seq![Category::Core],
            false,
        ),
        entry(
            "p1_pagination_streams_whole_aggregate",
            "Contract suite (phase1)",
            10,
            seq![Category::Core],
            false,
        ),
        entry(
            "p1_offset_filter_bounds_range",
            "Contract suite (phase1)",
            10,
            seq![Category::Core],
            false,
        ),
        entry(
            "p1_event_type_filter",
            "Contract suite (phase1)",
            10,
            seq![Category::Core],
            false,
        ),
        entry(
            "p1_client_id_filter",
            "Contract suite (phase1)",
            10,
            seq![Category::Core],
            false,
        ),
        entry(
            "p1_writes_survive_restart",
            "Contract suite (phase1)",
            10,
            seq![Category::Core],
            false,
        ),
        entry(
            "p1_exclude_client_id_filter",
            "Contract suite (phase1)",
            10,
            seq![Category::Core],
            false,
        ),
        entry(
            "p1_multi_event_batch_preserves_order",
            "Contract suite (phase1)",
            10,
            seq![Category::Core],
            false,
        ),
        entry(
            "p1_event_time_range_filter",
            "Contract suite (phase1)",
            10,
            seq![Category::Core],
            false,
        ),
    ]
}

/// Contract suite 2.
pub open spec fn contract_suite_2_tests() -> Seq<Entry> {
    seq![
        entry(
            "p2_occ_match_commits_and_advances",
            "Contract suite (phase2)",
            10,
            seq![Category::Correctness],
            false,
        ),
        entry(
            "p2_occ_stale_rejected_no_append",
            "Contract suite (phase2)",
            10,
            seq![Category::Correctness],
            false,
        ),
        entry(
            "p2_occ_create_guard_races_cleanly",
            "Contract suite (phase2)",
            10,
            seq![Category::Correctness],
            false,
        ),
        entry(
            "p2_idempotency_dedupes_replay",
            "Contract suite (phase2)",
            10,
            seq![Category::Correctness],
            false,
        ),
        entry(
            "p2_idempotency_scoped_per_client",
            "Contract suite (phase2)",
            10,
            seq![Category::Correctness],
            false,
        ),
        entry(
            "p2_multi_aggregate_atomic_rollback",
            "Contract suite (phase2)",
            10,
            seq![Category::Correctness],
            false,
        ),
        entry(
            "p2_multi_aggregate_cross_shard_rejected",
            "Contract suite (phase2)",
            10,
            seq![Category::Correctness],
            false,
        ),
        entry(
            "p2_occ_and_idempotency_compose",
            "Contract suite (phase2)",
            10,
            seq![Category::Correctness],
            false,
        ),
        entry(
            "p2_unconditional_write_appends",
            "Contract suite (phase2)",
            10,
            seq![Category::Correctness],
            false,
        ),
    ]
}

/// Contract suite 3.
pub open spec fn contract_suite_3_tests() -> Seq<Entry> {
    seq![
        entry(
            "p3_trim_drops_prefix",
            "Contract suite (phase3)",
            15,
            seq![Category::Correctness],
            false,
        ),
        entry(
            "p3_trim_preserves_remaining",
            "Contract suite (phase3)",
            15,
            seq![Category::Correctness],
            false,
        ),
        entry(
            "p3_trim_out_of_range_rejected",
            "Contract suite (phase3)",
            15,
            seq![Category::Correctness],
            false,
        ),
        entry(
            "p3_trim_missing_rejected",
            "Contract suite (phase3)",
            15,
            seq![Category::Correctness],
            false,
        ),
        entry(
            "p3_delete_removes_aggregate",
            "Contract suite (phase3)",
            15,
            seq![Category::Correctness],
            false,
        ),
        entry(
            "p3_delete_no_recreate_blocks_rewrite",
            "Contract suite (phase3)",
            15,
            seq![Category::Correctness],
            false,
        ),
        entry(
            "p3_delete_recreate_allows_rewrite",
            "Contract suite (phase3)",
            15,
            seq![Category::Correctness],
            false,
        ),
        entry(
            "p3_delete_conditional_guard",
            "Contract suite (phase3)",
            15,
            seq![Category::Correctness],
            false,
        ),
        entry(
            "p3_delete_missing_rejected",
            "Contract suite (phase3)",
            15,
            seq![Category::Correctness],
            false,
        ),
        entry(
            "p3_delete_sequence_continuation",
            "Contract suite (phase3)",
            15,
            seq![Category::Correctness],
            false,
        ),
        entry(
            "p3_delete_cross_shard_rejected",
            "Contract suite (phase3)",
            15,
            seq![Category::Correctness],
            false,
        ),
    ]
}

/// Contract suite 4.
pub open spec fn contract_suite_4_tests() -> Seq<Entry> {
    seq![
        entry(
            "p4_schema_rejects_bad_event",
            "Contract suite (phase4)",
            10,
            seq![Category::Schema],
            false,
        ),
        entry(
            "p4_schema_accepts_good_event",
            "Contract suite (phase4)",
            10,
            seq![Category::Schema],
            false,
        ),
        entry(
            "p4_schema_duplicate_register_rejected",
            "Contract suite (phase4)",
            10,
            seq![Category::Schema],
            false,
        ),
        entry(
            "p4_schema_invalid_register_rejected",
            "Contract suite (phase4)",
            10,
            seq![Category::Schema],
            false,
        ),
        entry(
            "p4_schema_unregistered_version_unvalidated",
            "Contract suite (phase4)",
            10,
            seq![Category::Schema],
            false,
        ),
    ]
}

/// Contract suite 5.
pub open spec fn contract_suite_5_tests() -> Seq<Entry> {
    seq![
        entry(
            "p5_watch_notifies_on_write",
            "Contract suite (phase5)",
            15,
            seq![Category::Core],
            false,
        ),
        entry(
            "p5_watch_incompatible_filter_rejected",
            "Contract suite (phase5)",
            15,
            seq![Category::Core],
            false,
        ),
        entry(
            "p5_watch_latency_too_high_rejected",
            "Contract suite (phase5)",
            15,
            seq![Category::Core],
            false,
        ),
        entry(
            "p5_watch_cursor_misses_no_events",
            "Contract suite (phase5)",
            15,
            seq![Category::Core],
            false,
        ),
        entry(
            "p5_watch_operations_are_distinct",
            "Contract suite (phase5)",
            15,
            seq![Category::Core],
            false,
        ),
        entry(
            "p5_watch_create_notification_carries_version_range",
            "Contract suite (phase5)",
            15,
            seq![Category::Core],
            false,
        ),
    ]
}

/// Contract suite 6.
pub open spec fn contract_suite_6_tests() -> Seq<Entry> {
    seq![
        entry(
            "p6_cluster_elects_single_leader",
            "Contract suite (phase6)",
            60,
            seq![Category::Replication, Category::Election],
            true,
        ),
        entry(
            "p6_cluster_replicates_and_rejects_follower_write",
            "Contract suite (phase6)",
            60,
            seq![Category::Replication, Category::Election],
            true,
        ),
        entry(
            "p6_follower_read_converges",
            "Contract suite (phase6)",
            60,
            seq![Category::Replication, Category::Election],
            true,
        ),
        entry(
            "p6_failover_promotes_follower",
            "Contract suite (phase6)",
            60,
            seq![Category::Replication, Category::Election],
            true,
        ),
    ]
}

/// Contract suite 7.
pub open spec fn contract_suite_7_tests() -> Seq<Entry> {
    seq![
        entry(
            "p7_concurrent_occ_writers_one_wins",
            "Contract suite (phase7)",
            25,
            seq![Category::Correctness, Category::Invariant],
            false,
        ),
        entry(
            "p7_concurrent_creators_one_wins",
            "Contract suite (phase7)",
            25,
            seq![Category::Correctness, Category::Invariant],
            false,
        ),
        entry(
            "p7_concurrent_idempotent_retries_dedupe",
            "Contract suite (phase7)",
            25,
            seq![Category::Correctness, Category::Invariant],
            false,
        ),
        entry(
            "p7_per_aggregate_order_across_shards",
            "Contract suite (phase7)",
            25,
            seq![Category::Correctness, Category::Invariant],
            false,
        ),
        entry(
            "p7_large_values_long_stream_intact",
            "Contract suite (phase7)",
            25,
            seq![Category::Correctness, Category::Invariant],
            false,
        ),
    ]
}

/// Contract suite 8.
pub open spec fn contract_suite_8_tests() -> Seq<Entry> {
    seq![
        entry(
            "p8_replication_link_cut_acks_via_s3_and_heals",
            "Contract suite (phase8)",
            90,
            seq![Category::Replication, Category::Edge],
            true,
        ),
        entry(
            "p8_s3_outage_leader_keeps_serving",
            "Contract suite (phase8)",
            90,
            seq![Category::Replication, Category::Edge],
            true,
        ),
        entry(
            "p8_crash_follower_restart_data_survives",
            "Contract suite (phase8)",
            90,
            seq![Category::Replication, Category::Edge],
            true,
        ),
        entry(
            "p8_exactly_once_across_failover",
            "Contract suite (phase8)",
            90,
            seq![Category::Replication, Category::Edge],
            true,
        ),
        entry(
            "p8_leader_follower_read_parity",
            "Contract suite (phase8)",
            90,
            seq![Category::Replication, Category::Edge],
            true,
        ),
    ]
}

/// Contract suite 9.
pub open spec fn contract_suite_9_tests() -> Seq<Entry> {
    seq![
        entry(
            "p9_mtls_require_good_client_connects",
            "Contract suite (phase9)",
            25,
            seq![Category::Security],
            false,
        ),
        entry(
            "p9_mtls_require_untrusted_ca_refused",
            "Contract suite (phase9)",
            25,
            seq![Category::Security],
            false,
        ),
        entry(
            "p9_mtls_require_no_cert_refused",
            "Contract suite (phase9)",
            25,
            seq![Category::Security],
            false,
        ),
        entry(
            "p9_tls_strict_refuses_plaintext",
            "Contract suite (phase9)",
            25,
            seq![Category::Security],
            false,
        ),
        entry(
            "p9_tls_client_auth_none_allows_anonymous",
            "Contract suite (phase9)",
            25,
            seq![Category::Security],
            false,
        ),
        entry(
            "p9_identity_required_but_absent_rejected",
            "Contract suite (phase9)",
            25,
            seq![Category::Security],
            false,
        ),
        entry(
            "p9_public_key_identity_accepted_and_deterministic",
            "Contract suite (phase9)",
            25,
            seq![Category::Security],
            false,
        ),
        entry(
            "p9_identity_bad_signature_rejected",
            "Contract suite (phase9)",
            25,
            seq![Category::Security],
            false,
        ),
        entry(
            "p9_identity_clientid_mismatch_rejected",
            "Contract suite (phase9)",
            25,
            seq![Category::Security],
            false,
        ),
    ]
}

/// Contract suite 10.
pub open spec fn contract_suite_10_tests() -> Seq<Entry> {
    seq![
        entry(
            "p10_avro_accepts_conforming_payload",
            "Contract suite (phase10)",
            20,
            seq![Category::Schema],
            false,
        ),
        entry(
            "p10_avro_rejects_nonconforming_payload",
            "Contract suite (phase10)",
            20,
            seq![Category::Schema],
            false,
        ),
        entry(
            "p10_avro_malformed_schema_rejected",
            "Contract suite (phase10)",
            20,
            seq![Category::Schema],
            false,
        ),
        entry(
            "p10_protobuf_accepts_conforming_payload",
            "Contract suite (phase10)",
            20,
            seq![Category::Schema],
            false,
        ),
        entry(
            "p10_protobuf_rejects_nonconforming_payload",
            "Contract suite (phase10)",
            20,
            seq![Category::Schema],
            false,
        ),
        entry(
            "p10_protobuf_malformed_schema_rejected",
            "Contract suite (phase10)",
            20,
            seq![Category::Schema],
            false,
        ),
        entry(
            "p10_avro_duplicate_register_rejected",
            "Contract suite (phase10)",
            20,
            seq![Category::Schema],
            false,
        ),
        entry(
            "p10_encrypted_payload_roundtrips_unchanged",
            "Contract suite (phase10)",
            20,
            seq![Category::Schema],
            false,
        ),
        entry(
            "p10_encrypted_payload_skips_schema_validation",
            "Contract suite (phase10)",
            20,
            seq![Category::Schema],
            false,
        ),
    ]
}

/// Contract suite 11.
pub open spec fn contract_suite_11_tests() -> Seq<Entry> {
    seq![
        entry(
            "p11_leader_self_fences_on_lost_lease",
            "Contract suite (phase11)",
            120,
            seq![Category::Election, Category::Fencing],
            true,
        ),
        entry(
            "p11_notleader_redirect_carries_leader_address",
            "Contract suite (phase11)",
            120,
            seq![Category::Election, Category::Fencing],
            true,
        ),
        entry(
            "p11_throttled_link_preserves_acked_writes",
            "Contract suite (phase11)",
            120,
            seq![Category::Election, Category::Fencing],
            true,
        ),
        entry(
            "p11_compaction_reclaims_after_trim",
            "Contract suite (phase11)",
            120,
            seq![Category::Election, Category::Fencing],
            true,
        ),
    ]
}

/// Core.
pub open spec fn core_tests() -> Seq<Entry> {
    seq![
        entry(
            "single",
            "Basic CRUD operations, idempotency, and listing functionality",
            10,
            seq![Category::Core],
            false,
        ),
        entry(
            "batch",
            "Write throughput and latency benchmark in standalone and replicated modes",
            210,
            seq![Category::Core, Category::Performance, Category::RequiresKtls],
            true,
        ),
        entry(
            "batch_standalone_cleartext",
            "Plaintext standalone write throughput and latency benchmark",
            60,
            seq![Category::Core, Category::Performance],
            false,
        ),
        entry(
            "batch_standalone_compressed",
            "Plaintext standalone write throughput with ~3 KiB compressed (ZstdDict) payloads",
            40,
            seq![Category::Core, Category::Performance],
            false,
        ),
        entry(
            "batch_replicated_cleartext",
            "Plaintext replicated write throughput and latency benchmark",
            60,
            seq![Category::Core, Category::Performance],
            true,
        ),
        entry(
            "read_list_benchmark",
            "Read and list performance benchmark with large WAL and concurrent ops",
            150,
            seq![Category::Core, Category::Performance],
            false,
        ),
        entry(
            "rpi_cluster_bench",
            "Write benchmark against a remote RPi cluster over mTLS",
            60,
            seq![Category::Performance, Category::Rpi],
            true,
        ),
        entry(
            "rpi_cluster_pool_bench",
            "Pool-based write benchmark with automatic leader failover",
            60,
            seq![Category::Performance, Category::Rpi],
            true,
        ),
        entry(
            "chaos",
            "Concurrent read/write testing with variable large payload sizes",
            31,
            seq![Category::Core],
            false,
        ),
        entry(
            "chaos_delete",
            "Concurrent write/delete/read testing with verification",
            31,
            seq![Category::Core],
            false,
        ),
        entry(
            "chaos_watch",
            "Adversarial watch lifecycle (churn, half-open, slow readers, multi-shard) under read/write load",
            30,
            seq![Category::Core, Category::Edge],
            false,
        ),
        entry(
            "watch_failover",
            "Watch delivery history stays consistent with the final read across a leader kill + promotion + reconnect",
            60,
            seq![Category::Replication, Category::Election, Category::Edge],
            true,
        ),
        entry(
            "watch_follower_promotion",
            "Follower-side watch subscriber across a promotion: every acked event delivered exactly once, in order, parked tail events fire on the promotion commit",
            60,
            seq![Category::Replication, Category::Election, Category::Edge],
            true,
        ),
        entry(
            "connection_test",
            "Connection lifecycle, pipelining, and shard routing",
            1,
            seq![Category::Core],
            false,
        ),
        entry(
            "watch_test",
            "Watch API streaming subscriptions",
            9,
            seq![Category::Core],
            false,
        ),
        entry(
            "multi_shard_watch_test",
            "Multi-shard watch API with fallback behavior and event merging",
            46,
            seq![Category::Core],
            false,
        ),
        entry(
            "typed_operations",
            "Typed convenience methods, auto-compression, and error matching",
            1,
            seq![Category::Core],
            false,
        ),
        entry(
            "pool_test",
            "Connection pool operations, lifecycle, and idle eviction",
            1,
            seq![Category::Core],
            false,
        ),
    ]
}

/// Replication.
pub open spec fn replication_tests() -> Seq<Entry> {
    seq![
        entry(
            "s3_fallback_catchup",
            "Full cycle: normal replication -> S3 fallback -> follower boot catchup",
            21,
            seq![Category::Replication],
            true,
        ),
        entry(
            "s3_fallback_s3_down",
            "Writes rejected when both follower offline and S3 unreachable",
            40,
            seq![Category::Replication],
            true,
        ),
        entry(
            "s3_fallback_createonly",
            "CreateOnly prevents overwrites of existing S3 fallback objects",
            11,
            seq![Category::Replication],
            true,
        ),
        entry(
            "s3_degraded_segment_summaries",
            "Sealed-segment .summary sidecars land on local NVMe across rotations on both TCP and S3 fallback paths",
            200,
            seq![Category::Replication, Category::Durability],
            true,
        ),
        entry(
            "s3_follower_crash",
            "Leader detects heartbeat loss, pre-renews S3 lease, continues writes",
            25,
            seq![Category::Replication],
            true,
        ),
        entry(
            "s3_follower_kick",
            "Coordinated kick: network block -> WAL gap -> kick -> S3 catchup",
            21,
            seq![Category::Replication],
            true,
        ),
        entry(
            "s3_leader_solo",
            "Leader alone with S3 fallback, late-joining follower catches up via S3",
            18,
            seq![Category::Replication],
            true,
        ),
        entry(
            "standalone_to_distributed",
            "Standalone-to-distributed WAL migration and replication convergence",
            41,
            seq![Category::Replication, Category::Operations],
            true,
        ),
        entry(
            "follower_notify_liveness",
            "Idle-tail commit-notify convergence bound (burst tail + lone write)",
            40,
            seq![Category::Core],
            true,
        ),
        entry(
            "follower_read_snapshot",
            "Replicated data visibility and delete/trim operations on follower",
            13,
            seq![Category::Replication],
            true,
        ),
        entry(
            "leader_read_visibility",
            "Data not visible until replication completes (read-after-write invariant)",
            23,
            seq![Category::Replication],
            true,
        ),
    ]
}

/// Election.
pub open spec fn election_tests() -> Seq<Entry> {
    seq![
        entry(
            "s3_election",
            "Cold-start S3 election and split-brain prevention via CreateOnly race",
            10,
            seq![Category::Election],
            true,
        ),
        entry(
            "s3_failover_and_recovery",
            "Complete failover cycle: leader crash, follower takeover, old leader recovers as follower",
            26,
            seq![Category::Election, Category::Replication],
            true,
        ),
        entry(
            "s3_failover_latency",
            "Failover latency measurement from leader crash to follower accepting writes",
            16,
            seq![Category::Election, Category::Performance],
            true,
        ),
        entry(
            "s3_stale_lease",
            "Stale lease node rejoins as follower instead of attempting takeover",
            19,
            seq![Category::Election],
            true,
        ),
        entry(
            "s3_lease_monotonicity",
            "Lease epoch strictly monotonically increasing across consecutive failovers",
            24,
            seq![Category::Election],
            true,
        ),
        entry(
            "s3_unreachable_failover",
            "Dual failure: both nodes fence when S3 + TCP down, both reject writes, recover when restored",
            30,
            seq![Category::Election, Category::Fencing],
            true,
        ),
        entry(
            "s3_lease_renewal_backoff",
            "S3 lease renewal backs off during follower outage instead of hammering at heartbeat rate",
            25,
            seq![Category::Election],
            true,
        ),
    ]
}

/// Fencing.
pub open spec fn fencing_tests() -> Seq<Entry> {
    seq![
        entry(
            "s3_fencing_writes",
            "Fenced nodes reject all write operations",
            11,
            seq![Category::Fencing],
            true,
        ),
        entry(
            "s3_concurrent_cas",
            "Partition + CAS race + reconvergence: proxy replication, fencing, S3 race, single leader",
            28,
            seq![Category::Fencing, Category::Election, Category::Replication],
            true,
        ),
    ]
}

/// Invariant.
pub open spec fn invariant_tests() -> Seq<Entry> {
    seq![
        entry(
            "invariant_clock_drift_rejection",
            "Follower rejects replication when clock drift exceeds threshold",
            25,
            seq![Category::Invariant, Category::Replication],
            true,
        ),
        entry(
            "invariant_held_seq_sibling_recovery",
            "A held client_seq consumed by a sibling yields a 2002 that must be verified, not trusted",
            1,
            seq![Category::Invariant, Category::Correctness],
            false,
        ),
        entry(
            "invariant_occ_before_idempotency",
            "OCC check fires before idempotency when both would fail",
            1,
            seq![Category::Invariant, Category::Correctness],
            false,
        ),
        entry(
            "reference_account_service",
            "Reference BFF: request dedup across replicas, in-memory and Postgres projections",
            5,
            seq![Category::Invariant, Category::Correctness],
            false,
        ),
        entry(
            "invariant_read_count",
            "count_events accurately returns the exact number of events written",
            36,
            seq![Category::Invariant],
            false,
        ),
        entry(
            "invariant_concurrent_write",
            "Concurrent writes produce correct event count matching successful responses",
            1,
            seq![Category::Invariant],
            false,
        ),
        entry(
            "invariant_replication_convergence",
            "Leader and follower have identical event counts after replication settles",
            23,
            seq![Category::Invariant, Category::Replication],
            true,
        ),
        entry(
            "invariant_s3_fallback_dedup",
            "S3 boot catchup produces no duplicate events in multi-shard config",
            55,
            seq![Category::Invariant, Category::Replication],
            true,
        ),
        entry(
            "invariant_replication_queue_pressure",
            "Throttled follower saturates inflight cap, surfacing ServerBusy backpressure; cluster converges after unthrottle",
            37,
            seq![Category::Invariant, Category::Replication],
            true,
        ),
    ]
}

/// Metamorphic.
pub open spec fn metamorphic_tests() -> Seq<Entry> {
    seq![
        entry(
            "metamorphic_leader_follower_parity",
            "Leader and follower return byte-identical events, batch indices, and tip hash per aggregate",
            20,
            seq![Category::Metamorphic, Category::Replication],
            true,
        ),
        entry(
            "metamorphic_post_failover_parity",
            "Old-leader and new-leader byte-identical after kill, promotion, more writes, and rejoin/catchup",
            60,
            seq![Category::Metamorphic, Category::Replication, Category::Election],
            true,
        ),
        entry(
            "metamorphic_delete_trim_parity",
            "Standalone and 2-node cluster make identical delete/trim accept/reject decisions; sequence-continuation recreate resumes at the same version",
            30,
            seq![Category::Metamorphic],
            true,
        ),
        entry(
            "metamorphic_standalone_vs_cluster",
            "Standalone and 2-node cluster produce identical event lists modulo cross-run time/UUID artefacts",
            30,
            seq![Category::Metamorphic],
            true,
        ),
        entry(
            "metamorphic_follower_crash_catchup_parity",
            "Leader and follower byte-identical after SIGKILL, S3-fallback writes, S3 boot catchup, and resumed TCP replication",
            45,
            seq![Category::Metamorphic, Category::Replication],
            true,
        ),
        entry(
            "metamorphic_divergence_recovery_parity",
            "Old leader with divergent WAL truncates + S3-catches-up when rejoining, ends byte-identical with new leader",
            130,
            seq![Category::Metamorphic, Category::Replication, Category::Election],
            true,
        ),
        entry(
            "metamorphic_cull_parity",
            "Speculative-tail removal across all three paths — in-process demotion cull, boot divergence truncation, GC-forced reframe — ends byte-identical with no acked loss",
            180,
            seq![Category::Metamorphic, Category::Replication, Category::Election],
            true,
        ),
    ]
}

/// Edge.
pub open spec fn edge_tests() -> Seq<Entry> {
    seq![
        entry(
            "edge_empty_replication_batch",
            "Heartbeat + replication cycles with no writes produce no inconsistency",
            20,
            seq![Category::Edge],
            true,
        ),
        entry(
            "edge_stale_cache_rotation",
            "Log rotation + LRU eviction correctly update cache pointers",
            35,
            seq![Category::Edge],
            true,
        ),
        entry(
            "edge_s3_missing_batches",
            "Missing S3 batch detection triggers fatal WalSeqGap error",
            32,
            seq![Category::Edge],
            true,
        ),
        entry(
            "edge_s3_batch_ordering",
            "S3 fallback batches correctly ordered during catchup",
            32,
            seq![Category::Edge],
            true,
        ),
        entry(
            "edge_log_rotation_mid_replication",
            "Log rotation mid-replication doesn't lose data despite LRU eviction",
            90,
            seq![Category::Edge],
            true,
        ),
        entry(
            "edge_log_eviction_before_s3",
            "Evicted log files re-opened transparently for S3 upload",
            40,
            seq![Category::Edge],
            true,
        ),
        entry(
            "edge_heartbeat_lock_contention",
            "Split locking keeps heartbeats independent from replication under pressure",
            42,
            seq![Category::Edge],
            true,
        ),
        entry(
            "edge_concurrent_heartbeat_replication_s3",
            "S3 uploads without lock contention allow heartbeat flow during queue pressure",
            28,
            seq![Category::Edge],
            true,
        ),
        entry(
            "edge_split_brain_s3_unavailable",
            "Heartbeat TTL + S3 CAS prevent writes during dual unavailability",
            28,
            seq![Category::Edge],
            true,
        ),
        entry(
            "edge_s3_batch_boundary_contiguity",
            "S3 fallback batch boundaries contiguous under load (WalSeqGap bug)",
            45,
            seq![Category::Edge, Category::Replication],
            true,
        ),
        entry(
            "edge_s3_catchup_after_partition",
            "S3 catchup after partition + failover: no WalSeqGap on rejoin",
            40,
            seq![Category::Edge, Category::Replication],
            true,
        ),
        entry(
            "edge_s3_overlap_after_partition",
            "Both leaders upload S3 batches during partition: overlapping WAL indices on catchup",
            50,
            seq![Category::Edge, Category::Replication],
            true,
        ),
        entry(
            "edge_corrupted_s3_batch",
            "S3 batch CRC32C catches corruption, triggers fatal shutdown",
            31,
            seq![Category::Edge],
            true,
        ),
        entry(
            "edge_list_pagination_cache_eviction",
            "Paginated list returns correct results despite WAL sequence cache eviction",
            5,
            seq![Category::Edge],
            false,
        ),
        entry(
            "regression_list_iterator_truncation",
            "Shard-listing iterators do not truncate when the discovery probe fails",
            15,
            seq![Category::Edge],
            false,
        ),
        entry(
            "edge_wal_tip_hash_divergence",
            "TipHashMismatch detection triggers WAL truncation and S3 catchup auto-heal",
            33,
            seq![Category::Edge],
            true,
        ),
        entry(
            "edge_wal_divergence_and_recovery",
            "Leader crash with unreplicated writes, follower diverges, auto-heal via S3 truncation",
            54,
            seq![Category::Edge],
            true,
        ),
    ]
}

/// Bug Reproducers.
pub open spec fn reproducers_tests() -> Seq<Entry> {
    seq![
        entry(
            "stale_lease_restart_split_brain",
            "Stale-lease restart split-brain: HB-Ack `continue` skips S3 renewal, restarting follower CAS-steals stale lease then split brain",
            30,
            seq![Category::Correctness, Category::Election, Category::Fencing],
            true,
        ),
    ]
}

/// Correctness (Pilot Phase 1).
pub open spec fn correctness_tests() -> Seq<Entry> {
    seq![
        entry(
            "p1_1_dcb_rollback",
            "Multi-aggregate atomic write rolls back completely on OCC failure",
            1,
            seq![Category::Correctness],
            false,
        ),
        entry(
            "p1_2_concurrent_dcb",
            "Concurrent multi-aggregate writes handle OCC conflicts in two-phase commit",
            1,
            seq![Category::Correctness],
            false,
        ),
        entry(
            "p1_3_cross_shard_rejection",
            "Multi-aggregate writes spanning shards are properly rejected",
            1,
            seq![Category::Correctness],
            false,
        ),
        entry(
            "p1_4_exactly_once",
            "Exactly-once writes under connection failure with client-side idempotency",
            1,
            seq![Category::Correctness],
            false,
        ),
        entry(
            "p1_6_ordering_verification",
            "Per-aggregate strict total ordering with contiguous monotonic batch indices",
            1,
            seq![Category::Correctness],
            false,
        ),
        entry(
            "p1_7_multitenancy_isolation",
            "Multi-tenancy isolation: org A cannot see org B's data",
            1,
            seq![Category::Correctness],
            false,
        ),
        entry(
            "segment_summary_correctness",
            "Cross-segment delete barriers, trim, multi-org/type listing, and recreate-after-delete with segment summaries",
            30,
            seq![Category::Correctness],
            false,
        ),
    ]
}

/// Durability (Pilot Phase 2).
pub open spec fn durability_tests() -> Seq<Entry> {
    seq![
        entry(
            "p2_1_write_survival",
            "Acknowledged writes survive SIGKILL in distributed cluster",
            17,
            seq![Category::Durability],
            true,
        ),
        entry(
            "p2_5_blackout_acked_writes_survive",
            "Concurrent acked writes survive an S3 blackout + follower kill + heal cycle on both nodes",
            120,
            seq![Category::Durability, Category::Replication, Category::Metamorphic],
            true,
        ),
        entry(
            "idempotency_cold_reconstruction",
            "After restart, cold client-seq reverse-WAL reconstruction dedupes a replay across interleaved foreign aggregates",
            20,
            seq![Category::Correctness, Category::Invariant],
            false,
        ),
        entry(
            "idempotency_negative_scan_load",
            "Reproduces the negative client-idempotency lookup cost: fresh-producer first-writes to a deep aggregate vs a shallow one",
            30,
            seq![Category::Performance, Category::Debug],
            false,
        ),
        entry(
            "idempotency_negative_scan_present_client",
            "a segment-present client (bloom can't short-circuit) first-writing to a deep aggregate vs a shallow one",
            30,
            seq![Category::Performance, Category::Debug],
            false,
        ),
        entry(
            "idempotency_restart_fanin",
            "After kill+restart, a concurrent burst of every client retrying its last seq is fully deduped and a new client still lands",
            30,
            seq![Category::Correctness, Category::Durability],
            false,
        ),
        entry(
            "idempotency_trim_client_state",
            "TrimStart keeps per-client idempotency floors (warm and cold) even when a client's entire history is trimmed away",
            20,
            seq![Category::Correctness, Category::Durability],
            false,
        ),
        entry(
            "idempotency_delete_recreate",
            "Delete+recreate vs client seq floors: old-seq retries and new clients in both sequence-continuation modes, warm and cold",
            20,
            seq![Category::Correctness, Category::Durability],
            false,
        ),
        entry(
            "recovery_multiseg_read_amplification",
            "After kill -9 on a root with sealed segments, first-touch write cost must stay bounded — pins the EBS recovery wedge (schema-absence scan walks the whole WAL when the SchemaKey/AggregateKey bloom-hash collision defeats segment skipping); bytes-read assertion via /proc/<pid>/io",
            30,
            seq![Category::Durability, Category::Performance],
            false,
        ),
        entry(
            "crash_kill9_under_load_durability",
            "SIGKILL mid-load past segment rotation, 3 restart cycles on the same data root: acked writes readable exactly once and in order, in-flight writes never duplicated or torn, idempotency floors correct post-recovery",
            15,
            seq![Category::Correctness, Category::Durability],
            false,
        ),
        entry(
            "schema_sealed_segment_survives_crash",
            "A schema registered in a segment that then seals (2+ rotations) is still enforced and findable after kill -9 + restart, for pre-crash and new aggregates — including the SchemaKey/AggregateKey bloom-collision shape where segment skipping is most tempted to over-skip",
            30,
            seq![Category::Correctness, Category::Durability, Category::Schema],
            false,
        ),
        entry(
            "sidecar_size_tracks_cardinality",
            "A sealed segment holding a small key population (~64 aggregates, 4 clients) must produce a .summary sidecar under 64 KiB — blooms right-sized at seal from true cardinality, not fixed ~393 KB — and the shrunken sidecars must still serve post-kill-9 recovery",
            30,
            seq![Category::Operations, Category::Performance],
            false,
        ),
        entry(
            "idempotency_across_seal",
            "Client seq floors survive segment rotation: pre-seal seq retries rejected and new clients accepted, warm and after restart",
            60,
            seq![Category::Correctness, Category::Durability],
            false,
        ),
        entry(
            "p2_2_dual_restart",
            "Both nodes restart simultaneously, S3 lease race resolves cleanly",
            14,
            seq![Category::Durability],
            true,
        ),
        entry(
            "p2_3_wal_corruption",
            "WAL on-disk corruption detected via CRC32C mismatch on restart",
            6,
            seq![Category::Durability],
            false,
        ),
        entry(
            "storage_corruption_header_recovery",
            "Corrupt primary WAL header → node recovers byte-identical from the backup header",
            8,
            seq![Category::Durability],
            false,
        ),
        entry(
            "wal_mid_datablock_truncation",
            "Torn uncommitted datablock bytes are invisible on restart and safely overwritten",
            8,
            seq![Category::Durability],
            false,
        ),
        entry(
            "s3_to_tcp_failback",
            "Follower booting into S3 catchup with S3 dead fails back to TCP bridging",
            60,
            seq![Category::Replication, Category::Durability],
            true,
        ),
        entry(
            "p2_4_s3_capacity",
            "S3 degraded-mode capacity with large-volume fallback and follower catchup",
            42,
            seq![Category::Durability],
            true,
        ),
    ]
}

/// Performance (Pilot Phase 3).
pub open spec fn performance_tests() -> Seq<Entry> {
    seq![
        entry(
            "p3_1_cold_read_latency",
            "Cold read latency after cache eviction measures reverse WAL scan + LRU",
            22,
            seq![Category::Performance],
            false,
        ),
        entry(
            "p3_2_bloom_filter",
            "Bloom filter prevents unnecessary disk scans for missing aggregates",
            42,
            seq![Category::Performance],
            false,
        ),
        entry(
            "p3_3_sequential_cold_reads",
            "Sustained cold sequential read throughput for audit/replay access patterns",
            39,
            seq![Category::Performance],
            false,
        ),
        entry(
            "p3_4_read_thundering_herd",
            "Concurrent distinct cold reads stress the reverse-scan path; verifies the read semaphore bounds NVMe load without wedging, and surfaces read amplification",
            90,
            seq![Category::Performance],
            false,
        ),
    ]
}

/// Operations (Pilot Phase 4).
pub open spec fn operations_tests() -> Seq<Entry> {
    seq![
        entry(
            "p4_1_rolling_upgrade",
            "Rolling upgrade with zero downtime: writes continue through node restarts",
            19,
            seq![Category::Operations],
            true,
        ),
    ]
}

/// Security.
pub open spec fn security_tests() -> Seq<Entry> {
    seq![
        entry(
            "mtls_test",
            "mTLS handshake, plaintext rejection, and certificate trust validation",
            2,
            seq![Category::Security],
            false,
        ),
        entry(
            "identity_test",
            "Client identity handshake and enforcement",
            1,
            seq![Category::Security],
            false,
        ),
        entry(
            "api_key_test",
            "API key auth with read-only and read-write permission enforcement",
            1,
            seq![Category::Security],
            false,
        ),
    ]
}

/// Schema.
pub open spec fn schema_tests() -> Seq<Entry> {
    seq![
        entry(
            "schema_validation",
            "Schema registration, write enforcement, and WAL recovery",
            1,
            seq![Category::Schema],
            false,
        ),
        entry(
            "schema_zero_cache",
            "Schema enforcement with all caches disabled",
            1,
            seq![Category::Schema],
            false,
        ),
        entry(
            "schema_follower_crash",
            "Schemas survive follower crash, restart, and promotion",
            28,
            seq![Category::Schema],
            true,
        ),
        entry(
            "schema_old_leader_recovery",
            "Schemas survive full A->B->A leadership cycle",
            35,
            seq![Category::Schema],
            true,
        ),
        entry(
            "schema_bank_bench",
            "Schema-validated atomic writes throughput and latency benchmark",
            180,
            seq![Category::Schema, Category::Performance, Category::RequiresKtls],
            true,
        ),
    ]
}

/// Compaction.
pub open spec fn compaction_tests() -> Seq<Entry> {
    seq![
        entry(
            "compaction_standalone",
            "Space reclamation from deleted aggregates on standalone server",
            34,
            seq![Category::Compaction],
            false,
        ),
        entry(
            "compaction_restart",
            "Compacted data remains readable after server restart",
            35,
            seq![Category::Compaction],
            false,
        ),
        entry(
            "compaction_replicated",
            "Leader compaction doesn't corrupt follower data in replicated mode",
            50,
            seq![Category::Compaction],
            true,
        ),
    ]
}

/// Bug reproductions.
pub open spec fn reproductions_tests() -> Seq<Entry> {
    seq![
        entry(
            "bug_kick_after_restart",
            "BUG: kick not delivered after follower restart (follower_reachable=false)",
            40,
            seq![Category::Replication, Category::Edge],
            true,
        ),
    ]
}

/// Debug.
pub open spec fn debug_tests() -> Seq<Entry> {
    seq![
        entry(
            "debug_follower_pressure",
            "Follower under replication queue pressure with external process launch",
            60,
            seq![Category::Debug],
            true,
        ),
        entry(
            "debug_demotion_cull_acked_loss",
            "Fence-bounce demotion cull rewinds past peer-acked entries; reconciliation probe must re-supply them before the leader dies",
            100,
            seq![Category::Debug, Category::Durability],
            true,
        ),
    ]
}

/// Every test, in the order in which a run takes them.
pub open spec fn catalog() -> Seq<Entry> {
    contract_suite_1_tests()
        + contract_suite_2_tests()
        + contract_suite_3_tests()
        + contract_suite_4_tests()
        + contract_suite_5_tests()
        + contract_suite_6_tests()
        + contract_suite_7_tests()
        + contract_suite_8_tests()
        + contract_suite_9_tests()
        + contract_suite_10_tests()
        + contract_suite_11_tests()
        + core_tests()
        + replication_tests()
        + election_tests()
        + fencing_tests()
        + invariant_tests()
        + metamorphic_tests()
        + edge_tests()
        + reproducers_tests()
        + correctness_tests()
        + durability_tests()
        + performance_tests()
        + operations_tests()
        + security_tests()
        + schema_tests()
        + compaction_tests()
        + reproductions_tests()
        + debug_tests()
}

/// Every test, in the order in which a run takes them.
pub fn all_tests() -> (r: &'static [TestEntry])
    ensures
        catalogued(r@) == catalog(),
{
    let table: &'static [TestEntry] = &[
        TestEntry {
            name: "p1_append_reads_back_unchanged",
            description: "Contract suite (phase1)",
            estimated_secs: 10,
            categories: &[Category::Core],
            distributed: false,
        },
        TestEntry {
            name: "p1_reads_are_ordered_and_gap_free",
            description: "Contract suite (phase1)",
            estimated_secs: 10,
            categories: &[Category::Core],
            distributed: false,
        },
        TestEntry {
            name: "p1_version_tracks_batch_count",
            description: "Contract suite (phase1)",
            estimated_secs: 10,
            categories: &[Category::Core],
            distributed: false,
        },
        TestEntry {
            name: "p1_read_missing_aggregate_errors",
            description: "Contract suite (phase1)",
            estimated_secs: 10,
            categories: &[Category::Core],
            distributed: false,
        },
        TestEntry {
            name: "p1_empty_write_rejected",
            description: "Contract suite (phase1)",
            estimated_secs: 10,
            categories: &[Category::Core],
            distributed: false,
        },
        TestEntry {
            name: "p1_zero_event_type_rejected",
            description: "Contract suite (phase1)",
            estimated_secs: 10,
            categories: &[Category::Core],
            distributed: false,
        },
        TestEntry {
            name: "p1_write_no_create_rejected",
            description: "Contract suite (phase1)",
            estimated_secs: 10,
            categories: &[Category::Core],
            distributed: false,
        },
        TestEntry {
            name: "p1_pagination_streams_whole_aggregate",
            description: "Contract suite (phase1)",
            estimated_secs: 10,
            categories: &[Category::Core],
            distributed: false,
        },
        TestEntry {
            name: "p1_offset_filter_bounds_range",
            description: "Contract suite (phase1)",
            estimated_secs: 10,
            categories: &[Category::Core],
            distributed: false,
        },
        TestEntry {
            name: "p1_event_type_filter",
            description: "Contract suite (phase1)",
            estimated_secs: 10,
            categories: &[Category::Core],
            distributed: false,
        },
        TestEntry {
            name: "p1_client_id_filter",
            description: "Contract suite (phase1)",
            estimated_secs: 10,
            categories: &[Category::Core],
            distributed: false,
        },
        TestEntry {
            name: "p1_writes_survive_restart",
            description: "Contract suite (phase1)",
            estimated_secs: 10,
            categories: &[Category::Core],
            distributed: false,
        },
        TestEntry {
            name: "p1_exclude_client_id_filter",
            description: "Contract suite (phase1)",
            estimated_secs: 10,
            categories: &[Category::Core],
            distributed: false,
        },
        TestEntry {
            name: "p1_multi_event_batch_preserves_order",
            description: "Contract suite (phase1)",
            estimated_secs: 10,
            categories: &[Category::Core],
            distributed: false,
        },
        TestEntry {
            name: "p1_event_time_range_filter",
            description: "Contract suite (phase1)",
            estimated_secs: 10,
            categories: &[Category::Core],
            distributed: false,
        },
        TestEntry {
            name: "p2_occ_match_commits_and_advances",
            description: "Contract suite (phase2)",
            estimated_secs: 10,
            categories: &[Category::Correctness],
            distributed: false,
        },
        TestEntry {
            name: "p2_occ_stale_rejected_no_append",
            description: "Contract suite (phase2)",
            estimated_secs: 10,
            categories: &[Category::Correctness],
            distributed: false,
        },
        TestEntry {
            name: "p2_occ_create_guard_races_cleanly",
            description: "Contract suite (phase2)",
            estimated_secs: 10,
            categories: &[Category::Correctness],
            distributed: false,
        },
        TestEntry {
            name: "p2_idempotency_dedupes_replay",
            description: "Contract suite (phase2)",
            estimated_secs: 10,
            categories: &[Category::Correctness],
            distributed: false,
        },
        TestEntry {
            name: "p2_idempotency_scoped_per_client",
            description: "Contract suite (phase2)",
            estimated_secs: 10,
            categories: &[Category::Correctness],
            distributed: false,
        },
        TestEntry {
            name: "p2_multi_aggregate_atomic_rollback",
            description: "Contract suite (phase2)",
            estimated_secs: 10,
            categories: &[Category::Correctness],
            distributed: false,
        },
        TestEntry {
            name: "p2_multi_aggregate_cross_shard_rejected",
            description: "Contract suite (phase2)",
            estimated_secs: 10,
            categories: &[Category::Correctness],
            distributed: false,
        },
        TestEntry {
            name: "p2_occ_and_idempotency_compose",
            description: "Contract suite (phase2)",
            estimated_secs: 10,
            categories: &[Category::Correctness],
            distributed: false,
        },
        TestEntry {
            name: "p2_unconditional_write_appends",
            description: "Contract suite (phase2)",
            estimated_secs: 10,
            categories: &[Category::Correctness],
            distributed: false,
        },
        TestEntry {
            name: "p3_trim_drops_prefix",
            description: "Contract suite (phase3)",
            estimated_secs: 15,
            categories: &[Category::Correctness],
            distributed: false,
        },
        TestEntry {
            name: "p3_trim_preserves_remaining",
            description: "Contract suite (phase3)",
            estimated_secs: 15,
            categories: &[Category::Correctness],
            distributed: false,
        },
        TestEntry {
            name: "p3_trim_out_of_range_rejected",
            description: "Contract suite (phase3)",
            estimated_secs: 15,
            categories: &[Category::Correctness],
            distributed: false,
        },
        TestEntry {
            name: "p3_trim_missing_rejected",
            description: "Contract suite (phase3)",
            estimated_secs: 15,
            categories: &[Category::Correctness],
            distributed: false,
        },
        TestEntry {
            name: "p3_delete_removes_aggregate",
            description: "Contract suite (phase3)",
            estimated_secs: 15,
            categories: &[Category::Correctness],
            distributed: false,
        },
        TestEntry {
            name: "p3_delete_no_recreate_blocks_rewrite",
            description: "Contract suite (phase3)",
            estimated_secs: 15,
            categories: &[Category::Correctness],
            distributed: false,
        },
        TestEntry {
            name: "p3_delete_recreate_allows_rewrite",
            description: "Contract suite (phase3)",
            estimated_secs: 15,
            categories: &[Category::Correctness],
            distributed: false,
        },
        TestEntry {
            name: "p3_delete_conditional_guard",
            description: "Contract suite (phase3)",
            estimated_secs: 15,
            categories: &[Category::Correctness],
            distributed: false,
        },
        TestEntry {
            name: "p3_delete_missing_rejected",
            description: "Contract suite (phase3)",
            estimated_secs: 15,
            categories: &[Category::Correctness],
            distributed: false,
        },
        TestEntry {
            name: "p3_delete_sequence_continuation",
            description: "Contract suite (phase3)",
            estimated_secs: 15,
            categories: &[Category::Correctness],
            distributed: false,
        },
        TestEntry {
            name: "p3_delete_cross_shard_rejected",
            description: "Contract suite (phase3)",
            estimated_secs: 15,
            categories: &[Category::Correctness],
            distributed: false,
        },
        TestEntry {
            name: "p4_schema_rejects_bad_event",
            description: "Contract suite (phase4)",
            estimated_secs: 10,
            categories: &[Category::Schema],
            distributed: false,
        },
        TestEntry {
            name: "p4_schema_accepts_good_event",
            description: "Contract suite (phase4)",
            estimated_secs: 10,
            categories: &[Category::Schema],
            distributed: false,
        },
        TestEntry {
            name: "p4_schema_duplicate_register_rejected",
            description: "Contract suite (phase4)",
            estimated_secs: 10,
            categories: &[Category::Schema],
            distributed: false,
        },
        TestEntry {
            name: "p4_schema_invalid_register_rejected",
            description: "Contract suite (phase4)",
            estimated_secs: 10,
            categories: &[Category::Schema],
            distributed: false,
        },
        TestEntry {
            name: "p4_schema_unregistered_version_unvalidated",
            description: "Contract suite (phase4)",
            estimated_secs: 10,
            categories: &[Category::Schema],
            distributed: false,
        },
        TestEntry {
            name: "p5_watch_notifies_on_write",
            description: "Contract suite (phase5)",
            estimated_secs: 15,
            categories: &[Category::Core],
            distributed: false,
        },
        TestEntry {
            name: "p5_watch_incompatible_filter_rejected",
            description: "Contract suite (phase5)",
            estimated_secs: 15,
            categories: &[Category::Core],
            distributed: false,
        },
        TestEntry {
            name: "p5_watch_latency_too_high_rejected",
            description: "Contract suite (phase5)",
            estimated_secs: 15,
            categories: &[Category::Core],
            distributed: false,
        },
        TestEntry {
            name: "p5_watch_cursor_misses_no_events",
            description: "Contract suite (phase5)",
            estimated_secs: 15,
            categories: &[Category::Core],
            distributed: false,
        },
        TestEntry {
            name: "p5_watch_operations_are_distinct",
            description: "Contract suite (phase5)",
            estimated_secs: 15,
            categories: &[Category::Core],
            distributed: false,
        },
        TestEntry {
            name: "p5_watch_create_notification_carries_version_range",
            description: "Contract suite (phase5)",
            estimated_secs: 15,
            categories: &[Category::Core],
            distributed: false,
        },
        TestEntry {
            name: "p6_cluster_elects_single_leader",
            description: "Contract suite (phase6)",
            estimated_secs: 60,
            categories: &[Category::Replication, Category::Election],
            distributed: true,
        },
        TestEntry {
            name: "p6_cluster_replicates_and_rejects_follower_write",
            description: "Contract suite (phase6)",
            estimated_secs: 60,
            categories: &[Category::Replication, Category::Election],
            distributed: true,
        },
        TestEntry {
            name: "p6_follower_read_converges",
            description: "Contract suite (phase6)",
            estimated_secs: 60,
            categories: &[Category::Replication, Category::Election],
            distributed: true,
        },
        TestEntry {
            name: "p6_failover_promotes_follower",
            description: "Contract suite (phase6)",
            estimated_secs: 60,
            categories: &[Category::Replication, Category::Election],
            distributed: true,
        },
        TestEntry {
            name: "p7_concurrent_occ_writers_one_wins",
            description: "Contract suite (phase7)",
            estimated_secs: 25,
            categories: &[Category::Correctness, Category::Invariant],
            distributed: false,
        },
        TestEntry {
            name: "p7_concurrent_creators_one_wins",
            description: "Contract suite (phase7)",
            estimated_secs: 25,
            categories: &[Category::Correctness, Category::Invariant],
            distributed: false,
        },
        TestEntry {
            name: "p7_concurrent_idempotent_retries_dedupe",
            description: "Contract suite (phase7)",
            estimated_secs: 25,
            categories: &[Category::Correctness, Category::Invariant],
            distributed: false,
        },
        TestEntry {
            name: "p7_per_aggregate_order_across_shards",
            description: "Contract suite (phase7)",
            estimated_secs: 25,
            categories: &[Category::Correctness, Category::Invariant],
            distributed: false,
        },
        TestEntry {
            name: "p7_large_values_long_stream_intact",
            description: "Contract suite (phase7)",
            estimated_secs: 25,
            categories: &[Category::Correctness, Category::Invariant],
            distributed: false,
        },
        TestEntry {
            name: "p8_replication_link_cut_acks_via_s3_and_heals",
            description: "Contract suite (phase8)",
            estimated_secs: 90,
            categories: &[Category::Replication, Category::Edge],
            distributed: true,
        },
        TestEntry {
            name: "p8_s3_outage_leader_keeps_serving",
            description: "Contract suite (phase8)",
            estimated_secs: 90,
            categories: &[Category::Replication, Category::Edge],
            distributed: true,
        },
        TestEntry {
            name: "p8_crash_follower_restart_data_survives",
            description: "Contract suite (phase8)",
            estimated_secs: 90,
            categories: &[Category::Replication, Category::Edge],
            distributed: true,
        },
        TestEntry {
            name: "p8_exactly_once_across_failover",
            description: "Contract suite (phase8)",
            estimated_secs: 90,
            categories: &[Category::Replication, Category::Edge],
            distributed: true,
        },
        TestEntry {
            name: "p8_leader_follower_read_parity",
            description: "Contract suite (phase8)",
            estimated_secs: 90,
            categories: &[Category::Replication, Category::Edge],
            distributed: true,
        },
        TestEntry {
            name: "p9_mtls_require_good_client_connects",
            description: "Contract suite (phase9)",
            estimated_secs: 25,
            categories: &[Category::Security],
            distributed: false,
        },
        TestEntry {
            name: "p9_mtls_require_untrusted_ca_refused",
            description: "Contract suite (phase9)",
            estimated_secs: 25,
            categories: &[Category::Security],
            distributed: false,
        },
        TestEntry {
            name: "p9_mtls_require_no_cert_refused",
            description: "Contract suite (phase9)",
            estimated_secs: 25,
            categories: &[Category::Security],
            distributed: false,
        },
        TestEntry {
            name: "p9_tls_strict_refuses_plaintext",
            description: "Contract suite (phase9)",
            estimated_secs: 25,
            categories: &[Category::Security],
            distributed: false,
        },
        TestEntry {
            name: "p9_tls_client_auth_none_allows_anonymous",
            description: "Contract suite (phase9)",
            estimated_secs: 25,
            categories: &[Category::Security],
            distributed: false,
        },
        TestEntry {
            name: "p9_identity_required_but_absent_rejected",
            description: "Contract suite (phase9)",
            estimated_secs: 25,
            categories: &[Category::Security],
            distributed: false,
        },
        TestEntry {
            name: "p9_public_key_identity_accepted_and_deterministic",
            description: "Contract suite (phase9)",
            estimated_secs: 25,
            categories: &[Category::Security],
            distributed: false,
        },
        TestEntry {
            name: "p9_identity_bad_signature_rejected",
            description: "Contract suite (phase9)",
            estimated_secs: 25,
            categories: &[Category::Security],
            distributed: false,
        },
        TestEntry {
            name: "p9_identity_clientid_mismatch_rejected",
            description: "Contract suite (phase9)",
            estimated_secs: 25,
            categories: &[Category::Security],
            distributed: false,
        },
        TestEntry {
            name: "p10_avro_accepts_conforming_payload",
            description: "Contract suite (phase10)",
            estimated_secs: 20,
            categories: &[Category::Schema],
            distributed: false,
        },
        TestEntry {
            name: "p10_avro_rejects_nonconforming_payload",
            description: "Contract suite (phase10)",
            estimated_secs: 20,
            categories: &[Category::Schema],
            distributed: false,
        },
        TestEntry {
            name: "p10_avro_malformed_schema_rejected",
            description: "Contract suite (phase10)",
            estimated_secs: 20,
            categories: &[Category::Schema],
            distributed: false,
        },
        TestEntry {
            name: "p10_protobuf_accepts_conforming_payload",
            description: "Contract suite (phase10)",
            estimated_secs: 20,
            categories: &[Category::Schema],
            distributed: false,
        },
        TestEntry {
            name: "p10_protobuf_rejects_nonconforming_payload",
            description: "Contract suite (phase10)",
            estimated_secs: 20,
            categories: &[Category::Schema],
            distributed: false,
        },
        TestEntry {
            name: "p10_protobuf_malformed_schema_rejected",
            description: "Contract suite (phase10)",
            estimated_secs: 20,
            categories: &[Category::Schema],
            distributed: false,
        },
        TestEntry {
            name: "p10_avro_duplicate_register_rejected",
            description: "Contract suite (phase10)",
            estimated_secs: 20,
            categories: &[Category::Schema],
            distributed: false,
        },
        TestEntry {
            name: "p10_encrypted_payload_roundtrips_unchanged",
            description: "Contract suite (phase10)",
            estimated_secs: 20,
            categories: &[Category::Schema],
            distributed: false,
        },
        TestEntry {
            name: "p10_encrypted_payload_skips_schema_validation",
            description: "Contract suite (phase10)",
            estimated_secs: 20,
            categories: &[Category::Schema],
            distributed: false,
        },
        TestEntry {
            name: "p11_leader_self_fences_on_lost_lease",
            description: "Contract suite (phase11)",
            estimated_secs: 120,
            categories: &[Category::Election, Category::Fencing],
            distributed: true,
        },
        TestEntry {
            name: "p11_notleader_redirect_carries_leader_address",
            description: "Contract suite (phase11)",
            estimated_secs: 120,
            categories: &[Category::Election, Category::Fencing],
            distributed: true,
        },
        TestEntry {
            name: "p11_throttled_link_preserves_acked_writes",
            description: "Contract suite (phase11)",
            estimated_secs: 120,
            categories: &[Category::Election, Category::Fencing],
            distributed: true,
        },
        TestEntry {
            name: "p11_compaction_reclaims_after_trim",
            description: "Contract suite (phase11)",
            estimated_secs: 120,
            categories: &[Category::Election, Category::Fencing],
            distributed: true,
        },
        TestEntry {
            name: "single",
            description: "Basic CRUD operations, idempotency, and listing functionality",
            estimated_secs: 10,
            categories: &[Category::Core],
            distributed: false,
        },
        TestEntry {
            name: "batch",
            description: "Write throughput and latency benchmark in standalone and replicated modes",
            estimated_secs: 210,
            categories: &[Category::Core, Category::Performance, Category::RequiresKtls],
            distributed: true,
        },
        TestEntry {
            name: "batch_standalone_cleartext",
            description: "Plaintext standalone write throughput and latency benchmark",
            estimated_secs: 60,
            categories: &[Category::Core, Category::Performance],
            distributed: false,
        },
        TestEntry {
            name: "batch_standalone_compressed",
            description: "Plaintext standalone write throughput with ~3 KiB compressed (ZstdDict) payloads",
            estimated_secs: 40,
            categories: &[Category::Core, Category::Performance],
            distributed: false,
        },
        TestEntry {
            name: "batch_replicated_cleartext",
            description: "Plaintext replicated write throughput and latency benchmark",
            estimated_secs: 60,
            categories: &[Category::Core, Category::Performance],
            distributed: true,
        },
        TestEntry {
            name: "read_list_benchmark",
            description: "Read and list performance benchmark with large WAL and concurrent ops",
            estimated_secs: 150,
            categories: &[Category::Core, Category::Performance],
            distributed: false,
        },
        TestEntry {
            name: "rpi_cluster_bench",
            description: "Write benchmark against a remote RPi cluster over mTLS",
            estimated_secs: 60,
            categories: &[Category::Performance, Category::Rpi],
            distributed: true,
        },
        TestEntry {
            name: "rpi_cluster_pool_bench",
            description: "Pool-based write benchmark with automatic leader failover",
            estimated_secs: 60,
            categories: &[Category::Performance, Category::Rpi],
            distributed: true,
        },
        TestEntry {
            name: "chaos",
            description: "Concurrent read/write testing with variable large payload sizes",
            estimated_secs: 31,
            categories: &[Category::Core],
            distributed: false,
        },
        TestEntry {
            name: "chaos_delete",
            description: "Concurrent write/delete/read testing with verification",
            estimated_secs: 31,
            categories: &[Category::Core],
            distributed: false,
        },
        TestEntry {
            name: "chaos_watch",
            description: "Adversarial watch lifecycle (churn, half-open, slow readers, multi-shard) under read/write load",
            estimated_secs: 30,
            categories: &[Category::Core, Category::Edge],
            distributed: false,
        },
        TestEntry {
            name: "watch_failover",
            description: "Watch delivery history stays consistent with the final read across a leader kill + promotion + reconnect",
            estimated_secs: 60,
            categories: &[Category::Replication, Category::Election, Category::Edge],
            distributed: true,
        },
        TestEntry {
            name: "watch_follower_promotion",
            description: "Follower-side watch subscriber across a promotion: every acked event delivered exactly once, in order, parked tail events fire on the promotion commit",
            estimated_secs: 60,
            categories: &[Category::Replication, Category::Election, Category::Edge],
            distributed: true,
        },
        TestEntry {
            name: "connection_test",
            description: "Connection lifecycle, pipelining, and shard routing",
            estimated_secs: 1,
            categories: &[Category::Core],
            distributed: false,
        },
        TestEntry {
            name: "watch_test",
            description: "Watch API streaming subscriptions",
            estimated_secs: 9,
            categories: &[Category::Core],
            distributed: false,
        },
        TestEntry {
            name: "multi_shard_watch_test",
            description: "Multi-shard watch API with fallback behavior and event merging",
            estimated_secs: 46,
            categories: &[Category::Core],
            distributed: false,
        },
        TestEntry {
            name: "typed_operations",
            description: "Typed convenience methods, auto-compression, and error matching",
            estimated_secs: 1,
            categories: &[Category::Core],
            distributed: false,
        },
        TestEntry {
            name: "pool_test",
            description: "Connection pool operations, lifecycle, and idle eviction",
            estimated_secs: 1,
            categories: &[Category::Core],
            distributed: false,
        },
        TestEntry {
            name: "s3_fallback_catchup",
            description: "Full cycle: normal replication -> S3 fallback -> follower boot catchup",
            estimated_secs: 21,
            categories: &[Category::Replication],
            distributed: true,
        },
        TestEntry {
            name: "s3_fallback_s3_down",
            description: "Writes rejected when both follower offline and S3 unreachable",
            estimated_secs: 40,
            categories: &[Category::Replication],
            distributed: true,
        },
        TestEntry {
            name: "s3_fallback_createonly",
            description: "CreateOnly prevents overwrites of existing S3 fallback objects",
            estimated_secs: 11,
            categories: &[Category::Replication],
            distributed: true,
        },
        TestEntry {
            name: "s3_degraded_segment_summaries",
            description: "Sealed-segment .summary sidecars land on local NVMe across rotations on both TCP and S3 fallback paths",
            estimated_secs: 200,
            categories: &[Category::Replication, Category::Durability],
            distributed: true,
        },
        TestEntry {
            name: "s3_follower_crash",
            description: "Leader detects heartbeat loss, pre-renews S3 lease, continues writes",
            estimated_secs: 25,
            categories: &[Category::Replication],
            distributed: true,
        },
        TestEntry {
            name: "s3_follower_kick",
            description: "Coordinated kick: network block -> WAL gap -> kick -> S3 catchup",
            estimated_secs: 21,
            categories: &[Category::Replication],
            distributed: true,
        },
        TestEntry {
            name: "s3_leader_solo",
            description: "Leader alone with S3 fallback, late-joining follower catches up via S3",
            estimated_secs: 18,
            categories: &[Category::Replication],
            distributed: true,
        },
        TestEntry {
            name: "standalone_to_distributed",
            description: "Standalone-to-distributed WAL migration and replication convergence",
            estimated_secs: 41,
            categories: &[Category::Replication, Category::Operations],
            distributed: true,
        },
        TestEntry {
            name: "follower_notify_liveness",
            description: "Idle-tail commit-notify convergence bound (burst tail + lone write)",
            estimated_secs: 40,
            categories: &[Category::Core],
            distributed: true,
        },
        TestEntry {
            name: "follower_read_snapshot",
            description: "Replicated data visibility and delete/trim operations on follower",
            estimated_secs: 13,
            categories: &[Category::Replication],
            distributed: true,
        },
        TestEntry {
            name: "leader_read_visibility",
            description: "Data not visible until replication completes (read-after-write invariant)",
            estimated_secs: 23,
            categories: &[Category::Replication],
            distributed: true,
        },
        TestEntry {
            name: "s3_election",
            description: "Cold-start S3 election and split-brain prevention via CreateOnly race",
            estimated_secs: 10,
            categories: &[Category::Election],
            distributed: true,
        },
        TestEntry {
            name: "s3_failover_and_recovery",
            description: "Complete failover cycle: leader crash, follower takeover, old leader recovers as follower",
            estimated_secs: 26,
            categories: &[Category::Election, Category::Replication],
            distributed: true,
        },
        TestEntry {
            name: "s3_failover_latency",
            description: "Failover latency measurement from leader crash to follower accepting writes",
            estimated_secs: 16,
            categories: &[Category::Election, Category::Performance],
            distributed: true,
        },
        TestEntry {
            name: "s3_stale_lease",
            description: "Stale lease node rejoins as follower instead of attempting takeover",
            estimated_secs: 19,
            categories: &[Category::Election],
            distributed: true,
        },
        TestEntry {
            name: "s3_lease_monotonicity",
            description: "Lease epoch strictly monotonically increasing across consecutive failovers",
            estimated_secs: 24,
            categories: &[Category::Election],
            distributed: true,
        },
        TestEntry {
            name: "s3_unreachable_failover",
            description: "Dual failure: both nodes fence when S3 + TCP down, both reject writes, recover when restored",
            estimated_secs: 30,
            categories: &[Category::Election, Category::Fencing],
            distributed: true,
        },
        TestEntry {
            name: "s3_lease_renewal_backoff",
            description: "S3 lease renewal backs off during follower outage instead of hammering at heartbeat rate",
            estimated_secs: 25,
            categories: &[Category::Election],
            distributed: true,
        },
        TestEntry {
            name: "s3_fencing_writes",
            description: "Fenced nodes reject all write operations",
            estimated_secs: 11,
            categories: &[Category::Fencing],
            distributed: true,
        },
        TestEntry {
            name: "s3_concurrent_cas",
            description: "Partition + CAS race + reconvergence: proxy replication, fencing, S3 race, single leader",
            estimated_secs: 28,
            categories: &[Category::Fencing, Category::Election, Category::Replication],
            distributed: true,
        },
        TestEntry {
            name: "invariant_clock_drift_rejection",
            description: "Follower rejects replication when clock drift exceeds threshold",
            estimated_secs: 25,
            categories: &[Category::Invariant, Category::Replication],
            distributed: true,
        },
        TestEntry {
            name: "invariant_held_seq_sibling_recovery",
            description: "A held client_seq consumed by a sibling yields a 2002 that must be verified, not trusted",
            estimated_secs: 1,
            categories: &[Category::Invariant, Category::Correctness],
            distributed: false,
        },
        TestEntry {
            name: "invariant_occ_before_idempotency",
            description: "OCC check fires before idempotency when both would fail",
            estimated_secs: 1,
            categories: &[Category::Invariant, Category::Correctness],
            distributed: false,
        },
        TestEntry {
            name: "reference_account_service",
            description: "Reference BFF: request dedup across replicas, in-memory and Postgres projections",
            estimated_secs: 5,
            categories: &[Category::Invariant, Category::Correctness],
            distributed: false,
        },
        TestEntry {
            name: "invariant_read_count",
            description: "count_events accurately returns the exact number of events written",
            estimated_secs: 36,
            categories: &[Category::Invariant],
            distributed: false,
        },
        TestEntry {
            name: "invariant_concurrent_write",
            description: "Concurrent writes produce correct event count matching successful responses",
            estimated_secs: 1,
            categories: &[Category::Invariant],
            distributed: false,
        },
        TestEntry {
            name: "invariant_replication_convergence",
            description: "Leader and follower have identical event counts after replication settles",
            estimated_secs: 23,
            categories: &[Category::Invariant, Category::Replication],
            distributed: true,
        },
        TestEntry {
            name: "invariant_s3_fallback_dedup",
            description: "S3 boot catchup produces no duplicate events in multi-shard config",
            estimated_secs: 55,
            categories: &[Category::Invariant, Category::Replication],
            distributed: true,
        },
        TestEntry {
            name: "invariant_replication_queue_pressure",
            description: "Throttled follower saturates inflight cap, surfacing ServerBusy backpressure; cluster converges after unthrottle",
            estimated_secs: 37,
            categories: &[Category::Invariant, Category::Replication],
            distributed: true,
        },
        TestEntry {
            name: "metamorphic_leader_follower_parity",
            description: "Leader and follower return byte-identical events, batch indices, and tip hash per aggregate",
            estimated_secs: 20,
            categories: &[Category::Metamorphic, Category::Replication],
            distributed: true,
        },
        TestEntry {
            name: "metamorphic_post_failover_parity",
            description: "Old-leader and new-leader byte-identical after kill, promotion, more writes, and rejoin/catchup",
            estimated_secs: 60,
            categories: &[Category::Metamorphic, Category::Replication, Category::Election],
            distributed: true,
        },
        TestEntry {
            name: "metamorphic_delete_trim_parity",
            description: "Standalone and 2-node cluster make identical delete/trim accept/reject decisions; sequence-continuation recreate resumes at the same version",
            estimated_secs: 30,
            categories: &[Category::Metamorphic],
            distributed: true,
        },
        TestEntry {
            name: "metamorphic_standalone_vs_cluster",
            description: "Standalone and 2-node cluster produce identical event lists modulo cross-run time/UUID artefacts",
            estimated_secs: 30,
            categories: &[Category::Metamorphic],
            distributed: true,
        },
        TestEntry {
            name: "metamorphic_follower_crash_catchup_parity",
            description: "Leader and follower byte-identical after SIGKILL, S3-fallback writes, S3 boot catchup, and resumed TCP replication",
            estimated_secs: 45,
            categories: &[Category::Metamorphic, Category::Replication],
            distributed: true,
        },
        TestEntry {
            name: "metamorphic_divergence_recovery_parity",
            description: "Old leader with divergent WAL truncates + S3-catches-up when rejoining, ends byte-identical with new leader",
            estimated_secs: 130,
            categories: &[Category::Metamorphic, Category::Replication, Category::Election],
            distributed: true,
        },
        TestEntry {
            name: "metamorphic_cull_parity",
            description: "Speculative-tail removal across all three paths — in-process demotion cull, boot divergence truncation, GC-forced reframe — ends byte-identical with no acked loss",
            estimated_secs: 180,
            categories: &[Category::Metamorphic, Category::Replication, Category::Election],
            distributed: true,
        },
        TestEntry {
            name: "edge_empty_replication_batch",
            description: "Heartbeat + replication cycles with no writes produce no inconsistency",
            estimated_secs: 20,
            categories: &[Category::Edge],
            distributed: true,
        },
        TestEntry {
            name: "edge_stale_cache_rotation",
            description: "Log rotation + LRU eviction correctly update cache pointers",
            estimated_secs: 35,
            categories: &[Category::Edge],
            distributed: true,
        },
        TestEntry {
            name: "edge_s3_missing_batches",
            description: "Missing S3 batch detection triggers fatal WalSeqGap error",
            estimated_secs: 32,
            categories: &[Category::Edge],
            distributed: true,
        },
        TestEntry {
            name: "edge_s3_batch_ordering",
            description: "S3 fallback batches correctly ordered during catchup",
            estimated_secs: 32,
            categories: &[Category::Edge],
            distributed: true,
        },
        TestEntry {
            name: "edge_log_rotation_mid_replication",
            description: "Log rotation mid-replication doesn't lose data despite LRU eviction",
            estimated_secs: 90,
            categories: &[Category::Edge],
            distributed: true,
        },
        TestEntry {
            name: "edge_log_eviction_before_s3",
            description: "Evicted log files re-opened transparently for S3 upload",
            estimated_secs: 40,
            categories: &[Category::Edge],
            distributed: true,
        },
        TestEntry {
            name: "edge_heartbeat_lock_contention",
            description: "Split locking keeps heartbeats independent from replication under pressure",
            estimated_secs: 42,
            categories: &[Category::Edge],
            distributed: true,
        },
        TestEntry {
            name: "edge_concurrent_heartbeat_replication_s3",
            description: "S3 uploads without lock contention allow heartbeat flow during queue pressure",
            estimated_secs: 28,
            categories: &[Category::Edge],
            distributed: true,
        },
        TestEntry {
            name: "edge_split_brain_s3_unavailable",
            description: "Heartbeat TTL + S3 CAS prevent writes during dual unavailability",
            estimated_secs: 28,
            categories: &[Category::Edge],
            distributed: true,
        },
        TestEntry {
            name: "edge_s3_batch_boundary_contiguity",
            description: "S3 fallback batch boundaries contiguous under load (WalSeqGap bug)",
            estimated_secs: 45,
            categories: &[Category::Edge, Category::Replication],
            distributed: true,
        },
        TestEntry {
            name: "edge_s3_catchup_after_partition",
            description: "S3 catchup after partition + failover: no WalSeqGap on rejoin",
            estimated_secs: 40,
            categories: &[Category::Edge, Category::Replication],
            distributed: true,
        },
        TestEntry {
            name: "edge_s3_overlap_after_partition",
            description: "Both leaders upload S3 batches during partition: overlapping WAL indices on catchup",
            estimated_secs: 50,
            categories: &[Category::Edge, Category::Replication],
            distributed: true,
        },
        TestEntry {
            name: "edge_corrupted_s3_batch",
            description: "S3 batch CRC32C catches corruption, triggers fatal shutdown",
            estimated_secs: 31,
            categories: &[Category::Edge],
            distributed: true,
        },
        TestEntry {
            name: "edge_list_pagination_cache_eviction",
            description: "Paginated list returns correct results despite WAL sequence cache eviction",
            estimated_secs: 5,
            categories: &[Category::Edge],
            distributed: false,
        },
        TestEntry {
            name: "regression_list_iterator_truncation",
            description: "Shard-listing iterators do not truncate when the discovery probe fails",
            estimated_secs: 15,
            categories: &[Category::Edge],
            distributed: false,
        },
        TestEntry {
            name: "edge_wal_tip_hash_divergence",
            description: "TipHashMismatch detection triggers WAL truncation and S3 catchup auto-heal",
            estimated_secs: 33,
            categories: &[Category::Edge],
            distributed: true,
        },
        TestEntry {
            name: "edge_wal_divergence_and_recovery",
            description: "Leader crash with unreplicated writes, follower diverges, auto-heal via S3 truncation",
            estimated_secs: 54,
            categories: &[Category::Edge],
            distributed: true,
        },
        TestEntry {
            name: "stale_lease_restart_split_brain",
            description: "Stale-lease restart split-brain: HB-Ack `continue` skips S3 renewal, restarting follower CAS-steals stale lease then split brain",
            estimated_secs: 30,
            categories: &[Category::Correctness, Category::Election, Category::Fencing],
            distributed: true,
        },
        TestEntry {
            name: "p1_1_dcb_rollback",
            description: "Multi-aggregate atomic write rolls back completely on OCC failure",
            estimated_secs: 1,
            categories: &[Category::Correctness],
            distributed: false,
        },
        TestEntry {
            name: "p1_2_concurrent_dcb",
            description: "Concurrent multi-aggregate writes handle OCC conflicts in two-phase commit",
            estimated_secs: 1,
            categories: &[Category::Correctness],
            distributed: false,
        },
        TestEntry {
            name: "p1_3_cross_shard_rejection",
            description: "Multi-aggregate writes spanning shards are properly rejected",
            estimated_secs: 1,
            categories: &[Category::Correctness],
            distributed: false,
        },
        TestEntry {
            name: "p1_4_exactly_once",
            description: "Exactly-once writes under connection failure with client-side idempotency",
            estimated_secs: 1,
            categories: &[Category::Correctness],
            distributed: false,
        },
        TestEntry {
            name: "p1_6_ordering_verification",
            description: "Per-aggregate strict total ordering with contiguous monotonic batch indices",
            estimated_secs: 1,
            categories: &[Category::Correctness],
            distributed: false,
        },
        TestEntry {
            name: "p1_7_multitenancy_isolation",
            description: "Multi-tenancy isolation: org A cannot see org B's data",
            estimated_secs: 1,
            categories: &[Category::Correctness],
            distributed: false,
        },
        TestEntry {
            name: "segment_summary_correctness",
            description: "Cross-segment delete barriers, trim, multi-org/type listing, and recreate-after-delete with segment summaries",
            estimated_secs: 30,
            categories: &[Category::Correctness],
            distributed: false,
        },
        TestEntry {
            name: "p2_1_write_survival",
            description: "Acknowledged writes survive SIGKILL in distributed cluster",
            estimated_secs: 17,
            categories: &[Category::Durability],
            distributed: true,
        },
        TestEntry {
            name: "p2_5_blackout_acked_writes_survive",
            description: "Concurrent acked writes survive an S3 blackout + follower kill + heal cycle on both nodes",
            estimated_secs: 120,
            categories: &[Category::Durability, Category::Replication, Category::Metamorphic],
            distributed: true,
        },
        TestEntry {
            name: "idempotency_cold_reconstruction",
            description: "After restart, cold client-seq reverse-WAL reconstruction dedupes a replay across interleaved foreign aggregates",
            estimated_secs: 20,
            categories: &[Category::Correctness, Category::Invariant],
            distributed: false,
        },
        TestEntry {
            name: "idempotency_negative_scan_load",
            description: "Reproduces the negative client-idempotency lookup cost: fresh-producer first-writes to a deep aggregate vs a shallow one",
            estimated_secs: 30,
            categories: &[Category::Performance, Category::Debug],
            distributed: false,
        },
        TestEntry {
            name: "idempotency_negative_scan_present_client",
            description: "a segment-present client (bloom can't short-circuit) first-writing to a deep aggregate vs a shallow one",
            estimated_secs: 30,
            categories: &[Category::Performance, Category::Debug],
            distributed: false,
        },
        TestEntry {
            name: "idempotency_restart_fanin",
            description: "After kill+restart, a concurrent burst of every client retrying its last seq is fully deduped and a new client still lands",
            estimated_secs: 30,
            categories: &[Category::Correctness, Category::Durability],
            distributed: false,
        },
        TestEntry {
            name: "idempotency_trim_client_state",
            description: "TrimStart keeps per-client idempotency floors (warm and cold) even when a client's entire history is trimmed away",
            estimated_secs: 20,
            categories: &[Category::Correctness, Category::Durability],
            distributed: false,
        },
        TestEntry {
            name: "idempotency_delete_recreate",
            description: "Delete+recreate vs client seq floors: old-seq retries and new clients in both sequence-continuation modes, warm and cold",
            estimated_secs: 20,
            categories: &[Category::Correctness, Category::Durability],
            distributed: false,
        },
        TestEntry {
            name: "recovery_multiseg_read_amplification",
            description: "After kill -9 on a root with sealed segments, first-touch write cost must stay bounded — pins the EBS recovery wedge (schema-absence scan walks the whole WAL when the SchemaKey/AggregateKey bloom-hash collision defeats segment skipping); bytes-read assertion via /proc/<pid>/io",
            estimated_secs: 30,
            categories: &[Category::Durability, Category::Performance],
            distributed: false,
        },
        TestEntry {
            name: "crash_kill9_under_load_durability",
            description: "SIGKILL mid-load past segment rotation, 3 restart cycles on the same data root: acked writes readable exactly once and in order, in-flight writes never duplicated or torn, idempotency floors correct post-recovery",
            estimated_secs: 15,
            categories: &[Category::Correctness, Category::Durability],
            distributed: false,
        },
        TestEntry {
            name: "schema_sealed_segment_survives_crash",
            description: "A schema registered in a segment that then seals (2+ rotations) is still enforced and findable after kill -9 + restart, for pre-crash and new aggregates — including the SchemaKey/AggregateKey bloom-collision shape where segment skipping is most tempted to over-skip",
            estimated_secs: 30,
            categories: &[Category::Correctness, Category::Durability, Category::Schema],
            distributed: false,
        },
        TestEntry {
            name: "sidecar_size_tracks_cardinality",
            description: "A sealed segment holding a small key population (~64 aggregates, 4 clients) must produce a .summary sidecar under 64 KiB — blooms right-sized at seal from true cardinality, not fixed ~393 KB — and the shrunken sidecars must still serve post-kill-9 recovery",
            estimated_secs: 30,
            categories: &[Category::Operations, Category::Performance],
            distributed: false,
        },
        TestEntry {
            name: "idempotency_across_seal",
            description: "Client seq floors survive segment rotation: pre-seal seq retries rejected and new clients accepted, warm and after restart",
            estimated_secs: 60,
            categories: &[Category::Correctness, Category::Durability],
            distributed: false,
        },
        TestEntry {
            name: "p2_2_dual_restart",
            description: "Both nodes restart simultaneously, S3 lease race resolves cleanly",
            estimated_secs: 14,
            categories: &[Category::Durability],
            distributed: true,
        },
        TestEntry {
            name: "p2_3_wal_corruption",
            description: "WAL on-disk corruption detected via CRC32C mismatch on restart",
            estimated_secs: 6,
            categories: &[Category::Durability],
            distributed: false,
        },
        TestEntry {
            name: "storage_corruption_header_recovery",
            description: "Corrupt primary WAL header → node recovers byte-identical from the backup header",
            estimated_secs: 8,
            categories: &[Category::Durability],
            distributed: false,
        },
        TestEntry {
            name: "wal_mid_datablock_truncation",
            description: "Torn uncommitted datablock bytes are invisible on restart and safely overwritten",
            estimated_secs: 8,
            categories: &[Category::Durability],
            distributed: false,
        },
        TestEntry {
            name: "s3_to_tcp_failback",
            description: "Follower booting into S3 catchup with S3 dead fails back to TCP bridging",
            estimated_secs: 60,
            categories: &[Category::Replication, Category::Durability],
            distributed: true,
        },
        TestEntry {
            name: "p2_4_s3_capacity",
            description: "S3 degraded-mode capacity with large-volume fallback and follower catchup",
            estimated_secs: 42,
            categories: &[Category::Durability],
            distributed: true,
        },
        TestEntry {
            name: "p3_1_cold_read_latency",
            description: "Cold read latency after cache eviction measures reverse WAL scan + LRU",
            estimated_secs: 22,
            categories: &[Category::Performance],
            distributed: false,
        },
        TestEntry {
            name: "p3_2_bloom_filter",
            description: "Bloom filter prevents unnecessary disk scans for missing aggregates",
            estimated_secs: 42,
            categories: &[Category::Performance],
            distributed: false,
        },
        TestEntry {
            name: "p3_3_sequential_cold_reads",
            description: "Sustained cold sequential read throughput for audit/replay access patterns",
            estimated_secs: 39,
            categories: &[Category::Performance],
            distributed: false,
        },
        TestEntry {
            name: "p3_4_read_thundering_herd",
            description: "Concurrent distinct cold reads stress the reverse-scan path; verifies the read semaphore bounds NVMe load without wedging, and surfaces read amplification",
            estimated_secs: 90,
            categories: &[Category::Performance],
            distributed: false,
        },
        TestEntry {
            name: "p4_1_rolling_upgrade",
            description: "Rolling upgrade with zero downtime: writes continue through node restarts",
            estimated_secs: 19,
            categories: &[Category::Operations],
            distributed: true,
        },
        TestEntry {
            name: "mtls_test",
            description: "mTLS handshake, plaintext rejection, and certificate trust validation",
            estimated_secs: 2,
            categories: &[Category::Security],
            distributed: false,
        },
        TestEntry {
            name: "identity_test",
            description: "Client identity handshake and enforcement",
            estimated_secs: 1,
            categories: &[Category::Security],
            distributed: false,
        },
        TestEntry {
            name: "api_key_test",
            description: "API key auth with read-only and read-write permission enforcement",
            estimated_secs: 1,
            categories: &[Category::Security],
            distributed: false,
        },
        TestEntry {
            name: "schema_validation",
            description: "Schema registration, write enforcement, and WAL recovery",
            estimated_secs: 1,
            categories: &[Category::Schema],
            distributed: false,
        },
        TestEntry {
            name: "schema_zero_cache",
            description: "Schema enforcement with all caches disabled",
            estimated_secs: 1,
            categories: &[Category::Schema],
            distributed: false,
        },
        TestEntry {
            name: "schema_follower_crash",
            description: "Schemas survive follower crash, restart, and promotion",
            estimated_secs: 28,
            categories: &[Category::Schema],
            distributed: true,
        },
        TestEntry {
            name: "schema_old_leader_recovery",
            description: "Schemas survive full A->B->A leadership cycle",
            estimated_secs: 35,
            categories: &[Category::Schema],
            distributed: true,
        },
        TestEntry {
            name: "schema_bank_bench",
            description: "Schema-validated atomic writes throughput and latency benchmark",
            estimated_secs: 180,
            categories: &[Category::Schema, Category::Performance, Category::RequiresKtls],
            distributed: true,
        },
        TestEntry {
            name: "compaction_standalone",
            description: "Space reclamation from deleted aggregates on standalone server",
            estimated_secs: 34,
            categories: &[Category::Compaction],
            distributed: false,
        },
        TestEntry {
            name: "compaction_restart",
            description: "Compacted data remains readable after server restart",
            estimated_secs: 35,
            categories: &[Category::Compaction],
            distributed: false,
        },
        TestEntry {
            name: "compaction_replicated",
            description: "Leader compaction doesn't corrupt follower data in replicated mode",
            estimated_secs: 50,
            categories: &[Category::Compaction],
            distributed: true,
        },
        TestEntry {
            name: "bug_kick_after_restart",
            description: "BUG: kick not delivered after follower restart (follower_reachable=false)",
            estimated_secs: 40,
            categories: &[Category::Replication, Category::Edge],
            distributed: true,
        },
        TestEntry {
            name: "debug_follower_pressure",
            description: "Follower under replication queue pressure with external process launch",
            estimated_secs: 60,
            categories: &[Category::Debug],
            distributed: true,
        },
        TestEntry {
            name: "debug_demotion_cull_acked_loss",
            description: "Fence-bounce demotion cull rewinds past peer-acked entries; reconciliation probe must re-supply them before the leader dies",
            estimated_secs: 100,
            categories: &[Category::Debug, Category::Durability],
            distributed: true,
        },
    ];
    assert(catalogued(table@).subrange(0, 15) =~~= contract_suite_1_tests());
    assert(catalogued(table@).subrange(15, 24) =~~= contract_suite_2_tests());
    assert(catalogued(table@).subrange(24, 35) =~~= contract_suite_3_tests());
    assert(catalogued(table@).subrange(35, 40) =~~= contract_suite_4_tests());
    assert(catalogued(table@).subrange(40, 46) =~~= contract_suite_5_tests());
    assert(catalogued(table@).subrange(46, 50) =~~= contract_suite_6_tests());
    assert(catalogued(table@).subrange(50, 55) =~~= contract_suite_7_tests());
    assert(catalogued(table@).subrange(55, 60) =~~= contract_suite_8_tests());
    assert(catalogued(table@).subrange(60, 69) =~~= contract_suite_9_tests());
    assert(catalogued(table@).subrange(69, 78) =~~= contract_suite_10_tests());
    assert(catalogued(table@).subrange(78, 82) =~~= contract_suite_11_tests());
    assert(catalogued(table@).subrange(82, 100) =~~= core_tests());
    assert(catalogued(table@).subrange(100, 111) =~~= replication_tests());
    assert(catalogued(table@).subrange(111, 118) =~~= election_tests());
    assert(catalogued(table@).subrange(118, 120) =~~= fencing_tests());
    assert(catalogued(table@).subrange(120, 129) =~~= invariant_tests());
    assert(catalogued(table@).subrange(129, 136) =~~= metamorphic_tests());
    assert(catalogued(table@).subrange(136, 153) =~~= edge_tests());
    assert(catalogued(table@).subrange(153, 154) =~~= reproducers_tests());
    assert(catalogued(table@).subrange(154, 161) =~~= correctness_tests());
    assert(catalogued(table@).subrange(161, 180) =~~= durability_tests());
    assert(catalogued(table@).subrange(180, 184) =~~= performance_tests());
    assert(catalogued(table@).subrange(184, 185) =~~= operations_tests());
    assert(catalogued(table@).subrange(185, 188) =~~= security_tests());
    assert(catalogued(table@).subrange(188, 193) =~~= schema_tests());
    assert(catalogued(table@).subrange(193, 196) =~~= compaction_tests());
    assert(catalogued(table@).subrange(196, 197) =~~= reproductions_tests());
    assert(catalogued(table@).subrange(197, 199) =~~= debug_tests());
    assert(catalogued(table@) =~= catalog());
    table
}

/// Whether an entry is filed under some category and its timeout can be told.
pub open spec fn usable(e: Entry) -> bool {
    &&& e.categories.len() > 0
    &&& e.estimated_secs > 0
    &&& e.estimated_secs * 2 <= u32::MAX
}

/// Whether every entry of a group is usable.
pub open spec fn all_usable(group: Seq<Entry>) -> bool {
    forall|i: int| 0 <= i < group.len() ==> usable(#[trigger] group[i])
}

proof fn lemma_both_usable(a: Seq<Entry>, b: Seq<Entry>)
    requires
        all_usable(a),
        all_usable(b),
    ensures
        all_usable(a + b),
{
    assert forall|i: int| 0 <= i < (a + b).len() implies usable(#[trigger] (a + b)[i]) by {
        if i < a.len() {
            assert((a + b)[i] == a[i]);
        } else {
            assert((a + b)[i] == b[i - a.len()]);
        }
    }
}

proof fn lemma_contract_suite_1_tests()
    ensures
        all_usable(contract_suite_1_tests()),
{
}

proof fn lemma_contract_suite_2_tests()
    ensures
        all_usable(contract_suite_2_tests()),
{
}

proof fn lemma_contract_suite_3_tests()
    ensures
        all_usable(contract_suite_3_tests()),
{
}

proof fn lemma_contract_suite_4_tests()
    ensures
        all_usable(contract_suite_4_tests()),
{
}

proof fn lemma_contract_suite_5_tests()
    ensures
        all_usable(contract_suite_5_tests()),
{
}

proof fn lemma_contract_suite_6_tests()
    ensures
        all_usable(contract_suite_6_tests()),
{
}

proof fn lemma_contract_suite_7_tests()
    ensures
        all_usable(contract_suite_7_tests()),
{
}

proof fn lemma_contract_suite_8_tests()
    ensures
        all_usable(contract_suite_8_tests()),
{
}

proof fn lemma_contract_suite_9_tests()
    ensures
        all_usable(contract_suite_9_tests()),
{
}

proof fn lemma_contract_suite_10_tests()
    ensures
        all_usable(contract_suite_10_tests()),
{
}

proof fn lemma_contract_suite_11_tests()
    ensures
        all_usable(contract_suite_11_tests()),
{
}

proof fn lemma_core_tests()
    ensures
        all_usable(core_tests()),
{
}

proof fn lemma_replication_tests()
    ensures
        all_usable(replication_tests()),
{
}

proof fn lemma_election_tests()
    ensures
        all_usable(election_tests()),
{
}

proof fn lemma_fencing_tests()
    ensures
        all_usable(fencing_tests()),
{
}

proof fn lemma_invariant_tests()
    ensures
        all_usable(invariant_tests()),
{
}

proof fn lemma_metamorphic_tests()
    ensures
        all_usable(metamorphic_tests()),
{
}

proof fn lemma_edge_tests()
    ensures
        all_usable(edge_tests()),
{
}

proof fn lemma_reproducers_tests()
    ensures
        all_usable(reproducers_tests()),
{
}

proof fn lemma_correctness_tests()
    ensures
        all_usable(correctness_tests()),
{
}

proof fn lemma_durability_tests()
    ensures
        all_usable(durability_tests()),
{
}

proof fn lemma_performance_tests()
    ensures
        all_usable(performance_tests()),
{
}

proof fn lemma_operations_tests()
    ensures
        all_usable(operations_tests()),
{
}

proof fn lemma_security_tests()
    ensures
        all_usable(security_tests()),
{
}

proof fn lemma_schema_tests()
    ensures
        all_usable(schema_tests()),
{
}

proof fn lemma_compaction_tests()
    ensures
        all_usable(compaction_tests()),
{
}

proof fn lemma_reproductions_tests()
    ensures
        all_usable(reproductions_tests()),
{
}

proof fn lemma_debug_tests()
    ensures
        all_usable(debug_tests()),
{
}

/// Every test is filed under some category, and has a timeout of a minute at least.
pub proof fn every_test_has_a_category_and_a_timeout(i: int)
    requires
        0 <= i < catalog().len(),
    ensures
        usable(catalog()[i]),
        60 <= catalog()[i].timeout() <= u32::MAX,
{
    lemma_contract_suite_1_tests();
    lemma_contract_suite_2_tests();
    lemma_contract_suite_3_tests();
    lemma_contract_suite_4_tests();
    lemma_contract_suite_5_tests();
    lemma_contract_suite_6_tests();
    lemma_contract_suite_7_tests();
    lemma_contract_suite_8_tests();
    lemma_contract_suite_9_tests();
    lemma_contract_suite_10_tests();
    lemma_contract_suite_11_tests();
    lemma_core_tests();
    lemma_replication_tests();
    lemma_election_tests();
    lemma_fencing_tests();
    lemma_invariant_tests();
    lemma_metamorphic_tests();
    lemma_edge_tests();
    lemma_reproducers_tests();
    lemma_correctness_tests();
    lemma_durability_tests();
    lemma_performance_tests();
    lemma_operations_tests();
    lemma_security_tests();
    lemma_schema_tests();
    lemma_compaction_tests();
    lemma_reproductions_tests();
    lemma_debug_tests();
    let sum = contract_suite_1_tests();
    lemma_both_usable(sum, contract_suite_2_tests());
    let sum = sum + contract_suite_2_tests();
    lemma_both_usable(sum, contract_suite_3_tests());
    let sum = sum + contract_suite_3_tests();
    lemma_both_usable(sum, contract_suite_4_tests());
    let sum = sum + contract_suite_4_tests();
    lemma_both_usable(sum, contract_suite_5_tests());
    let sum = sum + contract_suite_5_tests();
    lemma_both_usable(sum, contract_suite_6_tests());
    let sum = sum + contract_suite_6_tests();
    lemma_both_usable(sum, contract_suite_7_tests());
    let sum = sum + contract_suite_7_tests();
    lemma_both_usable(sum, contract_suite_8_tests());
    let sum = sum + contract_suite_8_tests();
    lemma_both_usable(sum, contract_suite_9_tests());
    let sum = sum + contract_suite_9_tests();
    lemma_both_usable(sum, contract_suite_10_tests());
    let sum = sum + contract_suite_10_tests();
    lemma_both_usable(sum, contract_suite_11_tests());
    let sum = sum + contract_suite_11_tests();
    lemma_both_usable(sum, core_tests());
    let sum = sum + core_tests();
    lemma_both_usable(sum, replication_tests());
    let sum = sum + replication_tests();
    lemma_both_usable(sum, election_tests());
    let sum = sum + election_tests();
    lemma_both_usable(sum, fencing_tests());
    let sum = sum + fencing_tests();
    lemma_both_usable(sum, invariant_tests());
    let sum = sum + invariant_tests();
    lemma_both_usable(sum, metamorphic_tests());
    let sum = sum + metamorphic_tests();
    lemma_both_usable(sum, edge_tests());
    let sum = sum + edge_tests();
    lemma_both_usable(sum, reproducers_tests());
    let sum = sum + reproducers_tests();
    lemma_both_usable(sum, correctness_tests());
    let sum = sum + correctness_tests();
    lemma_both_usable(sum, durability_tests());
    let sum = sum + durability_tests();
    lemma_both_usable(sum, performance_tests());
    let sum = sum + performance_tests();
    lemma_both_usable(sum, operations_tests());
    let sum = sum + operations_tests();
    lemma_both_usable(sum, security_tests());
    let sum = sum + security_tests();
    lemma_both_usable(sum, schema_tests());
    let sum = sum + schema_tests();
    lemma_both_usable(sum, compaction_tests());
    let sum = sum + compaction_tests();
    lemma_both_usable(sum, reproductions_tests());
    let sum = sum + reproductions_tests();
    lemma_both_usable(sum, debug_tests());
    let sum = sum + debug_tests();
    assert(sum == catalog());
}

} // verus!
