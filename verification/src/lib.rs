//! Integration tests and benchmarks of a replicated event store, as verified decisions.
//!
//! A scenario is a script: a list of steps, each with something for the bench to do, what is
//! expected of it, how long it is waited for, and what is said when it does not come. The modules
//! named after scenarios hold those scripts; `script` takes one through a bench, one reply at a
//! time, and `expect` says what a reply means to an expectation. For each script there is a
//! predicate that says directly what it demands of the replies, and a proof that the script passes
//! on exactly those.
//!
//! Beside the scripts stand the parts of scenarios and benchmarks that decide on their own: what a
//! worker asks for next, when a wait is over, how latencies are summed up, what a log has shown,
//! which files of a data directory are segments and summaries. They take plain values and give
//! plain values back; what starts servers and talks to them lives outside the library.
//!
//! `registry` and `catalog` list the tests with their categories and pick those to run.

pub mod account_ledger;
pub mod bench;
pub mod catalog;
pub mod catalog_names;
pub mod cluster;
pub mod codec;
pub mod expect;
pub mod figures;
pub mod gate;
pub mod judging;
pub mod ledger;
pub mod loops;
pub mod model;
pub mod phase11;
pub mod phase2;
pub mod phase3;
pub mod phase4;
pub mod phase5;
pub mod phase6;
pub mod phase7;
pub mod phase8;
pub mod phase9;
pub mod pool_ledger;
pub mod pool_test;
pub mod promotion_failure_process_survival;
pub mod read_list_benchmark;
pub mod read_list_benchmark_main;
pub mod recovery_multiseg_read_amplification;
pub mod reference_account_service;
pub mod registry;
pub mod regression_list_iterator_truncation;
pub mod replication_catchup_main;
pub mod reply;
pub mod report;
pub mod role_sound;
pub mod rpi_cluster_bench;
pub mod rpi_cluster_pool_bench;
pub mod s3_common;
pub mod s3_concurrent_cas;
pub mod s3_degraded_segment_summaries;
pub mod s3_election_main;
pub mod s3_failover;
pub mod s3_failover_latency;
pub mod s3_fallback_catchup;
pub mod s3_fallback_catchup_main;
pub mod s3_fallback_createonly;
pub mod s3_fallback_createonly_main;
pub mod s3_fallback_main;
pub mod s3_fallback_s3_down;
pub mod s3_fallback_s3_down_main;
pub mod s3_fallback_sound;
pub mod s3_fencing_writes_main;
pub mod s3_follower_crash;
pub mod s3_follower_crash_main;
pub mod s3_follower_kick;
pub mod s3_leader_solo_main;
pub mod s3_lease_monotonicity;
pub mod s3_lease_renewal_backoff;
pub mod s3_lease_sound;
pub mod s3_network_partition_main;
pub mod s3_old_leader_recovery_main;
pub mod s3_reconvergence;
pub mod s3_split_brain_main;
pub mod s3_stale_lease;
pub mod s3_to_tcp_failback;
pub mod script;
pub mod segments;
pub mod sorting;
pub mod stats;
pub mod text;
pub mod tls;
pub mod workers;
pub mod workload;
