use celeriant_integration_tests::bench::{Node, Who};
use celeriant_integration_tests::expect::{
    DetailsRule, Expect, FallbackRule, LeaseRule, ListingRule, NumberRule, StreamRule,
};
use celeriant_integration_tests::model::{AggregateKey, Outcome, Refusal};
use celeriant_integration_tests::reply::{
    Batch, FallbackBatch, Lease, Notice, Pair, Reply, StoredEvent,
};
use celeriant_integration_tests::script::{Action, Next, Progress, Run, Step};
use celeriant_integration_tests::segments::FileEntry;
use celeriant_integration_tests::{
    phase2, phase3, phase4, phase5, phase6, phase7, phase8, phase9, phase11, pool_test,
    reference_account_service, promotion_failure_process_survival,
    regression_list_iterator_truncation, replication_catchup_main, s3_concurrent_cas,
    s3_degraded_segment_summaries, s3_election_main, s3_failover, s3_failover_latency,
    s3_fallback_catchup, s3_fallback_catchup_main, s3_fallback_createonly,
    s3_fallback_createonly_main, s3_fallback_main, s3_fallback_s3_down, s3_fallback_s3_down_main,
    s3_fencing_writes_main, s3_follower_crash, s3_follower_crash_main, s3_follower_kick,
    s3_leader_solo_main, s3_lease_monotonicity, s3_lease_renewal_backoff,
    s3_network_partition_main, s3_old_leader_recovery_main, s3_reconvergence, s3_split_brain_main,
    s3_stale_lease, s3_to_tcp_failback,
};

/// Every scenario that is a script, with the number of its steps.
fn scenarios() -> Vec<(&'static str, Vec<Step>, usize)> {
    vec![
        ("phase2::occ_match_commits_and_advances", phase2::occ_match_commits_and_advances(AggregateKey::new(1, 1, 41)), 6),
        ("phase2::occ_stale_rejected_no_append", phase2::occ_stale_rejected_no_append(AggregateKey::new(1, 1, 41)), 7),
        ("phase2::occ_create_guard_races_cleanly", phase2::occ_create_guard_races_cleanly(AggregateKey::new(1, 1, 41)), 4),
        ("phase2::idempotency_dedupes_replay", phase2::idempotency_dedupes_replay(AggregateKey::new(1, 1, 41)), 5),
        ("phase2::idempotency_scoped_per_client", phase2::idempotency_scoped_per_client(AggregateKey::new(1, 1, 41)), 5),
        ("phase2::multi_aggregate_atomic_rollback", phase2::multi_aggregate_atomic_rollback(), 7),
        ("phase2::multi_aggregate_cross_shard_rejected", phase2::multi_aggregate_cross_shard_rejected(), 5),
        ("phase2::occ_and_idempotency_compose", phase2::occ_and_idempotency_compose(AggregateKey::new(1, 1, 41)), 7),
        ("phase2::unconditional_write_appends", phase2::unconditional_write_appends(AggregateKey::new(1, 1, 41)), 6),
        ("phase3::trim_drops_prefix", phase3::trim_drops_prefix(AggregateKey::new(1, 1, 41)), 8),
        ("phase3::trim_preserves_remaining", phase3::trim_preserves_remaining(AggregateKey::new(1, 1, 41)), 8),
        ("phase3::trim_out_of_range_rejected", phase3::trim_out_of_range_rejected(AggregateKey::new(1, 1, 41)), 4),
        ("phase3::trim_missing_rejected", phase3::trim_missing_rejected(AggregateKey::new(1, 1, 41)), 3),
        ("phase3::delete_removes_aggregate", phase3::delete_removes_aggregate(AggregateKey::new(1, 1, 41)), 5),
        ("phase3::delete_no_recreate_blocks_rewrite", phase3::delete_no_recreate_blocks_rewrite(AggregateKey::new(1, 1, 41)), 5),
        ("phase3::delete_recreate_allows_rewrite", phase3::delete_recreate_allows_rewrite(AggregateKey::new(1, 1, 41)), 7),
        ("phase3::delete_conditional_guard", phase3::delete_conditional_guard(AggregateKey::new(1, 1, 41)), 5),
        ("phase3::delete_missing_rejected", phase3::delete_missing_rejected(AggregateKey::new(1, 1, 41)), 3),
        ("phase3::delete_sequence_continuation", phase3::delete_sequence_continuation(AggregateKey::new(1, 1, 41), AggregateKey::new(1, 1, 42)), 15),
        ("phase3::delete_cross_shard_rejected", phase3::delete_cross_shard_rejected(), 7),
        ("phase4::schema_rejects_bad_event", phase4::schema_rejects_bad_event(), 5),
        ("phase4::schema_accepts_good_event", phase4::schema_accepts_good_event(), 6),
        ("phase4::schema_duplicate_register_rejected", phase4::schema_duplicate_register_rejected(), 4),
        ("phase4::schema_invalid_register_rejected", phase4::schema_invalid_register_rejected(), 3),
        ("phase4::schema_unregistered_version_unvalidated", phase4::schema_unregistered_version_unvalidated(), 6),
        ("phase5::watch_notifies_on_write", phase5::watch_notifies_on_write(), 8),
        ("phase5::watch_create_notification_carries_version_range", phase5::watch_create_notification_carries_version_range(), 6),
        ("phase5::watch_incompatible_filter_rejected", phase5::watch_incompatible_filter_rejected(), 3),
        ("phase5::watch_latency_too_high_rejected", phase5::watch_latency_too_high_rejected(), 2),
        ("phase5::watch_cursor_misses_no_events", phase5::watch_cursor_misses_no_events(), 5),
        ("phase5::watch_operations_are_distinct", phase5::watch_operations_are_distinct(), 11),
        ("phase6::cluster_elects_single_leader", phase6::cluster_elects_single_leader(), 4),
        ("phase6::cluster_replicates_and_rejects_follower_write", phase6::cluster_replicates_and_rejects_follower_write(), 8),
        ("phase6::follower_read_converges", phase6::follower_read_converges(), 7),
        ("phase6::failover_promotes_follower", phase6::failover_promotes_follower(), 10),
        ("phase7::concurrent_occ_writers_one_wins", phase7::concurrent_occ_writers_one_wins(AggregateKey::new(1, 1, 41)), 6),
        ("phase7::concurrent_creators_one_wins", phase7::concurrent_creators_one_wins(AggregateKey::new(1, 1, 41)), 5),
        ("phase7::concurrent_idempotent_retries_dedupe", phase7::concurrent_idempotent_retries_dedupe(AggregateKey::new(1, 1, 41)), 5),
        ("phase7::per_aggregate_order_across_shards", phase7::per_aggregate_order_across_shards(), 27),
        ("phase7::large_values_long_stream_intact", phase7::large_values_long_stream_intact(AggregateKey::new(1, 1, 41)), 4),
        ("phase8::replication_link_cut_acks_via_s3_and_heals", phase8::replication_link_cut_acks_via_s3_and_heals(), 13),
        ("phase8::s3_outage_leader_keeps_serving", phase8::s3_outage_leader_keeps_serving(), 13),
        ("phase8::crash_follower_restart_data_survives", phase8::crash_follower_restart_data_survives(), 12),
        ("phase8::exactly_once_across_failover", phase8::exactly_once_across_failover(), 14),
        ("phase8::leader_follower_read_parity", phase8::leader_follower_read_parity(), 15),
        ("phase9::mtls_require_good_client_connects", phase9::mtls_require_good_client_connects(), 4),
        ("phase9::mtls_require_untrusted_ca_refused", phase9::mtls_require_untrusted_ca_refused(), 3),
        ("phase9::mtls_require_no_cert_refused", phase9::mtls_require_no_cert_refused(), 3),
        ("phase9::tls_strict_refuses_plaintext", phase9::tls_strict_refuses_plaintext(), 3),
        ("phase9::tls_client_auth_none_allows_anonymous", phase9::tls_client_auth_none_allows_anonymous(), 4),
        ("phase9::identity_required_but_absent_rejected", phase9::identity_required_but_absent_rejected(), 3),
        ("phase9::public_key_identity_accepted_and_deterministic", phase9::public_key_identity_accepted_and_deterministic(), 4),
        ("phase9::identity_bad_signature_rejected", phase9::identity_bad_signature_rejected(), 3),
        ("phase9::identity_clientid_mismatch_rejected", phase9::identity_clientid_mismatch_rejected(), 4),
        ("phase11::leader_self_fences_on_lost_lease", phase11::leader_self_fences_on_lost_lease(), 17),
        ("phase11::notleader_redirect_carries_leader_address", phase11::notleader_redirect_carries_leader_address(), 9),
        ("phase11::throttled_link_preserves_acked_writes", phase11::throttled_link_preserves_acked_writes(), 14),
        ("phase11::compaction_reclaims_after_trim", phase11::compaction_reclaims_after_trim(), 6),
        ("pool_test::test_pool_write", pool_test::test_pool_write(), 1),
        ("pool_test::test_pool_write_events", pool_test::test_pool_write_events(), 1),
        ("pool_test::test_pool_read", pool_test::test_pool_read(), 3),
        ("pool_test::test_pool_aggregate_details", pool_test::test_pool_aggregate_details(), 3),
        ("pool_test::test_pool_delete", pool_test::test_pool_delete(), 3),
        ("pool_test::test_pool_read_all", pool_test::test_pool_read_all(), 7),
        ("pool_test::test_connection_reuse", pool_test::test_connection_reuse(), 3),
        ("pool_test::test_get_connection", pool_test::test_get_connection(), 5),
        ("pool_test::test_get_leader_connection", pool_test::test_get_leader_connection(), 3),
        ("pool_test::test_custom_pool_options", pool_test::test_custom_pool_options(), 2),
        ("pool_test::test_pool_auto_compression", pool_test::test_pool_auto_compression(), 1),
        ("pool_test::test_pool_list_orgs", pool_test::test_pool_list_orgs(), 3),
        ("pool_test::test_pool_list_aggregate_types", pool_test::test_pool_list_aggregate_types(), 3),
        ("pool_test::test_pool_list_aggregates", pool_test::test_pool_list_aggregates(), 3),
        ("pool_test::test_cancelled_request_does_not_leak_response", pool_test::test_cancelled_request_does_not_leak_response(), 13),
        ("pool_test::test_pool_usable_after_cancellation", pool_test::test_pool_usable_after_cancellation(), 29),
        ("pool_test::test_same_lease_reuse_after_cancellation", pool_test::test_same_lease_reuse_after_cancellation(), 15),
        ("reference_account_service::run_suite", reference_account_service::run_suite(), 22),
        ("promotion_failure_process_survival::run", promotion_failure_process_survival::run(), 29),
        ("regression_list_iterator_truncation::run", regression_list_iterator_truncation::run(), 5),
        ("replication_catchup_main::run", replication_catchup_main::run(), 26),
        ("s3_concurrent_cas::run", s3_concurrent_cas::run(), 27),
        ("s3_degraded_segment_summaries::run", s3_degraded_segment_summaries::run(), 26),
        ("s3_election_main::run", s3_election_main::run(), 24),
        ("s3_failover::run", s3_failover::run(), 27),
        ("s3_failover_latency::run", s3_failover_latency::run(), 15),
        ("s3_fallback_catchup::run", s3_fallback_catchup::run(), 36),
        ("s3_fallback_catchup_main::run", s3_fallback_catchup_main::run(), 36),
        ("s3_fallback_createonly::run", s3_fallback_createonly::run(), 16),
        ("s3_fallback_createonly_main::run", s3_fallback_createonly_main::run(), 19),
        ("s3_fallback_main::run", s3_fallback_main::run(), 27),
        ("s3_fallback_s3_down::run", s3_fallback_s3_down::run(), 15),
        ("s3_fallback_s3_down_main::run", s3_fallback_s3_down_main::run(), 14),
        ("s3_fencing_writes_main::run", s3_fencing_writes_main::run(), 28),
        ("s3_follower_crash::run", s3_follower_crash::run(), 28),
        ("s3_follower_crash_main::run", s3_follower_crash_main::run(), 29),
        ("s3_follower_kick::run", s3_follower_kick::run(), 77),
        ("s3_leader_solo_main::run", s3_leader_solo_main::run(), 23),
        ("s3_lease_monotonicity::run", s3_lease_monotonicity::run(), 35),
        ("s3_lease_renewal_backoff::run", s3_lease_renewal_backoff::run(), 11),
        ("s3_network_partition_main::run", s3_network_partition_main::run(), 24),
        ("s3_old_leader_recovery_main::run", s3_old_leader_recovery_main::run(), 37),
        ("s3_reconvergence::run", s3_reconvergence::run(), 26),
        ("s3_split_brain_main::run", s3_split_brain_main::run(), 16),
        ("s3_stale_lease::run", s3_stale_lease::run(), 25),
        ("s3_to_tcp_failback::run", s3_to_tcp_failback::run(), 26),
    ]
}

fn stored(client_seq: u64, minor: u64, value: &str) -> StoredEvent {
    StoredEvent { client_seq, event_type_minor: minor, value: value.as_bytes().to_vec() }
}

fn batches(versions: std::ops::RangeInclusive<u64>, minor: u64, text: &str) -> Vec<Batch> {
    versions.map(|v| Batch { version: v, events: vec![stored(v, minor, text)] }).collect()
}

fn lease_at(history: &[Reply], at: usize) -> Lease {
    match &history[at] {
        Reply::Lease(l) => *l,
        _ => panic!("step {at} read no lease"),
    }
}

fn number_at(history: &[Reply], at: usize) -> u64 {
    match &history[at] {
        Reply::Number(n) => *n,
        _ => panic!("step {at} got no number"),
    }
}

fn names_at(history: &[Reply], at: usize) -> usize {
    match &history[at] {
        Reply::Objects(names) => names.len(),
        _ => panic!("step {at} listed nothing"),
    }
}

/// What the later steps of a script expect of the reply to step `k`, besides its own expectation.
fn later(steps: &[Step], k: usize) -> Vec<Expect> {
    steps
        .iter()
        .filter(|s| matches!(s.action, Action::Recall(j) if j == k))
        .map(|s| s.expect)
        .collect()
}

/// A reply of the right kind for an action whose only demand is not to be refused.
fn plain_reply(steps: &[Step], k: usize, history: &[Reply]) -> Reply {
    let recalled = later(steps, k);
    match steps[k].action {
        Action::Version(..) | Action::LastSequence(..) | Action::Count(..) => {
            let n = match recalled.first() {
                Some(Expect::Number(NumberRule::Next(at))) => number_at(history, *at) + 1,
                Some(Expect::Number(NumberRule::NotAbove(_))) => 1,
                _ => 3,
            };
            Reply::Number(n)
        },
        Action::Read(_, _, from) => Reply::Batches(batches(from..=from + 5, 0, "{}")),
        Action::ReadAll(..) => Reply::Batches(batches(1..=15, 0, "{}")),
        Action::ReadLease(_) => {
            let mut l = Lease {
                leader_node_id: 7,
                lease_index: 1,
                lease_epoch: 4,
                acquired_at_ms: 1_000,
                expires_at_ms: 11_000,
            };
            for e in recalled {
                if let Expect::Lease(rule) = e {
                    l = satisfy_lease(rule, history, l);
                }
            }
            Reply::Lease(l)
        },
        Action::ListObjects(_) => Reply::Objects(vec!["a".to_string()]),
        Action::ReadFallback(..) | Action::ReadLastFallback(_) => Reply::Fallback(FallbackBatch {
            shard_id: 1,
            fallback_index: 4,
            items: 1,
            first_wal_index: 4,
            lease_index: 1,
        }),
        Action::Pour { .. } => Reply::Poured(12),
        Action::ListAggregates { .. } => Reply::Ids((1..=300).collect()),
        Action::Pool(_) => {
            let mut r = Reply::Done;
            for e in recalled {
                r = good(e, steps, k, history);
            }
            r
        },
        Action::StartNode { node, .. } => Reply::Started(match node {
            Node::A => "127.0.0.1:4100".to_string(),
            Node::B => "127.0.0.1:4200".to_string(),
        }),
        _ => Reply::Done,
    }
}

fn satisfy_lease(rule: LeaseRule, history: &[Reply], l: Lease) -> Lease {
    let mut l = l;
    match rule {
        LeaseRule::IndexIs(n) => l.lease_index = n,
        LeaseRule::IndexAtLeast(n) => l.lease_index = l.lease_index.max(n),
        LeaseRule::IndexAbove(at) | LeaseRule::IndexAfter(at) => {
            l.lease_index = lease_at(history, at).lease_index + 1
        },
        LeaseRule::IndexWithin(at, _) => {
            if l.lease_index < lease_at(history, at).lease_index {
                l.lease_index = lease_at(history, at).lease_index
            }
        },
        LeaseRule::IndexSame(at) => l.lease_index = lease_at(history, at).lease_index,
        LeaseRule::EpochNotBelow(at) | LeaseRule::EpochSame(at) => {
            l.lease_epoch = lease_at(history, at).lease_epoch
        },
        LeaseRule::EpochAbove(at) => l.lease_epoch = lease_at(history, at).lease_epoch + 1,
        LeaseRule::EpochWithin(..) => {},
        LeaseRule::ExpiryAbove(at) => l.expires_at_ms = lease_at(history, at).expires_at_ms + 1,
        LeaseRule::LeaderSame(at) => l.leader_node_id = lease_at(history, at).leader_node_id,
        LeaseRule::LeaderOther(at) => {
            if l.leader_node_id == lease_at(history, at).leader_node_id {
                l.leader_node_id = lease_at(history, at).leader_node_id + 1
            }
        },
        LeaseRule::LeaderSet => {
            if l.leader_node_id == 0 {
                l.leader_node_id = 7
            }
        },
        LeaseRule::ExpirySet => {},
    }
    l
}

/// A reply that meets an expectation, and what later steps will ask of the same reply.
fn good(expect: Expect, steps: &[Step], k: usize, history: &[Reply]) -> Reply {
    match expect {
        Expect::Anything => match steps[k].action {
            Action::NextNotices(_) => Reply::Notices(vec![]),
            _ => Reply::Done,
        },
        Expect::Accepted => plain_reply(steps, k, history),
        Expect::Rejected | Expect::RefusedInTime => Reply::Refused(Refusal::Other),
        Expect::RefusedWith(c) => Reply::Refused(Refusal::Coded(c)),
        Expect::NotLeader => Reply::Refused(Refusal::NotLeader),
        Expect::Redirect => Reply::Redirected("10.0.0.1:4100".to_string()),
        Expect::PortOf(_) | Expect::PortOtherThan(_) => Reply::Done,
        Expect::NothingStored => Reply::Batches(vec![]),
        Expect::LeaderFound | Expect::SingleLeader | Expect::OneWriter => {
            Reply::Leaders(true, false)
        },
        Expect::CountsReach(x, y) => {
            Reply::Counts(number_at(history, x), number_at(history, y))
        },
        Expect::RenewalsAtMost(at, _) => {
            let first = lease_at(history, at).acquired_at_ms;
            Reply::Samples(vec![first, first, first + 1, first + 1])
        },
        Expect::Flag(b) => Reply::Flag(b),
        Expect::FlagOther(at) => match &history[at] {
            Reply::Refused(_) | Reply::Redirected(_) | Reply::Flag(false) => Reply::Done,
            _ => Reply::Refused(Refusal::NotLeader),
        },
        Expect::Number(rule) => Reply::Number(match rule {
            NumberRule::Is(n) | NumberRule::AtLeast(n) | NumberRule::AtMost(n) => {
                let mut n = n;
                for e in later(steps, k) {
                    if let Expect::Number(NumberRule::Is(m)) = e {
                        n = m;
                    }
                }
                n
            },
            NumberRule::Same(at) | NumberRule::NotAbove(at) => number_at(history, at),
            NumberRule::Next(at) => number_at(history, at) + 1,
            NumberRule::Plus(at, by) => number_at(history, at) + by,
            NumberRule::Differs(at) => number_at(history, at) + 1,
            NumberRule::OnePlusAcked(at) => match &history[at] {
                Reply::Poured(n) => n + 1,
                _ => panic!("step {at} poured nothing"),
            },
        }),
        Expect::Stream(rule) => {
            let mut minor = 0;
            let mut text = "{}".to_string();
            let mut lo = 1;
            let mut n = 1;
            for e in std::iter::once(Expect::Stream(rule)).chain(later(steps, k)) {
                match e {
                    Expect::Stream(StreamRule::Count(m)) => n = m,
                    Expect::Stream(StreamRule::Events(m)) => n = m,
                    Expect::Stream(StreamRule::ExactlyOnce(m)) => n = m,
                    Expect::Stream(StreamRule::Versions(a, b)) => {
                        lo = a;
                        n = b - a + 1;
                    },
                    Expect::Stream(StreamRule::OnePlusAcked(at)) => match &history[at] {
                        Reply::Poured(acked) => n = acked + 1,
                        _ => panic!("step {at} poured nothing"),
                    },
                    Expect::Stream(StreamRule::StartsAt(v)) => lo = v,
                    Expect::Stream(StreamRule::EndsAt(v)) => n = v - lo + 1,
                    Expect::Stream(StreamRule::FirstHolds(t))
                    | Expect::Stream(StreamRule::LastHolds(t)) => text = format!("<{t}>"),
                    Expect::Stream(StreamRule::FirstMinor(m)) => minor = m,
                    Expect::Stream(StreamRule::Tagged(w, m)) => {
                        return Reply::Batches(
                            (1..=m)
                                .map(|v| Batch {
                                    version: v,
                                    events: vec![stored(
                                        v,
                                        0,
                                        &format!("{{\"agg\":{w},\"seq\":{v}}}"),
                                    )],
                                })
                                .collect(),
                        );
                    },
                    _ => {},
                }
            }
            Reply::Batches(batches(lo..=lo + n - 1, minor, &text))
        },
        Expect::Intact(n) => Reply::Pairs(
            (1..=n)
                .map(|v| Pair { version: v, events: 1, read: vec![v as u8], written: vec![v as u8] })
                .collect(),
        ),
        Expect::Lease(rule) => Reply::Lease(satisfy_lease(
            rule,
            history,
            Lease {
                leader_node_id: 7,
                lease_index: 1,
                lease_epoch: 4,
                acquired_at_ms: 1_000,
                expires_at_ms: 11_000,
            },
        )),
        Expect::Listing(rule) => {
            let mut n = match rule {
                ListingRule::Empty => 0,
                ListingRule::AtLeast(n) => n as usize,
                ListingRule::AsMany(at) | ListingRule::NoMore(at) => names_at(history, at),
                ListingRule::Sorted | ListingRule::SomeSince(_) => 1,
            };
            for e in later(steps, k) {
                if let Expect::Listing(ListingRule::AtLeast(m)) = e {
                    n = n.max(m as usize);
                }
            }
            Reply::Objects((0..n).map(|i| format!("batch_{i:09}")).collect())
        },
        Expect::Untouched(n, text) => {
            Reply::Contents((0..n).map(|_| text.as_bytes().to_vec()).collect())
        },
        Expect::Fallback(rule) => {
            let mut b = FallbackBatch {
                shard_id: 1,
                fallback_index: 4,
                items: 1,
                first_wal_index: 4,
                lease_index: 1,
            };
            for e in std::iter::once(Expect::Fallback(rule)).chain(later(steps, k)) {
                match e {
                    Expect::Fallback(FallbackRule::Shard(n)) => b.shard_id = n,
                    Expect::Fallback(FallbackRule::Above(at)) => {
                        if let Reply::Fallback(e) = &history[at] {
                            b.fallback_index = e.fallback_index + 1;
                            b.first_wal_index = b.fallback_index;
                        }
                    },
                    Expect::Fallback(FallbackRule::TermOf(at)) => {
                        b.lease_index = lease_at(history, at).lease_index
                    },
                    _ => {},
                }
            }
            Reply::Fallback(b)
        },
        Expect::SealedShrank(size) => Reply::Segments(vec![vec![
            FileEntry { name: "log_1.wal".to_string(), is_dir: false, size: size - 1 },
            FileEntry { name: "log_2.wal".to_string(), is_dir: false, size },
        ]]),
        Expect::Summarised => Reply::LogFiles(
            ["log_1.wal", "log_1.summary", "log_2.wal"].iter().map(|s| s.to_string()).collect(),
        ),
        Expect::MoreSegments(_) => Reply::LogFiles(
            ["log_1.wal", "log_1.summary", "log_2.wal", "log_2.summary", "log_3.wal"]
                .iter()
                .map(|s| s.to_string())
                .collect(),
        ),
        Expect::OneWinner(racers, losers) => {
            let lost = match losers {
                Outcome::OccLost => Refusal::Coded(2003),
                Outcome::Deduped => Refusal::Coded(2002),
                _ => Refusal::Other,
            };
            Reply::Race((0..racers).map(|i| if i == 5 { None } else { Some(lost) }).collect())
        },
        Expect::Notice(rule) => Reply::Notices(vec![Notice {
            org_id: 1,
            aggregate_type_id: 1,
            aggregate_id: rule.aggregate_id,
            operation: k as u64,
            to_aggregate_version: Some(2),
        }]),
        Expect::NoticeNames(..) | Expect::NoticeReaches(_) | Expect::DistinctOperations(_) => {
            Reply::Done
        },
        Expect::FollowedTo(n) => Reply::Followed((1..=n).collect()),
        Expect::IdentityMatches => Reply::Identity(Some(99), 99),
        Expect::Unseen => Reply::Refused(Refusal::Unreachable),
        Expect::Lists(id) => Reply::Ids(vec![id]),
        Expect::ListsSome => Reply::Ids(vec![1]),
        Expect::Details(rule) => match rule {
            DetailsRule::Present => Reply::Details(1, false),
            DetailsRule::Gone => Reply::Details(1, true),
            DetailsRule::Version(v) => Reply::Details(v, false),
        },
        Expect::OutOfStep => Reply::Refused(Refusal::OutOfStep),
        Expect::Balance(n) => Reply::Balance(n),
        Expect::Balances(a, b) => Reply::Balances(a, b),
        Expect::ShortOfFunds(n) => Reply::ShortOfFunds(n),
    }
}

/// A reply that meets no expectation of this kind; none where every reply does.
fn bad(expect: Expect) -> Option<Reply> {
    match expect {
        Expect::Anything => None,
        Expect::Accepted => Some(Reply::Refused(Refusal::Other)),
        Expect::Unseen => Some(Reply::Batches(batches(1..=1, 0, "{}"))),
        Expect::Flag(b) => Some(Reply::Flag(!b)),
        Expect::RenewalsAtMost(_, n) => Some(Reply::Samples((0..n + 2).collect())),
        Expect::NoticeNames(..) | Expect::NoticeReaches(_) | Expect::DistinctOperations(_) => None,
        _ => Some(Reply::Samples(vec![])),
    }
}

/// Takes a script through replies that meet every step, but for the one at `spoil`. Comes back with
/// the number of steps that were met and what was said.
fn play(steps: &[Step], spoil: Option<usize>) -> (usize, Option<(String, bool)>) {
    let mut run = Run::new(steps.to_vec());
    let mut now = 0;
    loop {
        now += 1;
        let k = run.history.len();
        match run.next(now) {
            Next::Passed => return (k, None),
            Next::Failed => {
                let c = run.complaint().unwrap();
                return (k, Some((run.report().unwrap(), c.panics)));
            },
            Next::Perform | Next::Check => {
                let recall = matches!(steps[k].action, Action::Recall(_));
                let reply = match bad(steps[k].expect) {
                    Some(r) if spoil == Some(k) && !recall => r,
                    _ => good(steps[k].expect, steps, k, &run.history),
                };
                match run.observe(reply, now) {
                    Progress::Advanced => {},
                    Progress::Wait(ms) => now += ms,
                    Progress::Failed => {
                        let c = run.complaint().unwrap();
                        return (k, Some((run.report().unwrap(), c.panics)));
                    },
                }
            },
        }
    }
}

#[test]
fn every_scenario_has_its_steps() {
    for (name, steps, n) in scenarios() {
        assert_eq!(steps.len(), n, "{name}");
    }
}

#[test]
fn every_scenario_passes_on_a_sound_bench() {
    for (name, steps, n) in scenarios() {
        assert_eq!(play(&steps, None), (n, None), "{name}");
    }
}

#[test]
fn every_scenario_fails_at_the_step_that_is_not_met() {
    let mut spoiled = 0;
    for (name, steps, n) in scenarios() {
        for k in 0..n {
            if bad(steps[k].expect).is_none() || matches!(steps[k].action, Action::Recall(_)) {
                continue;
            }
            let (met, said) = play(&steps, Some(k));
            assert_eq!(met, k, "{name} step {k}");
            assert!(said.is_some(), "{name} step {k}");
            spoiled += 1;
        }
    }
    assert!(spoiled > 700);
}

#[test]
fn a_fenced_leader_must_stay_fenced() {
    let steps = phase11::leader_self_fences_on_lost_lease();
    assert_eq!(steps.len(), 17);
    assert_eq!(
        play(&steps, Some(15)),
        (
            15,
            Some((
                "old leader resumed accepting writes while its lease was un-renewable (fence must hold)"
                    .to_string(),
                false
            ))
        )
    );
    assert_eq!(
        play(&steps, Some(16)),
        (16, Some(("follower never took over after the leader fenced: turned down".to_string(), false)))
    );
}

#[test]
fn a_probe_that_is_accepted_moves_the_event_on() {
    let steps = phase11::leader_self_fences_on_lost_lease();
    let mut run = Run::new(steps.clone());
    for k in 0..14 {
        let reply = good(steps[k].expect, &steps, k, &run.history);
        assert_eq!(run.next(0), Next::Perform);
        assert_eq!(run.observe(reply, 0), Progress::Advanced);
    }
    assert_eq!(run.next_event, 3);
    assert_eq!(run.next(10), Next::Perform);
    assert_eq!(run.observe(Reply::Done, 10), Progress::Wait(1_000));
    assert_eq!(run.next_event, 4);
    assert_eq!(run.next(60_009), Next::Perform);
    assert_eq!(run.observe(Reply::Done, 60_009), Progress::Wait(1_000));
    assert_eq!(run.next_event, 5);
    assert_eq!(run.next(60_010), Next::Failed);
    assert_eq!(
        run.report().unwrap(),
        "old leader never fenced after losing its lease within 60s (it must stop accepting writes): it was done"
    );
}

#[test]
fn two_leaders_are_past_mending() {
    let steps = phase6::cluster_elects_single_leader();
    let mut run = Run::new(steps.clone());
    for k in 0..3 {
        run.next(0);
        let reply = good(steps[k].expect, &steps, k, &run.history);
        run.observe(reply, 0);
    }
    run.next(0);
    assert_eq!(run.observe(Reply::Leaders(false, false), 1), Progress::Wait(1_000));
    run.next(1_001);
    assert_eq!(run.observe(Reply::Leaders(true, true), 1_001), Progress::Failed);
    let c = run.complaint().unwrap();
    assert_eq!(c.message, "split-brain: both nodes accept writes (two leaders)");
    assert!(!c.panics);
}

#[test]
fn no_leader_at_all_runs_out_of_time() {
    let steps = phase6::cluster_elects_single_leader();
    let mut run = Run::new(steps.clone());
    for k in 0..3 {
        run.next(0);
        let reply = good(steps[k].expect, &steps, k, &run.history);
        run.observe(reply, 0);
    }
    run.next(5);
    assert_eq!(run.observe(Reply::Leaders(false, false), 40_004), Progress::Wait(1_000));
    run.next(40_005);
    assert_eq!(run.observe(Reply::Leaders(false, false), 40_005), Progress::Failed);
    assert_eq!(
        run.report().unwrap(),
        "no single leader emerged within 40s (both nodes rejected writes)"
    );
}

#[test]
fn a_redirect_back_to_the_follower_is_caught() {
    let steps = phase11::notleader_redirect_carries_leader_address();
    let with = |to: &str| {
        let mut run = Run::new(steps.clone());
        let mut met = 0;
        loop {
            match run.next(0) {
                Next::Passed => return (met, None),
                Next::Failed => return (met, run.report()),
                _ => {},
            }
            let reply = if met == 5 {
                Reply::Redirected(to.to_string())
            } else {
                good(steps[met].expect, &steps, met, &run.history)
            };
            match run.observe(reply, 0) {
                Progress::Advanced => met += 1,
                _ => return (met, run.report()),
            }
        }
    };
    assert_eq!(with("10.0.0.1:4100"), (9, None));
    assert_eq!(
        with("127.0.0.1:4200"),
        (
            7,
            Some(
                "NotLeader redirect points back at the follower (127.0.0.1:4200), not the leader"
                    .to_string()
            )
        )
    );
    assert_eq!(
        with("127.0.0.1:4300"),
        (
            8,
            Some("redirect 127.0.0.1:4300 port != actual leader 127.0.0.1:4100 port".to_string())
        )
    );
}

#[test]
fn an_acked_write_that_is_lost_or_doubled_is_caught() {
    let steps = phase11::throttled_link_preserves_acked_writes();
    let mut run = Run::new(steps.clone());
    for k in 0..12 {
        run.next(0);
        let reply = good(steps[k].expect, &steps, k, &run.history);
        assert_eq!(run.observe(reply, 0), Progress::Advanced);
    }
    run.next(0);
    assert_eq!(run.observe(Reply::Number(12), 0), Progress::Failed);
    assert_eq!(
        run.report().unwrap(),
        "after backpressure: leader has 12 events, expected 13 acked — an acked write was lost or duplicated"
    );
}

#[test]
fn one_overwritten_object_is_enough() {
    let steps = s3_fallback_createonly::run();
    let last = steps.len() - 1;
    let mut run = Run::new(steps.clone());
    for k in 0..last {
        run.next(0);
        let reply = good(steps[k].expect, &steps, k, &run.history);
        assert_eq!(run.observe(reply, 0), Progress::Advanced);
    }
    run.next(0);
    let seeded = b"GARBAGE_CONTENT_DO_NOT_OVERWRITE_THIS_987654321".to_vec();
    let mut contents = vec![seeded; 7];
    contents[3] = b"other".to_vec();
    assert_eq!(run.observe(Reply::Contents(contents), 0), Progress::Failed);
}

/// What the last step of a script makes of a reply.
fn at_the_end(steps: Vec<Step>, reply: Reply) -> (Progress, Option<String>) {
    let last = steps.len() - 1;
    at_step(steps, last, reply)
}

/// What step `at` of a script makes of a reply, after steps that were met.
fn at_step(steps: Vec<Step>, at: usize, reply: Reply) -> (Progress, Option<String>) {
    let mut run = Run::new(steps.clone());
    for k in 0..at {
        run.next(0);
        let reply = good(steps[k].expect, &steps, k, &run.history);
        assert_eq!(run.observe(reply, 0), Progress::Advanced);
    }
    run.next(0);
    (run.observe(reply, 0), run.report())
}

#[test]
fn every_seeded_object_has_to_be_there() {
    let seeded = b"GARBAGE_CONTENT_DO_NOT_OVERWRITE_THIS_987654321".to_vec();
    let with = |n: usize| {
        at_the_end(s3_fallback_createonly::run(), Reply::Contents(vec![seeded.clone(); n])).0
    };
    assert_eq!(with(7), Progress::Advanced);
    assert_eq!(with(6), Progress::Failed);
    assert_eq!(with(1), Progress::Failed);
}

#[test]
fn five_times_of_acquisition_are_the_limit() {
    let steps = s3_lease_renewal_backoff::run();
    let first = {
        let mut run = Run::new(steps.clone());
        for k in 0..9 {
            run.next(0);
            let reply = good(steps[k].expect, &steps, k, &run.history);
            run.observe(reply, 0);
        }
        match &run.history[8] {
            Reply::Lease(l) => l.acquired_at_ms,
            _ => unreachable!(),
        }
    };
    let with = |times: u64| {
        at_the_end(steps.clone(), Reply::Samples((first..first + times).collect())).0
    };
    assert_eq!(with(5), Progress::Advanced);
    assert_eq!(with(6), Progress::Failed);
}

#[test]
fn a_replay_is_refused_as_one() {
    let steps = || phase2::occ_and_idempotency_compose(AggregateKey::new(1, 1, 41));
    let with = |code: u32| at_the_end(steps(), Reply::Refused(Refusal::Coded(code)));
    assert_eq!(with(2002).0, Progress::Advanced);
    assert_eq!(
        with(2003),
        (
            Progress::Failed,
            Some(
                "expected idempotency violation on replay, got turned down with error 2003"
                    .to_string()
            )
        )
    );
}

#[test]
fn a_race_needs_all_its_racers() {
    let steps = || phase7::concurrent_creators_one_wins(AggregateKey::new(1, 1, 9));
    let with = |n: u64| {
        let replies = (0..n).map(|i| if i == 0 { None } else { Some(Refusal::Coded(2003)) });
        at_step(steps(), 1, Reply::Race(replies.collect())).0
    };
    assert_eq!(with(16), Progress::Advanced);
    assert_eq!(with(15), Progress::Failed);
    assert_eq!(with(17), Progress::Failed);
}

#[test]
fn a_follower_that_cannot_be_reached_ends_the_scenario() {
    let steps = phase11::notleader_redirect_carries_leader_address;
    assert_eq!(
        at_step(steps(), 5, Reply::Refused(Refusal::Unreachable)),
        (Progress::Failed, Some("no connection".to_string()))
    );
    assert_eq!(
        at_step(steps(), 5, Reply::Refused(Refusal::NotLeader)).0,
        Progress::Wait(1_000)
    );
    assert_eq!(
        at_step(steps(), 5, Reply::Done).1.unwrap(),
        "write to the follower was ACCEPTED (a follower must refuse writes)"
    );
}

#[test]
fn a_node_that_cannot_be_asked_is_no_split_brain() {
    assert_eq!(
        at_step(phase6::cluster_elects_single_leader(), 3, Reply::Refused(Refusal::TimedOut)),
        (Progress::Failed, Some("nothing came back in time".to_string()))
    );
}

#[test]
fn a_step_that_only_has_to_be_done_hands_its_refusal_on() {
    let steps = phase11::leader_self_fences_on_lost_lease();
    assert_eq!(
        at_step(steps, 0, Reply::Refused(Refusal::Coded(77))),
        (Progress::Failed, Some("turned down with error 77".to_string()))
    );
}

#[test]
fn a_write_that_failed_is_tried_over_a_new_connection() {
    let steps = s3_to_tcp_failback::run();
    let mut run = Run::new(steps.clone());
    for k in 0..7 {
        run.next(0);
        let reply = good(steps[k].expect, &steps, k, &run.history);
        assert_eq!(run.observe(reply, 0), Progress::Advanced);
    }
    run.next(0);
    assert!(run.before_attempt().is_none());
    assert_eq!(run.observe(Reply::Refused(Refusal::Other), 1), Progress::Wait(500));
    run.next(501);
    assert!(matches!(run.before_attempt(), Some(Action::Connect(Who::A))));
    assert_eq!(run.observe(Reply::Done, 502), Progress::Advanced);
    assert!(run.before_attempt().is_none());
}

#[test]
fn a_partitioned_node_has_to_fence() {
    let steps = s3_network_partition_main::run;
    assert_eq!(at_step(steps(), 17, Reply::Done).0, Progress::Wait(200));
    assert_eq!(at_step(steps(), 18, Reply::Done).0, Progress::Wait(200));
    assert_eq!(at_step(steps(), 18, Reply::Refused(Refusal::Other)).0, Progress::Advanced);
    let steps = s3_reconvergence::run;
    assert_eq!(at_step(steps(), 19, Reply::Refused(Refusal::Other)).0, Progress::Failed);
    assert_eq!(at_step(steps(), 20, Reply::Done).0, Progress::Advanced);
    assert_eq!(at_step(s3_fencing_writes_main::run(), 18, Reply::Done).0, Progress::Failed);
}

#[test]
fn a_setup_that_fails_says_so() {
    let steps = promotion_failure_process_survival::run();
    let fails_at = |at: usize, reply: Reply| {
        let mut run = Run::new(steps.clone());
        for k in 0..at {
            run.next(0);
            let reply = good(steps[k].expect, &steps, k, &run.history);
            assert_eq!(run.observe(reply, 0), Progress::Advanced);
        }
        assert!(promotion_failure_process_survival::setup_failure(&run).is_none());
        run.next(0);
        assert_eq!(run.observe(reply, 0), Progress::Failed);
        promotion_failure_process_survival::setup_failure(&run).unwrap()
    };
    assert_eq!(
        fails_at(15, Reply::Number(99)),
        "HARNESS FAILURE (setup never reached the defect's preconditions): only 99 events acked \
         with the link severed (need 100); the leader never built an S3 backlog"
    );
    assert_eq!(
        fails_at(0, Reply::Refused(Refusal::Other)),
        "HARNESS FAILURE (setup never reached the defect's preconditions): turned down"
    );
    assert!(fails_at(6, Reply::Flag(false)).ends_with("node on 127.0.0.1:4100 never became leader"));
}

#[test]
fn a_gap_under_backpressure_is_caught() {
    let steps = phase11::throttled_link_preserves_acked_writes();
    let mut run = Run::new(steps.clone());
    for k in 0..13 {
        run.next(0);
        let reply = good(steps[k].expect, &steps, k, &run.history);
        assert_eq!(run.observe(reply, 0), Progress::Advanced);
    }
    run.next(0);
    assert_eq!(run.observe(Reply::Batches(batches(2..=14, 0, "{}")), 0), Progress::Failed);
    assert_eq!(
        run.report().unwrap(),
        "after backpressure: leader has versions [2, 3, 4, 5, 6, 7, 8, 9, 10, 11, 12, 13, 14], expected 1..=13 without a gap"
    );
}

#[test]
fn exactly_once_is_more_than_a_count() {
    let steps = phase8::exactly_once_across_failover();
    let play_with = |b: Vec<Batch>| {
        let mut run = Run::new(steps.clone());
        let mut b = Some(b);
        loop {
            let k = run.history.len();
            if run.next(0) == Next::Passed {
                return (k, None);
            }
            let reply = if k == 10 {
                Reply::Batches(b.take().unwrap())
            } else {
                good(steps[k].expect, &steps, k, &run.history)
            };
            if run.observe(reply, 0) == Progress::Failed {
                return (k, run.report());
            }
        }
    };
    assert_eq!(play_with(batches(1..=10, 0, "{}")), (14, None));
    assert_eq!(
        play_with(batches(1..=9, 0, "{}")),
        (
            10,
            Some(
                "after failover: 9 batches for the acked sequence, expected 10 (gap or duplicate)"
                    .to_string()
            )
        )
    );
    let mut gap = batches(1..=10, 0, "{}");
    gap[4].version = 50;
    assert_eq!(
        play_with(gap),
        (11, Some("after failover: batch 4 version 50 != 5 (gap)".to_string()))
    );
    let mut double = batches(1..=10, 0, "{}");
    double[4].events.push(stored(5, 0, "{}"));
    assert_eq!(
        play_with(double),
        (
            12,
            Some(
                "after failover: batch 4 has 2 events, expected 1 (double-apply?)".to_string()
            )
        )
    );
    let mut swapped = batches(1..=10, 0, "{}");
    swapped[4].events[0].client_seq = 6;
    assert_eq!(
        play_with(swapped),
        (
            13,
            Some(
                "after failover: client_seqs [1, 2, 3, 4, 6, 6, 7, 8, 9, 10] != [1, 2, 3, 4, 5, 6, 7, 8, 9, 10] (lost or duplicated event)"
                    .to_string()
            )
        )
    );
}

#[test]
fn a_second_winner_of_a_race_is_caught() {
    let steps = phase7::concurrent_occ_writers_one_wins(AggregateKey::new(1, 1, 5));
    let with = |replies: Vec<Option<Refusal>>| {
        let mut run = Run::new(steps.clone());
        let mut replies = Some(replies);
        loop {
            let k = run.history.len();
            if run.next(0) == Next::Passed {
                return k;
            }
            let reply = if k == 2 {
                Reply::Race(replies.take().unwrap())
            } else {
                good(steps[k].expect, &steps, k, &run.history)
            };
            if run.observe(reply, 0) == Progress::Failed {
                return k;
            }
        }
    };
    let lost = Some(Refusal::Coded(2003));
    let raced = |first: [Option<Refusal>; 4]| {
        let mut replies = first.to_vec();
        replies.resize(16, lost);
        replies
    };
    assert_eq!(with(raced([lost, None, lost, lost])), 6);
    assert_eq!(with(raced([lost, None, None, lost])), 2);
    assert_eq!(with(raced([lost, lost, lost, lost])), 2);
    assert_eq!(with(raced([Some(Refusal::Other), None, lost, lost])), 2);
    assert_eq!(with(vec![lost, None, lost, lost]), 2);
}

#[test]
fn reports_of_a_watch_need_an_operation_of_their_own() {
    let steps = phase5::watch_operations_are_distinct();
    let mut run = Run::new(steps.clone());
    for k in 0..5 {
        run.next(0);
        let reply = good(steps[k].expect, &steps, k, &run.history);
        run.observe(reply, 0);
    }
    let notice = |operation| {
        Reply::Notices(vec![Notice {
            org_id: 1,
            aggregate_type_id: 1,
            aggregate_id: 999_001,
            operation,
            to_aggregate_version: None,
        }])
    };
    run.next(0);
    assert_eq!(run.observe(notice(3), 0), Progress::Advanced);
    run.next(0);
    assert_eq!(run.observe(Reply::Done, 0), Progress::Advanced);
    run.next(0);
    assert_eq!(run.observe(notice(3), 0), Progress::Wait(0));
    run.next(1);
    assert_eq!(run.observe(notice(4), 1), Progress::Advanced);
    run.next(2);
    assert_eq!(run.observe(Reply::Done, 2), Progress::Advanced);
    run.next(3);
    assert_eq!(run.observe(notice(5), 3), Progress::Advanced);
    assert_eq!(run.next(4), Next::Check);
    assert_eq!(run.observe(Reply::Done, 4), Progress::Advanced);
    assert_eq!(run.next(5), Next::Passed);
}

#[test]
fn the_leader_that_was_found_is_remembered() {
    let steps = phase6::cluster_replicates_and_rejects_follower_write();
    let mut run = Run::new(steps.clone());
    for k in 0..4 {
        run.next(0);
        let reply = good(steps[k].expect, &steps, k, &run.history);
        run.observe(reply, 0);
    }
    assert_eq!(run.registers.leader, None);
    run.next(0);
    run.observe(Reply::Leaders(false, true), 0);
    assert_eq!(run.registers.leader, Some(Node::B));
    assert!(matches!(steps[5].action, Action::WriteSequence(Who::Leader, _)));
}

#[test]
fn a_panicking_step_says_so() {
    let steps = s3_failover::run();
    let (k, said) = play(&steps, Some(10));
    assert_eq!(k, 10);
    assert_eq!(
        said,
        Some((
            "assertion `left == right` failed: Follower should have 3 events\n  left: got 0 samples\n right: 3"
                .to_string(),
            true
        ))
    );
    assert_eq!(
        at_step(steps.clone(), 10, Reply::Refused(Refusal::Coded(9))),
        (Progress::Failed, Some("turned down with error 9".to_string()))
    );
    assert_eq!(
        at_step(steps, 10, Reply::Number(2)),
        (
            Progress::Failed,
            Some(
                "assertion `left == right` failed: Follower should have 3 events\n  left: 2\n right: 3"
                    .to_string()
            )
        )
    );
}

#[test]
fn a_trim_keeps_every_event_it_leaves() {
    let steps = phase3::trim_preserves_remaining(AggregateKey::new(1, 1, 41));
    let with = |alter: fn(&mut Vec<Batch>)| {
        let mut run = Run::new(steps.clone());
        for k in 0..8 {
            run.next(0);
            let mut reply = good(steps[k].expect, &steps, k, &run.history);
            if k == 3 || k == 5 {
                let mut b = batches(4..=8, 0, "{}");
                b[1].events.push(stored(9, 0, "second"));
                if k == 5 {
                    alter(&mut b);
                }
                reply = Reply::Batches(b);
            }
            if run.observe(reply, 0) == Progress::Failed {
                return false;
            }
        }
        true
    };
    assert!(with(|_| {}));
    assert!(!with(|b| b[1].events[1].value = b"other".to_vec()));
    assert!(!with(|b| b[2].events[0].client_seq += 1));
    assert!(!with(|b| {
        b[1].events.pop();
    }));
}

#[test]
fn a_message_tells_what_came_and_what_it_was_held_against() {
    let key = AggregateKey::new(1, 1, 41);
    let said = |steps: Vec<Step>, at: usize, reply: Reply| at_step(steps, at, reply).1.unwrap();
    assert_eq!(
        said(phase2::occ_stale_rejected_no_append(key), 6, Reply::Number(5)),
        "rejected write still changed version 3 -> 5"
    );
    assert_eq!(
        said(phase2::idempotency_dedupes_replay(key), 4, Reply::Batches(batches(1..=2, 0, "{}"))),
        "replay double-wrote: 2 events present, expected 1"
    );
    assert_eq!(
        said(phase3::trim_drops_prefix(key), 5, Reply::Batches(vec![])),
        "after trim, read from 5 began at None, expected 5"
    );
    assert_eq!(
        said(phase3::trim_drops_prefix(key), 5, Reply::Batches(batches(6..=10, 0, "{}"))),
        "after trim, read from 5 began at Some(6), expected 5"
    );
    assert_eq!(
        said(phase8::replication_link_cut_acks_via_s3_and_heals(), 12, Reply::Number(4)),
        "after heal, follower has 4 events, expected 6"
    );
    assert_eq!(
        said(s3_lease_renewal_backoff::run(), 10, Reply::Samples((0..9).collect())),
        "S3 lease renewed 9 times in 15s (>4 allowed). Leader is hammering S3 at heartbeat rate instead of backing off. Expected ≤4 renewals with s3_lease_duration/3 backoff."
    );
    assert_eq!(
        said(s3_failover_latency::run(), 14, Reply::Number(4_567)),
        "Failover took 4.57s, expected under 3.00s"
    );
    assert_eq!(
        said(phase5::watch_cursor_misses_no_events(), 4, Reply::Followed(vec![1, 3])),
        "cursor-drain saw [1, 3], expected contiguous 1..=30"
    );
    assert_eq!(
        said(s3_election_main::run(), 4, Reply::Leaders(true, true)),
        "Exactly one node should be leader — S3 CreateOnly prevents split-brain (a=true, b=true)"
    );
}

#[test]
fn a_refusal_and_a_wrong_answer_are_told_apart() {
    let said = |steps: Vec<Step>, at: usize, reply: Reply| at_step(steps, at, reply).1.unwrap();
    let cross = phase2::multi_aggregate_cross_shard_rejected;
    assert_eq!(
        said(cross(), 3, Reply::Batches(batches(1..=2, 0, "{}"))),
        "cross-shard write leaked 2 batches into (1, 1, 1000)"
    );
    assert_eq!(
        said(cross(), 3, Reply::Refused(Refusal::Coded(5))),
        "expected AggregateNotExists for (1, 1, 1000), got turned down with error 5"
    );
    let identity = phase9::public_key_identity_accepted_and_deterministic;
    assert_eq!(
        said(identity(), 2, Reply::Identity(Some(4), 5)),
        "server returned client id 4, expected 5 (SHA-256(pubkey)[..16])"
    );
    assert_eq!(
        said(identity(), 2, Reply::Identity(None, 5)),
        "identify returned no client id for a public-key identity"
    );
    assert_eq!(
        said(identity(), 2, Reply::Refused(Refusal::Coded(10002))),
        "turned down with error 10002"
    );
    let watch = phase5::watch_incompatible_filter_rejected;
    assert_eq!(
        said(watch(), 2, Reply::Done),
        "org-only watch under aggregate_id routing was accepted; expected IncompatibleFilters (9002)"
    );
    assert_eq!(
        said(watch(), 2, Reply::Refused(Refusal::Coded(1))),
        "expected IncompatibleFilters (9002), got error turned down with error 1"
    );
    let race = || phase7::concurrent_occ_writers_one_wins(AggregateKey::new(1, 1, 5));
    assert_eq!(
        said(race(), 2, Reply::Race(vec![None, None, Some(Refusal::Coded(2003))])),
        "OCC race: 2 writers won (expected exactly 1), 1 lost"
    );
    assert_eq!(
        said(race(), 2, Reply::Race(vec![None, Some(Refusal::Unreachable)])),
        "unexpected write outcome under race: no connection"
    );
}

#[test]
fn what_is_wrong_with_a_stream_is_told() {
    let said = |steps: Vec<Step>, at: usize, reply: Reply| at_step(steps, at, reply).1.unwrap();
    let long = || phase7::large_values_long_stream_intact(AggregateKey::new(1, 1, 5));
    let pairs = |n: u64| -> Vec<Pair> {
        (1..=n)
            .map(|v| Pair { version: v, events: 1, read: vec![1, 2], written: vec![1, 2] })
            .collect()
    };
    assert_eq!(
        said(long(), 3, Reply::Pairs(pairs(59))),
        "long stream: 59 batches read, expected 60"
    );
    let mut odd = pairs(60);
    odd[7].version = 9;
    odd[8].events = 2;
    assert_eq!(said(long(), 3, Reply::Pairs(odd)), "long stream: batch 7 version 9 != 8");
    let mut crowd = pairs(60);
    crowd[8].events = 2;
    assert_eq!(said(long(), 3, Reply::Pairs(crowd)), "long stream: batch 8 has 2 events, expected 1");
    let mut corrupt = pairs(60);
    corrupt[5].read = vec![1, 2, 3];
    assert_eq!(
        said(long(), 3, Reply::Pairs(corrupt)),
        "long stream: batch 5 payload corrupted (len 3 vs 2)"
    );
    let shards = phase7::per_aggregate_order_across_shards;
    assert_eq!(
        said(shards(), 4, Reply::Batches(batches(1..=9, 0, "{}"))),
        "agg 1: 9 batches, expected 10"
    );
    let key = AggregateKey::new(1, 1, 41);
    let mut run = Run::new(phase3::delete_recreate_allows_rewrite(key));
    for k in 0..6 {
        run.next(0);
        let mut reply = good(run.steps[k].expect, &run.steps, k, &run.history);
        if k == 5 {
            let value = vec![b'o', b'l', b'd', 0xff];
            let event = StoredEvent { client_seq: 1, event_type_minor: 0, value };
            reply = Reply::Batches(vec![Batch { version: 1, events: vec![event] }]);
        }
        assert_eq!(run.observe(reply, 0), Progress::Advanced);
    }
    run.next(0);
    assert_eq!(run.observe(Reply::Done, 0), Progress::Failed);
    assert_eq!(
        run.report().unwrap(),
        "recreated aggregate missing the new event, last payload: old\u{fffd}"
    );
}

#[test]
fn silence_is_no_refusal() {
    let steps = phase9::mtls_require_untrusted_ca_refused;
    assert_eq!(at_step(steps(), 2, Reply::Refused(Refusal::Other)).0, Progress::Advanced);
    assert_eq!(
        at_step(steps(), 2, Reply::Refused(Refusal::TimedOut)),
        (Progress::Failed, Some("connect_tls timed out".to_string()))
    );
    assert_eq!(
        at_step(phase9::mtls_require_no_cert_refused(), 2, Reply::Done).1.unwrap(),
        "require server accepted a client presenting NO certificate"
    );
}

#[test]
fn a_poll_that_failed_cancelled_nothing() {
    let steps = pool_test::test_same_lease_reuse_after_cancellation;
    assert_eq!(at_step(steps(), 11, Reply::Flag(false)).0, Progress::Advanced);
    assert_eq!(
        at_step(steps(), 11, Reply::Refused(Refusal::Other)),
        (
            Progress::Failed,
            Some(
                "same-lease reuse after cancellation -- \"request resolved inside one poll -- nothing was cancelled\""
                    .to_string()
            )
        )
    );
    assert_eq!(
        at_step(steps(), 13, Reply::Details(7, false)).1.unwrap(),
        "same-lease reuse after cancellation -- \"same-lease crosstalk: asked for 3102 (version 1), got version 7 -- 3101 is version 7\""
    );
    assert_eq!(
        at_step(pool_test::test_pool_list_orgs(), 2, Reply::Done).0,
        Progress::Advanced
    );
}

#[test]
fn the_write_that_ended_a_sequence_is_told() {
    let said = |steps: Vec<Step>, at: usize, reply: Reply| at_step(steps, at, reply).1.unwrap();
    let halted = || Reply::Halted { writer: 3, event: 2, refusal: Refusal::Coded(2003) };
    let cut = phase8::replication_link_cut_acks_via_s3_and_heals;
    assert_eq!(said(cut(), 7, halted()), "write seq 2: turned down with error 2003");
    assert_eq!(said(cut(), 7, Reply::Refused(Refusal::Unreachable)), "no connection");
    assert_eq!(at_step(cut(), 10, halted()).0, Progress::Wait(2_000));
    let shards = phase7::per_aggregate_order_across_shards;
    assert_eq!(said(shards(), 1, halted()), "agg 3 seq 2: turned down with error 2003");
    assert_eq!(
        said(shards(), 1, Reply::Refused(Refusal::Unreachable)),
        "connect: no connection"
    );
}

#[test]
fn segments_without_a_summary_are_told() {
    let said = |at: usize, names: &[&str]| {
        let names = names.iter().map(|n| n.to_string()).collect();
        at_step(s3_degraded_segment_summaries::run(), at, Reply::LogFiles(names)).1.unwrap()
    };
    assert_eq!(
        said(16, &["log_4.wal"]),
        "leader (TCP phase): expected ≥2 WAL segments (proving ≥1 rotation); got 1 ([4])"
    );
    assert_eq!(
        said(17, &["log_3.wal", "log_1.wal", "log_2.wal", "log_2.summary", "log_3.summary"]),
        "follower (TCP phase): sealed segments missing .summary sidecar files: [1] (sealed=[1, 2], summaries=[2, 3])"
    );
    assert!(said(24, &["log_1.wal"])
        .starts_with("Expected new sealed segments after S3 burst; before=["));
}
