//! Under a partition both nodes come to lead, each on its own side; after it heals, exactly one of
//! the two accepts writes.

use crate::bench::{Link, NodeConfig, Who, run_port, s3_typed};
use crate::expect::{Expect, LeaseRule, flag_in, group_judgement, turned_down};
use crate::model::{AggregateKey, numbered_event};
use crate::reply::Reply;
use crate::s3_common::{event, has_events, node_a, node_b, pause, store};
use crate::script::{
    Action, Step, accepted_through, assertion, assertion_ne, keep_asserting, met_before, must, note,
    passes, passing_is_step_by_step,
};
use vstd::prelude::*;

verus! {

/// The steps of [`run`].
pub open spec fn run_steps() -> Seq<Step> {
    seq![
        store(13100, Some("test-reconvergence")),
        node_a(
            13100,
            Some("leader"),
            NodeConfig {
                client_port: Some(run_port(13100, 0)),
                ..s3_typed(4)
            },
        ),
        pause(500),
        must(
            Action::StartProxy {
                link: Link::Replication(Who::B),
                port: run_port(13100, 200),
                target: run_port(13100, 101),
            },
        ),
        node_b(
            13100,
            Some("follower"),
            NodeConfig {
                client_port: Some(run_port(13100, 100)),
                advertised_replication_address: Some(run_port(13100, 200)),
                ..s3_typed(4)
            },
        ),
        pause(5_000),
        must(Action::Connect(Who::A)),
        must(Action::Connect(Who::B)),
        event(Who::A, 1),
        event(Who::A, 2),
        event(Who::A, 3),
        has_events(Who::B, 3, "Follower should have 3 events (replication through proxy)"),
        assertion(
            Action::Write(Who::A, numbered_event(AggregateKey::new(2, 1, 1), 1, true)),
            Expect::Accepted,
            "Leader should accept writes before partition",
        ),
        assertion(
            Action::Write(Who::B, numbered_event(AggregateKey::new(2, 1, 1), 2, true)),
            Expect::Rejected,
            "Follower should reject writes before partition",
        ),
        must(Action::ReadLease("cluster/lease.json")),
        note(Action::Block(Link::Replication(Who::B))),
        pause(8_000),
        must(Action::ReadLease("cluster/lease.json")),
        assertion(
            Action::Recall(17),
            Expect::Lease(LeaseRule::IndexAbove(14)),
            "lease_index should have increased after S3 races: was {was_index}, now {index}",
        ),
        assertion(
            Action::Write(Who::A, numbered_event(AggregateKey::new(3, 1, 1), 1, true)),
            Expect::Accepted,
            "Leader should lead its side of the partition",
        ),
        assertion(
            Action::Write(Who::B, numbered_event(AggregateKey::new(3, 1, 1), 2, true)),
            Expect::Accepted,
            "Follower should lead its side of the partition",
        ),
        note(Action::Unblock(Link::Replication(Who::B))),
        pause(500),
        keep_asserting(
            Action::ProbeBoth(4, 5),
            Expect::OneWriter,
            20_000,
            500,
            "FAILED: Cluster did not reconverge to exactly one leader within 20 seconds. Both nodes likely remain as Leader (split-brain bug). Expected: One node accepts writes, the other rejects. Actual: Both nodes accepting writes or timeout expired.",
        ),
        note(Action::Write(Who::A, numbered_event(AggregateKey::new(6, 1, 1), 1, true))),
        assertion_ne(
            Action::Write(Who::B, numbered_event(AggregateKey::new(7, 1, 1), 1, true)),
            Expect::FlagOther(24),
            "FAILED: Both nodes have same write acceptance state. Expected exactly one leader. leader accepts = {was_accepts}, follower accepts = {accepts}",
        ),
    ]
}

/// Under a partition both nodes win a race for the lease, one after the other, and accept writes;
/// after it heals, exactly one of the two does.
pub fn run() -> (r: Vec<Step>)
    ensures
        r@ == run_steps(),
{
    let steps: Vec<Step> = vec![
        store(13100, Some("test-reconvergence")),
        node_a(
            13100,
            Some("leader"),
            NodeConfig {
                client_port: Some(run_port(13100, 0)),
                ..s3_typed(4)
            },
        ),
        pause(500),
        must(
            Action::StartProxy {
                link: Link::Replication(Who::B),
                port: run_port(13100, 200),
                target: run_port(13100, 101),
            },
        ),
        node_b(
            13100,
            Some("follower"),
            NodeConfig {
                client_port: Some(run_port(13100, 100)),
                advertised_replication_address: Some(run_port(13100, 200)),
                ..s3_typed(4)
            },
        ),
        pause(5_000),
        must(Action::Connect(Who::A)),
        must(Action::Connect(Who::B)),
        event(Who::A, 1),
        event(Who::A, 2),
        event(Who::A, 3),
        has_events(Who::B, 3, "Follower should have 3 events (replication through proxy)"),
        assertion(
            Action::Write(Who::A, numbered_event(AggregateKey::new(2, 1, 1), 1, true)),
            Expect::Accepted,
            "Leader should accept writes before partition",
        ),
        assertion(
            Action::Write(Who::B, numbered_event(AggregateKey::new(2, 1, 1), 2, true)),
            Expect::Rejected,
            "Follower should reject writes before partition",
        ),
        must(Action::ReadLease("cluster/lease.json")),
        note(Action::Block(Link::Replication(Who::B))),
        pause(8_000),
        must(Action::ReadLease("cluster/lease.json")),
        assertion(
            Action::Recall(17),
            Expect::Lease(LeaseRule::IndexAbove(14)),
            "lease_index should have increased after S3 races: was {was_index}, now {index}",
        ),
        assertion(
            Action::Write(Who::A, numbered_event(AggregateKey::new(3, 1, 1), 1, true)),
            Expect::Accepted,
            "Leader should lead its side of the partition",
        ),
        assertion(
            Action::Write(Who::B, numbered_event(AggregateKey::new(3, 1, 1), 2, true)),
            Expect::Accepted,
            "Follower should lead its side of the partition",
        ),
        note(Action::Unblock(Link::Replication(Who::B))),
        pause(500),
        keep_asserting(
            Action::ProbeBoth(4, 5),
            Expect::OneWriter,
            20_000,
            500,
            "FAILED: Cluster did not reconverge to exactly one leader within 20 seconds. Both nodes likely remain as Leader (split-brain bug). Expected: One node accepts writes, the other rejects. Actual: Both nodes accepting writes or timeout expired.",
        ),
        note(Action::Write(Who::A, numbered_event(AggregateKey::new(6, 1, 1), 1, true))),
        assertion_ne(
            Action::Write(Who::B, numbered_event(AggregateKey::new(7, 1, 1), 1, true)),
            Expect::FlagOther(24),
            "FAILED: Both nodes have same write acceptance state. Expected exactly one leader. leader accepts = {was_accepts}, follower accepts = {accepts}",
        ),
    ];
    assert(steps@ =~= run_steps());
    steps
}

/// What [`run`] demands of the replies, one for each of its steps.
pub open spec fn run_holds(history: Seq<Reply>) -> bool {
    &&& history.len() == 26
    &&& !turned_down(history[0])
    &&& !turned_down(history[1])
    &&& !turned_down(history[3])
    &&& !turned_down(history[4])
    &&& accepted_through(history, 6, 10)
    &&& history[11] == Reply::Number(3)
    &&& !turned_down(history[12])
    &&& turned_down(history[13])
    &&& !turned_down(history[14])
    &&& !turned_down(history[17])
    &&& history[14] matches Reply::Lease(e)
        && (history[17] matches Reply::Lease(l) && l.lease_index > e.lease_index)
    &&& !turned_down(history[19])
    &&& !turned_down(history[20])
    &&& history[23] matches Reply::Leaders(a, b) && a != b
    &&& flag_in(history[24]) is Some
        && flag_in(history[25]) is Some
        && flag_in(history[24]) != flag_in(history[25])
}

/// [`run`] passes exactly on the replies that it demands.
#[verifier::rlimit(60)]
pub proof fn run_passes(history: Seq<Reply>)
    ensures
        passes(run_steps(), history) <==> run_holds(history),
{
    broadcast use group_judgement;

    let steps = run_steps();
    passing_is_step_by_step(steps, history);
    reveal_with_fuel(met_before, 27);
}

} // verus!
