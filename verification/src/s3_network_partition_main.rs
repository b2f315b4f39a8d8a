//! Under a partition both nodes turn writes down until the race for the lease is decided, and the
//! index of the lease moves on, by no more than the races can account for.

use crate::bench::{Link, NodeConfig, Who, run_port, s3_typed};
use crate::expect::{Expect, LeaseRule, group_judgement, turned_down};
use crate::model::{AggregateKey, numbered_event};
use crate::reply::Reply;
use crate::s3_common::{event, has_events, node_a, node_b, pause, store};
use crate::script::{
    Action, Step, accepted_through, assertion, keep_asserting, met_before, must, note, passes,
    passing_is_step_by_step,
};
use vstd::prelude::*;

verus! {

/// The steps of [`run`].
pub open spec fn run_steps() -> Seq<Step> {
    seq![
        store(12900, Some("test-network-partition")),
        node_a(
            12900,
            Some("leader"),
            NodeConfig {
                client_port: Some(run_port(12900, 0)),
                bootstrap_as_leader: Some(true),
                ..s3_typed(4)
            },
        ),
        pause(500),
        must(
            Action::StartProxy {
                link: Link::Replication(Who::B),
                port: run_port(12900, 200),
                target: run_port(12900, 101),
            },
        ),
        node_b(
            12900,
            Some("follower"),
            NodeConfig {
                client_port: Some(run_port(12900, 100)),
                advertised_replication_address: Some(run_port(12900, 200)),
                bootstrap_as_leader: Some(false),
                ..s3_typed(4)
            },
        ),
        pause(5_000),
        must(Action::Connect(Who::A)),
        must(Action::Connect(Who::B)),
        event(Who::A, 1),
        event(Who::A, 2),
        event(Who::A, 3),
        pause(2_000),
        has_events(Who::B, 3, "Follower should have 3 events (replication through proxy)"),
        must(Action::ReadLease("cluster/lease.bin")),
        assertion(
            Action::Write(Who::A, numbered_event(AggregateKey::new(2, 1, 1), 1, true)),
            Expect::Accepted,
            "Leader should accept writes before partition",
        ),
        assertion(
            Action::Write(Who::B, numbered_event(AggregateKey::new(2, 1, 1), 2, true)),
            Expect::Rejected,
            "Follower should reject writes before partition",
        ),
        note(Action::Block(Link::Replication(Who::B))),
        keep_asserting(
            Action::Write(Who::A, numbered_event(AggregateKey::new(3, 1, 1), 1, true)),
            Expect::Rejected,
            5_000,
            200,
            "Leader should fence during the partition",
        ),
        keep_asserting(
            Action::Write(Who::B, numbered_event(AggregateKey::new(3, 1, 1), 2, true)),
            Expect::Rejected,
            5_000,
            200,
            "Follower should fence during the partition",
        ),
        pause(5_000),
        must(Action::ReadLease("cluster/lease.bin")),
        assertion(
            Action::Recall(20),
            Expect::Lease(LeaseRule::IndexAbove(13)),
            "lease_index should have increased after S3 race: was {was_index}, now {index}",
        ),
        assertion(
            Action::Recall(20),
            Expect::Lease(LeaseRule::IndexAtLeast(1)),
            "lease_index should be positive",
        ),
        assertion(
            Action::Recall(20),
            Expect::Lease(LeaseRule::IndexWithin(13, 10)),
            "lease_index should not have jumped unreasonably: was {was_index}, now {index} (max expected ~{limit})",
        ),
    ]
}

/// Under a partition both nodes are seen to turn writes down, and the index of the lease moves on,
/// by no more than the races can account for. A node that wins the race may accept writes again,
/// so each is asked until it refuses, within the time that the race is given.
pub fn run() -> (r: Vec<Step>)
    ensures
        r@ == run_steps(),
{
    let steps: Vec<Step> = vec![
        store(12900, Some("test-network-partition")),
        node_a(
            12900,
            Some("leader"),
            NodeConfig {
                client_port: Some(run_port(12900, 0)),
                bootstrap_as_leader: Some(true),
                ..s3_typed(4)
            },
        ),
        pause(500),
        must(
            Action::StartProxy {
                link: Link::Replication(Who::B),
                port: run_port(12900, 200),
                target: run_port(12900, 101),
            },
        ),
        node_b(
            12900,
            Some("follower"),
            NodeConfig {
                client_port: Some(run_port(12900, 100)),
                advertised_replication_address: Some(run_port(12900, 200)),
                bootstrap_as_leader: Some(false),
                ..s3_typed(4)
            },
        ),
        pause(5_000),
        must(Action::Connect(Who::A)),
        must(Action::Connect(Who::B)),
        event(Who::A, 1),
        event(Who::A, 2),
        event(Who::A, 3),
        pause(2_000),
        has_events(Who::B, 3, "Follower should have 3 events (replication through proxy)"),
        must(Action::ReadLease("cluster/lease.bin")),
        assertion(
            Action::Write(Who::A, numbered_event(AggregateKey::new(2, 1, 1), 1, true)),
            Expect::Accepted,
            "Leader should accept writes before partition",
        ),
        assertion(
            Action::Write(Who::B, numbered_event(AggregateKey::new(2, 1, 1), 2, true)),
            Expect::Rejected,
            "Follower should reject writes before partition",
        ),
        note(Action::Block(Link::Replication(Who::B))),
        keep_asserting(
            Action::Write(Who::A, numbered_event(AggregateKey::new(3, 1, 1), 1, true)),
            Expect::Rejected,
            5_000,
            200,
            "Leader should fence during the partition",
        ),
        keep_asserting(
            Action::Write(Who::B, numbered_event(AggregateKey::new(3, 1, 1), 2, true)),
            Expect::Rejected,
            5_000,
            200,
            "Follower should fence during the partition",
        ),
        pause(5_000),
        must(Action::ReadLease("cluster/lease.bin")),
        assertion(
            Action::Recall(20),
            Expect::Lease(LeaseRule::IndexAbove(13)),
            "lease_index should have increased after S3 race: was {was_index}, now {index}",
        ),
        assertion(
            Action::Recall(20),
            Expect::Lease(LeaseRule::IndexAtLeast(1)),
            "lease_index should be positive",
        ),
        assertion(
            Action::Recall(20),
            Expect::Lease(LeaseRule::IndexWithin(13, 10)),
            "lease_index should not have jumped unreasonably: was {was_index}, now {index} (max expected ~{limit})",
        ),
    ];
    assert(steps@ =~= run_steps());
    steps
}

/// What [`run`] demands of the replies, one for each of its steps.
pub open spec fn run_holds(history: Seq<Reply>) -> bool {
    &&& history.len() == 24
    &&& !turned_down(history[0])
    &&& !turned_down(history[1])
    &&& !turned_down(history[3])
    &&& !turned_down(history[4])
    &&& accepted_through(history, 6, 10)
    &&& history[12] == Reply::Number(3)
    &&& !turned_down(history[13])
    &&& !turned_down(history[14])
    &&& turned_down(history[15])
    &&& turned_down(history[17])
    &&& turned_down(history[18])
    &&& !turned_down(history[20])
    &&& history[13] matches Reply::Lease(e)
        && (history[20] matches Reply::Lease(l) && l.lease_index > e.lease_index)
    &&& history[20] matches Reply::Lease(l) && l.lease_index >= 1
    &&& history[13] matches Reply::Lease(e)
        && (history[20] matches Reply::Lease(l) && l.lease_index <= e.lease_index + 10)
}

/// [`run`] passes exactly on the replies that it demands.
#[verifier::rlimit(60)]
pub proof fn run_passes(history: Seq<Reply>)
    ensures
        passes(run_steps(), history) <==> run_holds(history),
{
    broadcast use group_judgement;

    let steps = run_steps();
    passing_is_step_by_step(steps, history);
    reveal_with_fuel(met_before, 25);
}

} // verus!
