//! Over two failovers, from node A to node B and back, the index of the lease goes from 1 to 2 to
//! 3.

use crate::bench::{NodeConfig, Who, s3_typed};
use crate::expect::{Expect, LeaseRule, NumberRule, group_judgement, turned_down};
use crate::reply::Reply;
use crate::s3_common::{event, has_events, main_key, node_a, node_b, pause, refuses, store};
use crate::script::{
    Action, Step, accepted_through, assertion, assertion_eq, assertion_ne, met_before, must, note,
    passes, passing_is_step_by_step,
};
use vstd::prelude::*;

verus! {

/// The steps of [`run`].
pub open spec fn run_steps() -> Seq<Step> {
    seq![
        store(12500, Some("test-lease-monotonicity")),
        node_a(
            12500,
            None,
            NodeConfig {
                s3_lease_duration_ms: Some(10_000),
                ..s3_typed(4)
            },
        ),
        pause(500),
        node_b(
            12500,
            None,
            NodeConfig {
                s3_lease_duration_ms: Some(10_000),
                ..s3_typed(4)
            },
        ),
        pause(12_000),
        must(Action::Connect(Who::A)),
        event(Who::A, 1),
        event(Who::A, 2),
        event(Who::A, 3),
        must(Action::Connect(Who::B)),
        has_events(Who::B, 3, "Follower B should have 3 events"),
        must(Action::ReadLease("cluster/lease.json")),
        assertion_eq(
            Action::Recall(11),
            Expect::Lease(LeaseRule::IndexIs(1)),
            "Initial lease_index should be 1",
        ),
        note(Action::Disconnect(Who::A)),
        note(Action::StopNode(Who::A)),
        pause(5_000),
        must(Action::ReadLease("cluster/lease.json")),
        assertion(
            Action::Recall(16),
            Expect::Lease(LeaseRule::IndexAfter(11)),
            "lease_index should have increased after first failover: was {was_index}, now {index}",
        ),
        assertion_ne(
            Action::Recall(16),
            Expect::Lease(LeaseRule::LeaderOther(11)),
            "leader_node_id should have changed",
        ),
        event(Who::B, 4),
        event(Who::B, 5),
        must(Action::RestartNode(Who::A)),
        pause(12_000),
        must(Action::Connect(Who::A)),
        refuses(Who::A, main_key(), 99, false, "A accepted write but should be follower!"),
        note(Action::Disconnect(Who::B)),
        note(Action::StopNode(Who::B)),
        pause(5_000),
        must(Action::ReadLease("cluster/lease.json")),
        assertion(
            Action::Recall(28),
            Expect::Lease(LeaseRule::IndexAfter(16)),
            "lease_index should have increased after second failover: was {was_index}, now {index}",
        ),
        assertion_eq(
            Action::Recall(28),
            Expect::Lease(LeaseRule::LeaderSame(11)),
            "leader should be A again",
        ),
        assertion_ne(
            Action::Recall(28),
            Expect::Lease(LeaseRule::LeaderOther(16)),
            "leader should not be B",
        ),
        event(Who::A, 6),
        event(Who::A, 7),
        assertion(
            Action::Count(Who::A, main_key()),
            Expect::Number(NumberRule::AtLeast(5)),
            "Leader A should have at least 5 events (3 original + 2 new)",
        ),
    ]
}

/// Over two failovers, from node A to node B and back, the index of the lease goes from 1 to 2 to
/// 3.
pub fn run() -> (r: Vec<Step>)
    ensures
        r@ == run_steps(),
{
    let steps: Vec<Step> = vec![
        store(12500, Some("test-lease-monotonicity")),
        node_a(
            12500,
            None,
            NodeConfig {
                s3_lease_duration_ms: Some(10_000),
                ..s3_typed(4)
            },
        ),
        pause(500),
        node_b(
            12500,
            None,
            NodeConfig {
                s3_lease_duration_ms: Some(10_000),
                ..s3_typed(4)
            },
        ),
        pause(12_000),
        must(Action::Connect(Who::A)),
        event(Who::A, 1),
        event(Who::A, 2),
        event(Who::A, 3),
        must(Action::Connect(Who::B)),
        has_events(Who::B, 3, "Follower B should have 3 events"),
        must(Action::ReadLease("cluster/lease.json")),
        assertion_eq(
            Action::Recall(11),
            Expect::Lease(LeaseRule::IndexIs(1)),
            "Initial lease_index should be 1",
        ),
        note(Action::Disconnect(Who::A)),
        note(Action::StopNode(Who::A)),
        pause(5_000),
        must(Action::ReadLease("cluster/lease.json")),
        assertion(
            Action::Recall(16),
            Expect::Lease(LeaseRule::IndexAfter(11)),
            "lease_index should have increased after first failover: was {was_index}, now {index}",
        ),
        assertion_ne(
            Action::Recall(16),
            Expect::Lease(LeaseRule::LeaderOther(11)),
            "leader_node_id should have changed",
        ),
        event(Who::B, 4),
        event(Who::B, 5),
        must(Action::RestartNode(Who::A)),
        pause(12_000),
        must(Action::Connect(Who::A)),
        refuses(Who::A, main_key(), 99, false, "A accepted write but should be follower!"),
        note(Action::Disconnect(Who::B)),
        note(Action::StopNode(Who::B)),
        pause(5_000),
        must(Action::ReadLease("cluster/lease.json")),
        assertion(
            Action::Recall(28),
            Expect::Lease(LeaseRule::IndexAfter(16)),
            "lease_index should have increased after second failover: was {was_index}, now {index}",
        ),
        assertion_eq(
            Action::Recall(28),
            Expect::Lease(LeaseRule::LeaderSame(11)),
            "leader should be A again",
        ),
        assertion_ne(
            Action::Recall(28),
            Expect::Lease(LeaseRule::LeaderOther(16)),
            "leader should not be B",
        ),
        event(Who::A, 6),
        event(Who::A, 7),
        assertion(
            Action::Count(Who::A, main_key()),
            Expect::Number(NumberRule::AtLeast(5)),
            "Leader A should have at least 5 events (3 original + 2 new)",
        ),
    ];
    assert(steps@ =~= run_steps());
    steps
}

/// What [`run`] demands of the replies, one for each of its steps.
pub open spec fn run_holds(history: Seq<Reply>) -> bool {
    &&& history.len() == 35
    &&& !turned_down(history[0])
    &&& !turned_down(history[1])
    &&& !turned_down(history[3])
    &&& accepted_through(history, 5, 9)
    &&& history[10] == Reply::Number(3)
    &&& !turned_down(history[11])
    &&& history[11] matches Reply::Lease(l) && l.lease_index == 1
    &&& !turned_down(history[16])
    &&& history[11] matches Reply::Lease(e)
        && (history[16] matches Reply::Lease(l) && l.lease_index == e.lease_index + 1)
    &&& history[11] matches Reply::Lease(e)
        && (history[16] matches Reply::Lease(l) && l.leader_node_id != e.leader_node_id)
    &&& accepted_through(history, 19, 21)
    &&& !turned_down(history[23])
    &&& turned_down(history[24])
    &&& !turned_down(history[28])
    &&& history[16] matches Reply::Lease(e)
        && (history[28] matches Reply::Lease(l) && l.lease_index == e.lease_index + 1)
    &&& history[11] matches Reply::Lease(e)
        && (history[28] matches Reply::Lease(l) && l.leader_node_id == e.leader_node_id)
    &&& history[16] matches Reply::Lease(e)
        && (history[28] matches Reply::Lease(l) && l.leader_node_id != e.leader_node_id)
    &&& !turned_down(history[32])
    &&& !turned_down(history[33])
    &&& history[34] matches Reply::Number(n) && n >= 5
}

/// [`run`] passes exactly on the replies that it demands.
#[verifier::rlimit(60)]
pub proof fn run_passes(history: Seq<Reply>)
    ensures
        passes(run_steps(), history) <==> run_holds(history),
{
    broadcast use group_judgement;

    let steps = run_steps();
    passing_is_step_by_step(steps, history);
    reveal_with_fuel(met_before, 36);
}

} // verus!
