//! When the leader dies the follower takes over under the next lease; the old leader comes back as
//! its follower.

use crate::bench::{NodeConfig, Who, s3_typed};
use crate::expect::{Expect, LeaseRule, group_judgement, turned_down};
use crate::reply::Reply;
use crate::s3_common::{event, has_events, main_key, node_a, node_b, pause, refuses, store};
use crate::script::{
    Action, Step, accepted_through, assertion, assertion_eq, assertion_ne, met_before, must, note,
    passes, passing_is_step_by_step,
};
use vstd::prelude::*;

verus! {

/// The steps of [`run`].
pub open spec fn run_steps() -> Seq<Step> {
    seq![
        store(11500, Some("test-failover")),
        node_a(
            11500,
            None,
            NodeConfig {
                s3_lease_duration_ms: Some(10_000),
                ..s3_typed(4)
            },
        ),
        pause(500),
        node_b(
            11500,
            None,
            NodeConfig {
                s3_lease_duration_ms: Some(10_000),
                ..s3_typed(4)
            },
        ),
        pause(12_000),
        must(Action::Connect(Who::A)),
        event(Who::A, 1),
        event(Who::A, 2),
        event(Who::A, 3),
        must(Action::Connect(Who::B)),
        has_events(Who::B, 3, "Follower should have 3 events"),
        must(Action::ReadLease("cluster/lease.json")),
        assertion_eq(
            Action::Recall(11),
            Expect::Lease(LeaseRule::IndexIs(1)),
            "Initial lease_index should be 1",
        ),
        note(Action::Disconnect(Who::A)),
        note(Action::StopNode(Who::A)),
        pause(5_000),
        event(Who::B, 4),
        must(Action::ReadLease("cluster/lease.json")),
        assertion(
            Action::Recall(17),
            Expect::Lease(LeaseRule::IndexAfter(11)),
            "lease_index should have increased after failover: was {was_index}, now {index}",
        ),
        assertion_ne(
            Action::Recall(17),
            Expect::Lease(LeaseRule::LeaderOther(11)),
            "leader_node_id should have changed",
        ),
        must(Action::RestartNode(Who::A)),
        pause(5_000),
        must(Action::Connect(Who::A)),
        refuses(Who::A, main_key(), 99, false, "Old leader accepted write but should be follower!"),
        event(Who::B, 5),
        event(Who::B, 6),
        has_events(Who::A, 6, "Old leader (now follower) should have all 6 events"),
    ]
}

/// When the leader dies the follower takes over under the next lease; the old leader comes back as
/// its follower.
pub fn run() -> (r: Vec<Step>)
    ensures
        r@ == run_steps(),
{
    let steps: Vec<Step> = vec![
        store(11500, Some("test-failover")),
        node_a(
            11500,
            None,
            NodeConfig {
                s3_lease_duration_ms: Some(10_000),
                ..s3_typed(4)
            },
        ),
        pause(500),
        node_b(
            11500,
            None,
            NodeConfig {
                s3_lease_duration_ms: Some(10_000),
                ..s3_typed(4)
            },
        ),
        pause(12_000),
        must(Action::Connect(Who::A)),
        event(Who::A, 1),
        event(Who::A, 2),
        event(Who::A, 3),
        must(Action::Connect(Who::B)),
        has_events(Who::B, 3, "Follower should have 3 events"),
        must(Action::ReadLease("cluster/lease.json")),
        assertion_eq(
            Action::Recall(11),
            Expect::Lease(LeaseRule::IndexIs(1)),
            "Initial lease_index should be 1",
        ),
        note(Action::Disconnect(Who::A)),
        note(Action::StopNode(Who::A)),
        pause(5_000),
        event(Who::B, 4),
        must(Action::ReadLease("cluster/lease.json")),
        assertion(
            Action::Recall(17),
            Expect::Lease(LeaseRule::IndexAfter(11)),
            "lease_index should have increased after failover: was {was_index}, now {index}",
        ),
        assertion_ne(
            Action::Recall(17),
            Expect::Lease(LeaseRule::LeaderOther(11)),
            "leader_node_id should have changed",
        ),
        must(Action::RestartNode(Who::A)),
        pause(5_000),
        must(Action::Connect(Who::A)),
        refuses(Who::A, main_key(), 99, false, "Old leader accepted write but should be follower!"),
        event(Who::B, 5),
        event(Who::B, 6),
        has_events(Who::A, 6, "Old leader (now follower) should have all 6 events"),
    ];
    assert(steps@ =~= run_steps());
    steps
}

/// What [`run`] demands of the replies, one for each of its steps.
pub open spec fn run_holds(history: Seq<Reply>) -> bool {
    &&& history.len() == 27
    &&& !turned_down(history[0])
    &&& !turned_down(history[1])
    &&& !turned_down(history[3])
    &&& accepted_through(history, 5, 9)
    &&& history[10] == Reply::Number(3)
    &&& !turned_down(history[11])
    &&& history[11] matches Reply::Lease(l) && l.lease_index == 1
    &&& !turned_down(history[16])
    &&& !turned_down(history[17])
    &&& history[11] matches Reply::Lease(e)
        && (history[17] matches Reply::Lease(l) && l.lease_index == e.lease_index + 1)
    &&& history[11] matches Reply::Lease(e)
        && (history[17] matches Reply::Lease(l) && l.leader_node_id != e.leader_node_id)
    &&& !turned_down(history[20])
    &&& !turned_down(history[22])
    &&& turned_down(history[23])
    &&& !turned_down(history[24])
    &&& !turned_down(history[25])
    &&& history[26] == Reply::Number(6)
}

/// [`run`] passes exactly on the replies that it demands.
#[verifier::rlimit(60)]
pub proof fn run_passes(history: Seq<Reply>)
    ensures
        passes(run_steps(), history) <==> run_holds(history),
{
    broadcast use group_judgement;

    let steps = run_steps();
    passing_is_step_by_step(steps, history);
    reveal_with_fuel(met_before, 28);
}

} // verus!
