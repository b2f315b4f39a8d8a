//! When its follower dies the leader takes the lease anew and goes on; the follower gets what is
//! written after it is back.

use crate::bench::{NodeConfig, Who, s3_typed};
use crate::expect::{Expect, LeaseRule, NumberRule, group_judgement, turned_down};
use crate::reply::Reply;
use crate::s3_common::{event, has_events, main_key, node_a, node_b, pause, store};
use crate::script::{
    Action, Step, accepted_through, assertion, assertion_eq, met_before, must, note, passes,
    passing_is_step_by_step,
};
use vstd::prelude::*;

verus! {

/// The steps of [`run`].
pub open spec fn run_steps() -> Seq<Step> {
    seq![
        store(11900, Some("test-follower-crash")),
        node_a(
            11900,
            None,
            NodeConfig {
                bootstrap_as_leader: Some(true),
                ..s3_typed(4)
            },
        ),
        pause(500),
        node_b(
            11900,
            None,
            NodeConfig {
                bootstrap_as_leader: Some(false),
                ..s3_typed(4)
            },
        ),
        pause(3_000),
        must(Action::Connect(Who::A)),
        event(Who::A, 1),
        event(Who::A, 2),
        event(Who::A, 3),
        pause(500),
        must(Action::Connect(Who::B)),
        has_events(Who::B, 3, "Follower should have 3 events"),
        must(Action::ReadLease("cluster/lease.bin")),
        assertion_eq(
            Action::Recall(12),
            Expect::Lease(LeaseRule::IndexIs(1)),
            "Initial lease_index should be 1",
        ),
        note(Action::Disconnect(Who::B)),
        note(Action::StopNode(Who::B)),
        pause(5_000),
        event(Who::A, 4),
        event(Who::A, 5),
        must(Action::ReadLease("cluster/lease.bin")),
        assertion(
            Action::Recall(19),
            Expect::Lease(LeaseRule::IndexAfter(12)),
            "lease_index should have increased after self-heal: was {was_index}, now {index}",
        ),
        assertion_eq(
            Action::Recall(19),
            Expect::Lease(LeaseRule::LeaderSame(12)),
            "leader_node_id should NOT have changed (same leader self-healed)",
        ),
        must(Action::RestartNode(Who::B)),
        pause(8_000),
        must(Action::Connect(Who::B)),
        event(Who::A, 6),
        event(Who::A, 7),
        pause(2_000),
        assertion(
            Action::Count(Who::B, main_key()),
            Expect::Number(NumberRule::AtLeast(5)),
            "Restarted follower should have at least 5 events (3 original + 2 new), got {got}",
        ),
    ]
}

/// When its follower dies the leader takes the lease anew and goes on; the follower gets what is
/// written after it is back.
pub fn run() -> (r: Vec<Step>)
    ensures
        r@ == run_steps(),
{
    let steps: Vec<Step> = vec![
        store(11900, Some("test-follower-crash")),
        node_a(
            11900,
            None,
            NodeConfig {
                bootstrap_as_leader: Some(true),
                ..s3_typed(4)
            },
        ),
        pause(500),
        node_b(
            11900,
            None,
            NodeConfig {
                bootstrap_as_leader: Some(false),
                ..s3_typed(4)
            },
        ),
        pause(3_000),
        must(Action::Connect(Who::A)),
        event(Who::A, 1),
        event(Who::A, 2),
        event(Who::A, 3),
        pause(500),
        must(Action::Connect(Who::B)),
        has_events(Who::B, 3, "Follower should have 3 events"),
        must(Action::ReadLease("cluster/lease.bin")),
        assertion_eq(
            Action::Recall(12),
            Expect::Lease(LeaseRule::IndexIs(1)),
            "Initial lease_index should be 1",
        ),
        note(Action::Disconnect(Who::B)),
        note(Action::StopNode(Who::B)),
        pause(5_000),
        event(Who::A, 4),
        event(Who::A, 5),
        must(Action::ReadLease("cluster/lease.bin")),
        assertion(
            Action::Recall(19),
            Expect::Lease(LeaseRule::IndexAfter(12)),
            "lease_index should have increased after self-heal: was {was_index}, now {index}",
        ),
        assertion_eq(
            Action::Recall(19),
            Expect::Lease(LeaseRule::LeaderSame(12)),
            "leader_node_id should NOT have changed (same leader self-healed)",
        ),
        must(Action::RestartNode(Who::B)),
        pause(8_000),
        must(Action::Connect(Who::B)),
        event(Who::A, 6),
        event(Who::A, 7),
        pause(2_000),
        assertion(
            Action::Count(Who::B, main_key()),
            Expect::Number(NumberRule::AtLeast(5)),
            "Restarted follower should have at least 5 events (3 original + 2 new), got {got}",
        ),
    ];
    assert(steps@ =~= run_steps());
    steps
}

/// What [`run`] demands of the replies, one for each of its steps.
pub open spec fn run_holds(history: Seq<Reply>) -> bool {
    &&& history.len() == 29
    &&& !turned_down(history[0])
    &&& !turned_down(history[1])
    &&& !turned_down(history[3])
    &&& accepted_through(history, 5, 8)
    &&& !turned_down(history[10])
    &&& history[11] == Reply::Number(3)
    &&& !turned_down(history[12])
    &&& history[12] matches Reply::Lease(l) && l.lease_index == 1
    &&& accepted_through(history, 17, 19)
    &&& history[12] matches Reply::Lease(e)
        && (history[19] matches Reply::Lease(l) && l.lease_index == e.lease_index + 1)
    &&& history[12] matches Reply::Lease(e)
        && (history[19] matches Reply::Lease(l) && l.leader_node_id == e.leader_node_id)
    &&& !turned_down(history[22])
    &&& accepted_through(history, 24, 26)
    &&& history[28] matches Reply::Number(n) && n >= 5
}

/// [`run`] passes exactly on the replies that it demands.
#[verifier::rlimit(60)]
pub proof fn run_passes(history: Seq<Reply>)
    ensures
        passes(run_steps(), history) <==> run_holds(history),
{
    broadcast use group_judgement;

    let steps = run_steps();
    passing_is_step_by_step(steps, history);
    reveal_with_fuel(met_before, 30);
}

} // verus!
