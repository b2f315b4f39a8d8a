//! A leader that died and comes back finds the other node leading, follows it, and gets what it
//! writes.

use crate::bench::{NodeConfig, Who, run_port, s3_typed};
use crate::expect::{Expect, LeaseRule, group_judgement, turned_down};
use crate::model::{AggregateKey, numbered_event};
use crate::reply::Reply;
use crate::s3_common::{event, event_to, has_events, node_a, node_b, pause, store};
use crate::script::{
    Action, Step, accepted_through, assertion, met_before, must, note, passes,
    passing_is_step_by_step,
};
use vstd::prelude::*;

verus! {

/// The steps of [`run`].
pub open spec fn run_steps() -> Seq<Step> {
    seq![
        store(13300, Some("test-old-leader-recovery")),
        node_a(
            13300,
            Some("node-a-leader"),
            NodeConfig {
                client_port: Some(run_port(13300, 0)),
                bootstrap_as_leader: Some(true),
                ..s3_typed(4)
            },
        ),
        pause(1_000),
        node_b(
            13300,
            Some("node-b-follower"),
            NodeConfig {
                client_port: Some(run_port(13300, 100)),
                bootstrap_as_leader: Some(false),
                ..s3_typed(4)
            },
        ),
        pause(5_000),
        must(Action::Connect(Who::A)),
        must(Action::Connect(Who::B)),
        event(Who::A, 1),
        event(Who::A, 2),
        event(Who::A, 3),
        event(Who::A, 4),
        event(Who::A, 5),
        pause(2_000),
        has_events(Who::B, 5, "Node B should have 5 events replicated"),
        must(Action::ReadLease("cluster/lease.bin")),
        note(Action::StopNode(Who::A)),
        pause(8_000),
        must(Action::ReadLease("cluster/lease.bin")),
        assertion(
            Action::Recall(17),
            Expect::Lease(LeaseRule::IndexAbove(14)),
            "lease_index should have increased after takeover: was {was_index}, now {index}",
        ),
        event_to(Who::B, AggregateKey::new(2, 1, 1), 1),
        must(Action::RestartNode(Who::A)),
        pause(5_000),
        note(Action::Disconnect(Who::A)),
        must(Action::Connect(Who::A)),
        assertion(
            Action::Write(Who::A, numbered_event(AggregateKey::new(3, 1, 1), 1, true)),
            Expect::Rejected,
            "Node A should reject writes (is now Follower)",
        ),
        pause(5_000),
        note(Action::Disconnect(Who::B)),
        note(Action::Disconnect(Who::A)),
        must(Action::Connect(Who::B)),
        must(Action::Connect(Who::A)),
        event(Who::B, 6),
        event(Who::B, 7),
        event(Who::B, 8),
        event(Who::B, 9),
        event(Who::B, 10),
        pause(3_000),
        has_events(Who::A, 10, "Node A should have 10 events (5 from old session + 5 replicated)"),
    ]
}

/// A leader that died and comes back finds the other node leading, follows it, and gets what it
/// writes.
pub fn run() -> (r: Vec<Step>)
    ensures
        r@ == run_steps(),
{
    let steps: Vec<Step> = vec![
        store(13300, Some("test-old-leader-recovery")),
        node_a(
            13300,
            Some("node-a-leader"),
            NodeConfig {
                client_port: Some(run_port(13300, 0)),
                bootstrap_as_leader: Some(true),
                ..s3_typed(4)
            },
        ),
        pause(1_000),
        node_b(
            13300,
            Some("node-b-follower"),
            NodeConfig {
                client_port: Some(run_port(13300, 100)),
                bootstrap_as_leader: Some(false),
                ..s3_typed(4)
            },
        ),
        pause(5_000),
        must(Action::Connect(Who::A)),
        must(Action::Connect(Who::B)),
        event(Who::A, 1),
        event(Who::A, 2),
        event(Who::A, 3),
        event(Who::A, 4),
        event(Who::A, 5),
        pause(2_000),
        has_events(Who::B, 5, "Node B should have 5 events replicated"),
        must(Action::ReadLease("cluster/lease.bin")),
        note(Action::StopNode(Who::A)),
        pause(8_000),
        must(Action::ReadLease("cluster/lease.bin")),
        assertion(
            Action::Recall(17),
            Expect::Lease(LeaseRule::IndexAbove(14)),
            "lease_index should have increased after takeover: was {was_index}, now {index}",
        ),
        event_to(Who::B, AggregateKey::new(2, 1, 1), 1),
        must(Action::RestartNode(Who::A)),
        pause(5_000),
        note(Action::Disconnect(Who::A)),
        must(Action::Connect(Who::A)),
        assertion(
            Action::Write(Who::A, numbered_event(AggregateKey::new(3, 1, 1), 1, true)),
            Expect::Rejected,
            "Node A should reject writes (is now Follower)",
        ),
        pause(5_000),
        note(Action::Disconnect(Who::B)),
        note(Action::Disconnect(Who::A)),
        must(Action::Connect(Who::B)),
        must(Action::Connect(Who::A)),
        event(Who::B, 6),
        event(Who::B, 7),
        event(Who::B, 8),
        event(Who::B, 9),
        event(Who::B, 10),
        pause(3_000),
        has_events(Who::A, 10, "Node A should have 10 events (5 from old session + 5 replicated)"),
    ];
    assert(steps@ =~= run_steps());
    steps
}

/// What [`run`] demands of the replies, one for each of its steps.
pub open spec fn run_holds(history: Seq<Reply>) -> bool {
    &&& history.len() == 37
    &&& !turned_down(history[0])
    &&& !turned_down(history[1])
    &&& !turned_down(history[3])
    &&& accepted_through(history, 5, 11)
    &&& history[13] == Reply::Number(5)
    &&& !turned_down(history[14])
    &&& !turned_down(history[17])
    &&& history[14] matches Reply::Lease(e)
        && (history[17] matches Reply::Lease(l) && l.lease_index > e.lease_index)
    &&& !turned_down(history[19])
    &&& !turned_down(history[20])
    &&& !turned_down(history[23])
    &&& turned_down(history[24])
    &&& accepted_through(history, 28, 34)
    &&& history[36] == Reply::Number(10)
}

/// [`run`] passes exactly on the replies that it demands.
#[verifier::rlimit(60)]
pub proof fn run_passes(history: Seq<Reply>)
    ensures
        passes(run_steps(), history) <==> run_holds(history),
{
    broadcast use group_judgement;

    let steps = run_steps();
    passing_is_step_by_step(steps, history);
    reveal_with_fuel(met_before, 38);
}

} // verus!
