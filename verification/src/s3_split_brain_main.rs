//! Of two nodes that both mean to lead, one does: one lease, one writer, and the other one follows.

use crate::bench::{NodeConfig, Role, Who, s3_typed};
use crate::expect::{Expect, LeaseRule, NumberRule, group_judgement, turned_down};
use crate::model::numbered_event;
use crate::reply::Reply;
use crate::s3_common::{event, main_key, node_a, node_b, pause, store};
use crate::script::{
    Action, Step, accepted_through, assertion, assertion_eq, assertion_ne, met_before, must, passes,
    passing_is_step_by_step,
};
use vstd::prelude::*;

verus! {

/// The steps of [`run`].
pub open spec fn run_steps() -> Seq<Step> {
    seq![
        store(11700, Some("test-split-brain")),
        node_a(
            11700,
            None,
            NodeConfig {
                cluster_role: Some(Role::Leader),
                bootstrap_as_leader: Some(true),
                ..s3_typed(4)
            },
        ),
        pause(500),
        node_b(
            11700,
            None,
            NodeConfig {
                cluster_role: Some(Role::Leader),
                bootstrap_as_leader: Some(true),
                ..s3_typed(4)
            },
        ),
        pause(5_000),
        must(Action::ReadLease("cluster/lease.bin")),
        assertion_eq(
            Action::Recall(5),
            Expect::Lease(LeaseRule::IndexIs(1)),
            "lease_index should be 1 (single leader elected)",
        ),
        assertion_ne(
            Action::Recall(5),
            Expect::Lease(LeaseRule::LeaderSet),
            "leader_node_id should be set",
        ),
        must(Action::Connect(Who::A)),
        must(Action::Connect(Who::B)),
        assertion(
            Action::WriteEach(
                numbered_event(main_key(), 1, true),
                numbered_event(main_key(), 2, true),
            ),
            Expect::OneWriter,
            "Exactly one node should accept writes (one leader, one follower)",
        ),
        must(Action::Write(Who::Leader, numbered_event(main_key(), 10, true))),
        event(Who::Leader, 11),
        event(Who::Leader, 12),
        pause(2_000),
        assertion(
            Action::Count(Who::Follower, main_key()),
            Expect::Number(NumberRule::AtLeast(3)),
            "Follower should have replicated events from leader",
        ),
    ]
}

/// Of two nodes that both mean to lead, one does: one lease, one writer, and the other one follows.
pub fn run() -> (r: Vec<Step>)
    ensures
        r@ == run_steps(),
{
    let steps: Vec<Step> = vec![
        store(11700, Some("test-split-brain")),
        node_a(
            11700,
            None,
            NodeConfig {
                cluster_role: Some(Role::Leader),
                bootstrap_as_leader: Some(true),
                ..s3_typed(4)
            },
        ),
        pause(500),
        node_b(
            11700,
            None,
            NodeConfig {
                cluster_role: Some(Role::Leader),
                bootstrap_as_leader: Some(true),
                ..s3_typed(4)
            },
        ),
        pause(5_000),
        must(Action::ReadLease("cluster/lease.bin")),
        assertion_eq(
            Action::Recall(5),
            Expect::Lease(LeaseRule::IndexIs(1)),
            "lease_index should be 1 (single leader elected)",
        ),
        assertion_ne(
            Action::Recall(5),
            Expect::Lease(LeaseRule::LeaderSet),
            "leader_node_id should be set",
        ),
        must(Action::Connect(Who::A)),
        must(Action::Connect(Who::B)),
        assertion(
            Action::WriteEach(
                numbered_event(main_key(), 1, true),
                numbered_event(main_key(), 2, true),
            ),
            Expect::OneWriter,
            "Exactly one node should accept writes (one leader, one follower)",
        ),
        must(Action::Write(Who::Leader, numbered_event(main_key(), 10, true))),
        event(Who::Leader, 11),
        event(Who::Leader, 12),
        pause(2_000),
        assertion(
            Action::Count(Who::Follower, main_key()),
            Expect::Number(NumberRule::AtLeast(3)),
            "Follower should have replicated events from leader",
        ),
    ];
    assert(steps@ =~= run_steps());
    steps
}

/// What [`run`] demands of the replies, one for each of its steps.
pub open spec fn run_holds(history: Seq<Reply>) -> bool {
    &&& history.len() == 16
    &&& !turned_down(history[0])
    &&& !turned_down(history[1])
    &&& !turned_down(history[3])
    &&& !turned_down(history[5])
    &&& history[5] matches Reply::Lease(l) && l.lease_index == 1
    &&& history[5] matches Reply::Lease(l) && l.leader_node_id != 0
    &&& !turned_down(history[8])
    &&& !turned_down(history[9])
    &&& history[10] matches Reply::Leaders(a, b) && a != b
    &&& accepted_through(history, 11, 13)
    &&& history[15] matches Reply::Number(n) && n >= 3
}

/// [`run`] passes exactly on the replies that it demands.
pub proof fn run_passes(history: Seq<Reply>)
    ensures
        passes(run_steps(), history) <==> run_holds(history),
{
    broadcast use group_judgement;

    let steps = run_steps();
    passing_is_step_by_step(steps, history);
    reveal_with_fuel(met_before, 17);
}

} // verus!
