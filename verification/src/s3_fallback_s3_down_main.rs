//! With a store that was never in reach and no follower, the leader turns writes down.

use crate::bench::{NodeConfig, Role, Store, Who, run_port, s3_typed};
use crate::expect::{group_judgement, turned_down};
use crate::reply::Reply;
use crate::s3_common::{event, has_events, main_key, node_a, node_b, pause, refuses, store};
use crate::script::{
    Action, Step, accepted_through, met_before, must, note, passes, passing_is_step_by_step,
};
use vstd::prelude::*;

verus! {

/// The steps of [`run`].
pub open spec fn run_steps() -> Seq<Step> {
    seq![
        node_b(
            10600,
            None,
            NodeConfig {
                cluster_role: Some(Role::Follower),
                store: Store::Unreachable,
                ..s3_typed(4)
            },
        ),
        pause(500),
        node_a(
            10600,
            None,
            NodeConfig {
                cluster_role: Some(Role::Leader),
                follower_address: Some(run_port(10600, 101)),
                store: Store::Unreachable,
                ..s3_typed(4)
            },
        ),
        must(Action::Connect(Who::A)),
        event(Who::A, 1),
        event(Who::A, 2),
        event(Who::A, 3),
        pause(500),
        must(Action::Connect(Who::B)),
        has_events(Who::B, 3, "Follower should have 3 events after normal replication"),
        note(Action::Disconnect(Who::B)),
        note(Action::StopNode(Who::B)),
        pause(500),
        refuses(Who::A, main_key(), 4, false, "Write should have failed but succeeded!"),
    ]
}

/// With a store that was never in reach and no follower, the leader turns writes down.
pub fn run() -> (r: Vec<Step>)
    ensures
        r@ == run_steps(),
{
    let steps: Vec<Step> = vec![
        node_b(
            10600,
            None,
            NodeConfig {
                cluster_role: Some(Role::Follower),
                store: Store::Unreachable,
                ..s3_typed(4)
            },
        ),
        pause(500),
        node_a(
            10600,
            None,
            NodeConfig {
                cluster_role: Some(Role::Leader),
                follower_address: Some(run_port(10600, 101)),
                store: Store::Unreachable,
                ..s3_typed(4)
            },
        ),
        must(Action::Connect(Who::A)),
        event(Who::A, 1),
        event(Who::A, 2),
        event(Who::A, 3),
        pause(500),
        must(Action::Connect(Who::B)),
        has_events(Who::B, 3, "Follower should have 3 events after normal replication"),
        note(Action::Disconnect(Who::B)),
        note(Action::StopNode(Who::B)),
        pause(500),
        refuses(Who::A, main_key(), 4, false, "Write should have failed but succeeded!"),
    ];
    assert(steps@ =~= run_steps());
    steps
}

/// What [`run`] demands of the replies, one for each of its steps.
pub open spec fn run_holds(history: Seq<Reply>) -> bool {
    &&& history.len() == 14
    &&& !turned_down(history[0])
    &&& accepted_through(history, 2, 6)
    &&& !turned_down(history[8])
    &&& history[9] == Reply::Number(3)
    &&& turned_down(history[13])
}

/// [`run`] passes exactly on the replies that it demands.
pub proof fn run_passes(history: Seq<Reply>)
    ensures
        passes(run_steps(), history) <==> run_holds(history),
{
    broadcast use group_judgement;

    let steps = run_steps();
    passing_is_step_by_step(steps, history);
    reveal_with_fuel(met_before, 15);
}

} // verus!
