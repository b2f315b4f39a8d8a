//! With the object store and the follower both gone, the leader turns writes down.

use crate::bench::{Who, s3_cluster};
use crate::expect::{group_judgement, turned_down};
use crate::reply::Reply;
use crate::s3_common::{converges, event, main_key, node_a, node_b, pause, refuses, store};
use crate::script::{
    Action, Step, accepted_through, met_before, must, note, passes, passing_is_step_by_step,
};
use vstd::prelude::*;

verus! {

/// The steps of [`run`].
pub open spec fn run_steps() -> Seq<Step> {
    seq![
        store(10900, Some("test-s3down")),
        node_a(
            10900,
            Some("leader"),
            s3_cluster(4),
        ),
        node_b(
            10900,
            Some("follower"),
            s3_cluster(4),
        ),
        pause(8_000),
        must(Action::Connect(Who::A)),
        event(Who::A, 1),
        event(Who::A, 2),
        event(Who::A, 3),
        must(Action::Connect(Who::B)),
        converges(Who::B, 3, "Follower should have 3 events after normal replication"),
        must(Action::PauseStore),
        note(Action::Disconnect(Who::B)),
        note(Action::StopNode(Who::B)),
        pause(500),
        refuses(Who::A, main_key(), 4, false, "Write should have failed but succeeded!"),
    ]
}

/// With the object store and the follower both gone, the leader turns writes down.
pub fn run() -> (r: Vec<Step>)
    ensures
        r@ == run_steps(),
{
    let steps: Vec<Step> = vec![
        store(10900, Some("test-s3down")),
        node_a(
            10900,
            Some("leader"),
            s3_cluster(4),
        ),
        node_b(
            10900,
            Some("follower"),
            s3_cluster(4),
        ),
        pause(8_000),
        must(Action::Connect(Who::A)),
        event(Who::A, 1),
        event(Who::A, 2),
        event(Who::A, 3),
        must(Action::Connect(Who::B)),
        converges(Who::B, 3, "Follower should have 3 events after normal replication"),
        must(Action::PauseStore),
        note(Action::Disconnect(Who::B)),
        note(Action::StopNode(Who::B)),
        pause(500),
        refuses(Who::A, main_key(), 4, false, "Write should have failed but succeeded!"),
    ];
    assert(steps@ =~= run_steps());
    steps
}

/// What [`run`] demands of the replies, one for each of its steps.
pub open spec fn run_holds(history: Seq<Reply>) -> bool {
    &&& history.len() == 15
    &&& accepted_through(history, 0, 2)
    &&& accepted_through(history, 4, 8)
    &&& history[9] == Reply::Number(3)
    &&& !turned_down(history[10])
    &&& turned_down(history[14])
}

/// [`run`] passes exactly on the replies that it demands.
pub proof fn run_passes(history: Seq<Reply>)
    ensures
        passes(run_steps(), history) <==> run_holds(history),
{
    broadcast use group_judgement;

    let steps = run_steps();
    passing_is_step_by_step(steps, history);
    reveal_with_fuel(met_before, 16);
}

} // verus!
