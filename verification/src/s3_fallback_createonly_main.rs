//! Objects that are there before the nodes start are left as they are where a batch would go, and
//! the write is still acknowledged.

use crate::bench::{NodeConfig, Who, s3_typed};
use crate::expect::{Expect, all_untouched, group_judgement, turned_down};
use crate::reply::Reply;
use crate::s3_common::{event, has_events, node_a, node_b, pause, store};
use crate::script::{
    Action, Step, accepted_through, assertion, met_before, must, note, passes,
    passing_is_step_by_step,
};
use vstd::prelude::*;

verus! {

/// The steps of [`run`].
pub open spec fn run_steps() -> Seq<Step> {
    seq![
        store(11100, None),
        must(Action::SeedObjects(1, 4, 10, "GARBAGE_CONTENT_DO_NOT_OVERWRITE_THIS_987654321")),
        node_b(
            11100,
            None,
            NodeConfig {
                bootstrap_as_leader: Some(false),
                ..s3_typed(4)
            },
        ),
        pause(500),
        node_a(
            11100,
            None,
            NodeConfig {
                bootstrap_as_leader: Some(true),
                ..s3_typed(4)
            },
        ),
        pause(2_000),
        must(Action::Connect(Who::A)),
        event(Who::A, 1),
        event(Who::A, 2),
        event(Who::A, 3),
        pause(2_000),
        must(Action::Connect(Who::B)),
        has_events(Who::B, 3, "Follower should have 3 events after normal replication"),
        note(Action::Disconnect(Who::B)),
        note(Action::StopNode(Who::B)),
        pause(500),
        event(Who::A, 4),
        pause(1_000),
        assertion(
            Action::ReadSeeded,
            Expect::Untouched(7, "GARBAGE_CONTENT_DO_NOT_OVERWRITE_THIS_987654321"),
            "The pre-seeded objects should still contain garbage content, proving CreateOnly was used",
        ),
    ]
}

/// Objects that are there before the nodes start are left as they are where a batch would go, and
/// the write is still acknowledged.
pub fn run() -> (r: Vec<Step>)
    ensures
        r@ == run_steps(),
{
    let steps: Vec<Step> = vec![
        store(11100, None),
        must(Action::SeedObjects(1, 4, 10, "GARBAGE_CONTENT_DO_NOT_OVERWRITE_THIS_987654321")),
        node_b(
            11100,
            None,
            NodeConfig {
                bootstrap_as_leader: Some(false),
                ..s3_typed(4)
            },
        ),
        pause(500),
        node_a(
            11100,
            None,
            NodeConfig {
                bootstrap_as_leader: Some(true),
                ..s3_typed(4)
            },
        ),
        pause(2_000),
        must(Action::Connect(Who::A)),
        event(Who::A, 1),
        event(Who::A, 2),
        event(Who::A, 3),
        pause(2_000),
        must(Action::Connect(Who::B)),
        has_events(Who::B, 3, "Follower should have 3 events after normal replication"),
        note(Action::Disconnect(Who::B)),
        note(Action::StopNode(Who::B)),
        pause(500),
        event(Who::A, 4),
        pause(1_000),
        assertion(
            Action::ReadSeeded,
            Expect::Untouched(7, "GARBAGE_CONTENT_DO_NOT_OVERWRITE_THIS_987654321"),
            "The pre-seeded objects should still contain garbage content, proving CreateOnly was used",
        ),
    ];
    assert(steps@ =~= run_steps());
    steps
}

/// What [`run`] demands of the replies, one for each of its steps.
pub open spec fn run_holds(history: Seq<Reply>) -> bool {
    &&& history.len() == 19
    &&& accepted_through(history, 0, 2)
    &&& !turned_down(history[4])
    &&& accepted_through(history, 6, 9)
    &&& !turned_down(history[11])
    &&& history[12] == Reply::Number(3)
    &&& !turned_down(history[16])
    &&& history[18] matches Reply::Contents(c)
        && all_untouched(c@, 7, "GARBAGE_CONTENT_DO_NOT_OVERWRITE_THIS_987654321"@)
}

/// [`run`] passes exactly on the replies that it demands.
pub proof fn run_passes(history: Seq<Reply>)
    ensures
        passes(run_steps(), history) <==> run_holds(history),
{
    broadcast use group_judgement;

    let steps = run_steps();
    passing_is_step_by_step(steps, history);
    reveal_with_fuel(met_before, 20);
}

} // verus!
