//! An object that is already where a batch would go is left as it is, and the write is still
//! acknowledged.

use crate::bench::{Who, s3_cluster};
use crate::expect::{Expect, all_untouched, group_judgement, turned_down};
use crate::reply::Reply;
use crate::s3_common::{event, has_events, node_a, node_b, pause, store};
use crate::script::{
    Action, Step, accepted_through, assertion, met_before, must, note, passes,
    passing_is_step_by_step,
};
use vstd::prelude::*;

verus! {

/// The steps of [`run`].
pub open spec fn run_steps() -> Seq<Step> {
    seq![
        store(11100, None),
        node_a(
            11100,
            Some("leader"),
            s3_cluster(4),
        ),
        node_b(
            11100,
            Some("follower"),
            s3_cluster(4),
        ),
        pause(8_000),
        must(Action::Connect(Who::A)),
        event(Who::A, 1),
        event(Who::A, 2),
        event(Who::A, 3),
        must(Action::Connect(Who::B)),
        has_events(Who::B, 3, "Follower should have 3 events after normal replication"),
        must(Action::SeedObjects(1, 4, 10, "GARBAGE_CONTENT_DO_NOT_OVERWRITE_THIS_987654321")),
        note(Action::Disconnect(Who::B)),
        note(Action::StopNode(Who::B)),
        pause(500),
        event(Who::A, 4),
        assertion(
            Action::ReadSeeded,
            Expect::Untouched(7, "GARBAGE_CONTENT_DO_NOT_OVERWRITE_THIS_987654321"),
            "The pre-seeded objects should still contain garbage content, proving CreateOnly was used",
        ),
    ]
}

/// An object that is already where a batch would go is left as it is, and the write is still
/// acknowledged.
pub fn run() -> (r: Vec<Step>)
    ensures
        r@ == run_steps(),
{
    let steps: Vec<Step> = vec![
        store(11100, None),
        node_a(
            11100,
            Some("leader"),
            s3_cluster(4),
        ),
        node_b(
            11100,
            Some("follower"),
            s3_cluster(4),
        ),
        pause(8_000),
        must(Action::Connect(Who::A)),
        event(Who::A, 1),
        event(Who::A, 2),
        event(Who::A, 3),
        must(Action::Connect(Who::B)),
        has_events(Who::B, 3, "Follower should have 3 events after normal replication"),
        must(Action::SeedObjects(1, 4, 10, "GARBAGE_CONTENT_DO_NOT_OVERWRITE_THIS_987654321")),
        note(Action::Disconnect(Who::B)),
        note(Action::StopNode(Who::B)),
        pause(500),
        event(Who::A, 4),
        assertion(
            Action::ReadSeeded,
            Expect::Untouched(7, "GARBAGE_CONTENT_DO_NOT_OVERWRITE_THIS_987654321"),
            "The pre-seeded objects should still contain garbage content, proving CreateOnly was used",
        ),
    ];
    assert(steps@ =~= run_steps());
    steps
}

/// What [`run`] demands of the replies, one for each of its steps.
pub open spec fn run_holds(history: Seq<Reply>) -> bool {
    &&& history.len() == 16
    &&& accepted_through(history, 0, 2)
    &&& accepted_through(history, 4, 8)
    &&& history[9] == Reply::Number(3)
    &&& !turned_down(history[10])
    &&& !turned_down(history[14])
    &&& history[15] matches Reply::Contents(c)
        && all_untouched(c@, 7, "GARBAGE_CONTENT_DO_NOT_OVERWRITE_THIS_987654321"@)
}

/// [`run`] passes exactly on the replies that it demands.
pub proof fn run_passes(history: Seq<Reply>)
    ensures
        passes(run_steps(), history) <==> run_holds(history),
{
    broadcast use group_judgement;

    let steps = run_steps();
    passing_is_step_by_step(steps, history);
    reveal_with_fuel(met_before, 17);
}

} // verus!
