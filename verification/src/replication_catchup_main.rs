//! A follower that was away gets the entries it missed with the next write.

use crate::bench::{NodeConfig, Who, s3_typed};
use crate::expect::{Expect, NumberRule, group_judgement, turned_down};
use crate::reply::Reply;
use crate::s3_common::{event, has_events, main_key, node_a, node_b, pause, store};
use crate::script::{
    Action, Step, accepted_through, met_before, must, note, passes, passing_is_step_by_step, step,
};
use vstd::prelude::*;

verus! {

/// The steps of [`run`].
pub open spec fn run_steps() -> Seq<Step> {
    seq![
        store(10300, Some("test-catchup")),
        node_b(
            10300,
            None,
            NodeConfig {
                num_shards: None,
                ..s3_typed(4)
            },
        ),
        pause(500),
        node_a(
            10300,
            None,
            NodeConfig {
                num_shards: None,
                ..s3_typed(4)
            },
        ),
        pause(2_000),
        must(Action::Connect(Who::A)),
        event(Who::A, 1),
        event(Who::A, 2),
        event(Who::A, 3),
        pause(500),
        must(Action::Connect(Who::B)),
        has_events(Who::B, 3, "Follower should have 3 events after normal replication"),
        note(Action::Disconnect(Who::B)),
        note(Action::StopNode(Who::B)),
        pause(500),
        event(Who::A, 4),
        event(Who::A, 5),
        event(Who::A, 6),
        must(Action::RestartNode(Who::B)),
        pause(500),
        must(Action::Connect(Who::B)),
        has_events(Who::B, 3, "Follower should still have only 3 events after restart"),
        event(Who::A, 7),
        pause(1_000),
        step(
            Action::Count(Who::B, main_key()),
            Expect::Number(NumberRule::Is(7)),
            "Catchup verification failed: expected 7, got {got}",
        ),
        has_events(Who::A, 7, "Leader should have 7 events"),
    ]
}

/// A follower that was away gets the entries it missed with the next write.
pub fn run() -> (r: Vec<Step>)
    ensures
        r@ == run_steps(),
{
    let steps: Vec<Step> = vec![
        store(10300, Some("test-catchup")),
        node_b(
            10300,
            None,
            NodeConfig {
                num_shards: None,
                ..s3_typed(4)
            },
        ),
        pause(500),
        node_a(
            10300,
            None,
            NodeConfig {
                num_shards: None,
                ..s3_typed(4)
            },
        ),
        pause(2_000),
        must(Action::Connect(Who::A)),
        event(Who::A, 1),
        event(Who::A, 2),
        event(Who::A, 3),
        pause(500),
        must(Action::Connect(Who::B)),
        has_events(Who::B, 3, "Follower should have 3 events after normal replication"),
        note(Action::Disconnect(Who::B)),
        note(Action::StopNode(Who::B)),
        pause(500),
        event(Who::A, 4),
        event(Who::A, 5),
        event(Who::A, 6),
        must(Action::RestartNode(Who::B)),
        pause(500),
        must(Action::Connect(Who::B)),
        has_events(Who::B, 3, "Follower should still have only 3 events after restart"),
        event(Who::A, 7),
        pause(1_000),
        step(
            Action::Count(Who::B, main_key()),
            Expect::Number(NumberRule::Is(7)),
            "Catchup verification failed: expected 7, got {got}",
        ),
        has_events(Who::A, 7, "Leader should have 7 events"),
    ];
    assert(steps@ =~= run_steps());
    steps
}

/// What [`run`] demands of the replies, one for each of its steps.
pub open spec fn run_holds(history: Seq<Reply>) -> bool {
    &&& history.len() == 26
    &&& !turned_down(history[0])
    &&& !turned_down(history[1])
    &&& !turned_down(history[3])
    &&& accepted_through(history, 5, 8)
    &&& !turned_down(history[10])
    &&& history[11] == Reply::Number(3)
    &&& accepted_through(history, 15, 18)
    &&& !turned_down(history[20])
    &&& history[21] == Reply::Number(3)
    &&& !turned_down(history[22])
    &&& history[24] == Reply::Number(7)
    &&& history[25] == Reply::Number(7)
}

/// [`run`] passes exactly on the replies that it demands.
#[verifier::rlimit(60)]
pub proof fn run_passes(history: Seq<Reply>)
    ensures
        passes(run_steps(), history) <==> run_holds(history),
{
    broadcast use group_judgement;

    let steps = run_steps();
    passing_is_step_by_step(steps, history);
    reveal_with_fuel(met_before, 27);
}

} // verus!
