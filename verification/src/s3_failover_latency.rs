//! Between the death of the leader and the first write that the follower accepts pass less than
//! three seconds.

use crate::bench::{NodeConfig, Who, s3_typed};
use crate::expect::{Expect, NumberRule, group_judgement, turned_down};
use crate::model::numbered_event;
use crate::reply::Reply;
use crate::s3_common::{event, has_events, main_key, node_a, node_b, pause, store};
use crate::script::{
    Action, Step, accepted_through, assertion, keep_trying, met_before, must, note, passes,
    passing_is_step_by_step,
};
use vstd::prelude::*;

verus! {

/// The steps of [`run`].
pub open spec fn run_steps() -> Seq<Step> {
    seq![
        store(11500, Some("test-failover-latency")),
        node_a(
            11500,
            None,
            NodeConfig {
                heartbeat_lease_duration_ms: Some(1_500),
                heartbeat_interval_ms: Some(500),
                max_clock_drift_ms: Some(500),
                s3_lease_duration_ms: Some(10_000),
                ..s3_typed(4)
            },
        ),
        pause(500),
        node_b(
            11500,
            None,
            NodeConfig {
                heartbeat_lease_duration_ms: Some(1_500),
                heartbeat_interval_ms: Some(500),
                max_clock_drift_ms: Some(500),
                s3_lease_duration_ms: Some(10_000),
                ..s3_typed(4)
            },
        ),
        pause(12_000),
        must(Action::Connect(Who::A)),
        event(Who::A, 1),
        event(Who::A, 2),
        event(Who::A, 3),
        must(Action::Connect(Who::B)),
        has_events(Who::B, 3, "Follower should have replicated 3 events"),
        note(Action::Disconnect(Who::A)),
        note(Action::StopNode(Who::A)),
        keep_trying(
            Action::WriteFresh(Who::B, numbered_event(main_key(), 100, false)),
            Expect::Accepted,
            15_000,
            50,
            "Follower never accepted writes within timeout",
        ),
        assertion(
            Action::SinceStop,
            Expect::Number(NumberRule::AtMost(2_999)),
            "Failover took {seconds}, expected under 3.00s",
        ),
    ]
}

/// Between the death of the leader and the first write that the follower accepts pass less than
/// three seconds.
pub fn run() -> (r: Vec<Step>)
    ensures
        r@ == run_steps(),
{
    let steps: Vec<Step> = vec![
        store(11500, Some("test-failover-latency")),
        node_a(
            11500,
            None,
            NodeConfig {
                heartbeat_lease_duration_ms: Some(1_500),
                heartbeat_interval_ms: Some(500),
                max_clock_drift_ms: Some(500),
                s3_lease_duration_ms: Some(10_000),
                ..s3_typed(4)
            },
        ),
        pause(500),
        node_b(
            11500,
            None,
            NodeConfig {
                heartbeat_lease_duration_ms: Some(1_500),
                heartbeat_interval_ms: Some(500),
                max_clock_drift_ms: Some(500),
                s3_lease_duration_ms: Some(10_000),
                ..s3_typed(4)
            },
        ),
        pause(12_000),
        must(Action::Connect(Who::A)),
        event(Who::A, 1),
        event(Who::A, 2),
        event(Who::A, 3),
        must(Action::Connect(Who::B)),
        has_events(Who::B, 3, "Follower should have replicated 3 events"),
        note(Action::Disconnect(Who::A)),
        note(Action::StopNode(Who::A)),
        keep_trying(
            Action::WriteFresh(Who::B, numbered_event(main_key(), 100, false)),
            Expect::Accepted,
            15_000,
            50,
            "Follower never accepted writes within timeout",
        ),
        assertion(
            Action::SinceStop,
            Expect::Number(NumberRule::AtMost(2_999)),
            "Failover took {seconds}, expected under 3.00s",
        ),
    ];
    assert(steps@ =~= run_steps());
    steps
}

/// What [`run`] demands of the replies, one for each of its steps.
pub open spec fn run_holds(history: Seq<Reply>) -> bool {
    &&& history.len() == 15
    &&& !turned_down(history[0])
    &&& !turned_down(history[1])
    &&& !turned_down(history[3])
    &&& accepted_through(history, 5, 9)
    &&& history[10] == Reply::Number(3)
    &&& !turned_down(history[13])
    &&& history[14] matches Reply::Number(n) && n <= 2_999
}

/// [`run`] passes exactly on the replies that it demands.
pub proof fn run_passes(history: Seq<Reply>)
    ensures
        passes(run_steps(), history) <==> run_holds(history),
{
    broadcast use group_judgement;

    let steps = run_steps();
    passing_is_step_by_step(steps, history);
    reveal_with_fuel(met_before, 16);
}

} // verus!
