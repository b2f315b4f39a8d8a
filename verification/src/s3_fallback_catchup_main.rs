//! While the follower is away its entries go to the object store; when it is back the next write
//! brings it all that it missed, and nothing more goes to the store.

use crate::bench::{NodeConfig, Role, Who, run_port, s3_typed};
use crate::expect::{Expect, ListingRule, group_judgement, turned_down};
use crate::reply::Reply;
use crate::s3_common::{event, has_events, node_a, node_b, pause, store};
use crate::script::{
    Action, Prefix, Step, accepted_through, assertion, assertion_eq, met_before, must, note, passes,
    passing_is_step_by_step,
};
use vstd::prelude::*;

verus! {

/// The steps of [`run`].
pub open spec fn run_steps() -> Seq<Step> {
    seq![
        store(10500, None),
        node_b(
            10500,
            None,
            NodeConfig {
                cluster_role: Some(Role::Follower),
                ..s3_typed(4)
            },
        ),
        pause(500),
        node_a(
            10500,
            None,
            NodeConfig {
                cluster_role: Some(Role::Leader),
                follower_address: Some(run_port(10500, 101)),
                ..s3_typed(4)
            },
        ),
        must(Action::Connect(Who::A)),
        event(Who::A, 1),
        event(Who::A, 2),
        event(Who::A, 3),
        pause(500),
        must(Action::Connect(Who::B)),
        has_events(Who::B, 3, "Follower should have 3 events after normal replication"),
        note(Action::Disconnect(Who::B)),
        note(Action::StopNode(Who::B)),
        pause(500),
        event(Who::A, 4),
        event(Who::A, 5),
        event(Who::A, 6),
        event(Who::A, 7),
        event(Who::A, 8),
        pause(1_000),
        must(Action::RestartNode(Who::B)),
        pause(500),
        must(Action::Connect(Who::B)),
        has_events(Who::B, 3, "Follower should still have only 3 events after restart"),
        event(Who::A, 9),
        pause(1_000),
        has_events(Who::B, 9, "Follower should have all 9 events after catchup"),
        has_events(Who::A, 9, "Leader should have 9 events"),
        assertion(
            Action::ListObjects(Prefix::Shard(1)),
            Expect::Listing(ListingRule::AtLeast(1)),
            "Expected S3 objects from fallback period",
        ),
        must(Action::ReadFallback(28, 0)),
        event(Who::A, 10),
        event(Who::A, 11),
        event(Who::A, 12),
        pause(1_000),
        has_events(Who::B, 12, "Follower should have 12 events after normal replication"),
        assertion_eq(
            Action::ListObjects(Prefix::Shard(1)),
            Expect::Listing(ListingRule::AsMany(28)),
            "No new S3 objects should appear after follower is back online",
        ),
    ]
}

/// While the follower is away its entries go to the object store; when it is back the next write
/// brings it all that it missed, and nothing more goes to the store.
pub fn run() -> (r: Vec<Step>)
    ensures
        r@ == run_steps(),
{
    let steps: Vec<Step> = vec![
        store(10500, None),
        node_b(
            10500,
            None,
            NodeConfig {
                cluster_role: Some(Role::Follower),
                ..s3_typed(4)
            },
        ),
        pause(500),
        node_a(
            10500,
            None,
            NodeConfig {
                cluster_role: Some(Role::Leader),
                follower_address: Some(run_port(10500, 101)),
                ..s3_typed(4)
            },
        ),
        must(Action::Connect(Who::A)),
        event(Who::A, 1),
        event(Who::A, 2),
        event(Who::A, 3),
        pause(500),
        must(Action::Connect(Who::B)),
        has_events(Who::B, 3, "Follower should have 3 events after normal replication"),
        note(Action::Disconnect(Who::B)),
        note(Action::StopNode(Who::B)),
        pause(500),
        event(Who::A, 4),
        event(Who::A, 5),
        event(Who::A, 6),
        event(Who::A, 7),
        event(Who::A, 8),
        pause(1_000),
        must(Action::RestartNode(Who::B)),
        pause(500),
        must(Action::Connect(Who::B)),
        has_events(Who::B, 3, "Follower should still have only 3 events after restart"),
        event(Who::A, 9),
        pause(1_000),
        has_events(Who::B, 9, "Follower should have all 9 events after catchup"),
        has_events(Who::A, 9, "Leader should have 9 events"),
        assertion(
            Action::ListObjects(Prefix::Shard(1)),
            Expect::Listing(ListingRule::AtLeast(1)),
            "Expected S3 objects from fallback period",
        ),
        must(Action::ReadFallback(28, 0)),
        event(Who::A, 10),
        event(Who::A, 11),
        event(Who::A, 12),
        pause(1_000),
        has_events(Who::B, 12, "Follower should have 12 events after normal replication"),
        assertion_eq(
            Action::ListObjects(Prefix::Shard(1)),
            Expect::Listing(ListingRule::AsMany(28)),
            "No new S3 objects should appear after follower is back online",
        ),
    ];
    assert(steps@ =~= run_steps());
    steps
}

/// What [`run`] demands of the replies, one for each of its steps.
pub open spec fn run_holds(history: Seq<Reply>) -> bool {
    &&& history.len() == 36
    &&& !turned_down(history[0])
    &&& !turned_down(history[1])
    &&& accepted_through(history, 3, 7)
    &&& !turned_down(history[9])
    &&& history[10] == Reply::Number(3)
    &&& accepted_through(history, 14, 18)
    &&& !turned_down(history[20])
    &&& !turned_down(history[22])
    &&& history[23] == Reply::Number(3)
    &&& !turned_down(history[24])
    &&& history[26] == Reply::Number(9)
    &&& history[27] == Reply::Number(9)
    &&& history[28] matches Reply::Objects(names) && names@.len() >= 1
    &&& accepted_through(history, 29, 32)
    &&& history[34] == Reply::Number(12)
    &&& history[28] matches Reply::Objects(before)
        && (history[35] matches Reply::Objects(names) && names@.len() == before@.len())
}

/// [`run`] passes exactly on the replies that it demands.
#[verifier::rlimit(60)]
pub proof fn run_passes(history: Seq<Reply>)
    ensures
        passes(run_steps(), history) <==> run_holds(history),
{
    broadcast use group_judgement;

    let steps = run_steps();
    passing_is_step_by_step(steps, history);
    reveal_with_fuel(met_before, 37);
}

} // verus!
