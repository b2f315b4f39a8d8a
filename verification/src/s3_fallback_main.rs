//! When the follower goes away, writes go to the object store: to the place of their shard, in
//! order, each object further on than the one before.

use crate::bench::{NodeConfig, Role, Who, run_port, s3_typed};
use crate::expect::{Expect, FallbackRule, ListingRule, group_judgement, in_order, turned_down};
use crate::reply::Reply;
use crate::s3_common::{event, has_events, node_a, node_b, pause, store};
use crate::script::{
    Action, Prefix, Step, accepted_through, assertion, assertion_eq, met_before, must, note, passes,
    passing_is_step_by_step,
};
use vstd::prelude::*;

verus! {

/// The steps of [`run`].
pub open spec fn run_steps() -> Seq<Step> {
    seq![
        store(10400, None),
        node_b(
            10400,
            None,
            NodeConfig {
                cluster_role: Some(Role::Follower),
                ..s3_typed(4)
            },
        ),
        pause(500),
        node_a(
            10400,
            None,
            NodeConfig {
                cluster_role: Some(Role::Leader),
                follower_address: Some(run_port(10400, 101)),
                ..s3_typed(4)
            },
        ),
        must(Action::Connect(Who::A)),
        event(Who::A, 1),
        event(Who::A, 2),
        event(Who::A, 3),
        pause(500),
        must(Action::Connect(Who::B)),
        has_events(Who::B, 3, "Follower should have 3 events after normal replication"),
        note(Action::Disconnect(Who::B)),
        note(Action::StopNode(Who::B)),
        pause(500),
        event(Who::A, 4),
        event(Who::A, 5),
        event(Who::A, 6),
        pause(1_000),
        assertion(
            Action::ListObjects(Prefix::Shard(1)),
            Expect::Listing(ListingRule::AtLeast(1)),
            "Expected at least one S3 object after fallback",
        ),
        assertion_eq(
            Action::ReadFallback(18, 0),
            Expect::Fallback(FallbackRule::Shard(1)),
            "FallbackBatch shard_id should match expected_shard",
        ),
        assertion(
            Action::Recall(19),
            Expect::Fallback(FallbackRule::NotEmpty),
            "FallbackBatch should contain items",
        ),
        assertion_eq(
            Action::Recall(19),
            Expect::Fallback(FallbackRule::IndexOfFirst),
            "fallback_index should match first item's WAL index",
        ),
        event(Who::A, 7),
        pause(1_000),
        assertion(
            Action::ListObjects(Prefix::Shard(1)),
            Expect::Listing(ListingRule::AtLeast(2)),
            "Expected at least 2 S3 objects after second fallback",
        ),
        assertion(
            Action::Recall(24),
            Expect::Listing(ListingRule::Sorted),
            "S3 objects should be in lexicographic (temporal) order",
        ),
        assertion(
            Action::ReadFallback(24, 1),
            Expect::Fallback(FallbackRule::Above(19)),
            "Second batch fallback_index should be higher than first",
        ),
    ]
}

/// When the follower goes away, writes go to the object store: to the place of their shard, in
/// order, each object further on than the one before.
pub fn run() -> (r: Vec<Step>)
    ensures
        r@ == run_steps(),
{
    let steps: Vec<Step> = vec![
        store(10400, None),
        node_b(
            10400,
            None,
            NodeConfig {
                cluster_role: Some(Role::Follower),
                ..s3_typed(4)
            },
        ),
        pause(500),
        node_a(
            10400,
            None,
            NodeConfig {
                cluster_role: Some(Role::Leader),
                follower_address: Some(run_port(10400, 101)),
                ..s3_typed(4)
            },
        ),
        must(Action::Connect(Who::A)),
        event(Who::A, 1),
        event(Who::A, 2),
        event(Who::A, 3),
        pause(500),
        must(Action::Connect(Who::B)),
        has_events(Who::B, 3, "Follower should have 3 events after normal replication"),
        note(Action::Disconnect(Who::B)),
        note(Action::StopNode(Who::B)),
        pause(500),
        event(Who::A, 4),
        event(Who::A, 5),
        event(Who::A, 6),
        pause(1_000),
        assertion(
            Action::ListObjects(Prefix::Shard(1)),
            Expect::Listing(ListingRule::AtLeast(1)),
            "Expected at least one S3 object after fallback",
        ),
        assertion_eq(
            Action::ReadFallback(18, 0),
            Expect::Fallback(FallbackRule::Shard(1)),
            "FallbackBatch shard_id should match expected_shard",
        ),
        assertion(
            Action::Recall(19),
            Expect::Fallback(FallbackRule::NotEmpty),
            "FallbackBatch should contain items",
        ),
        assertion_eq(
            Action::Recall(19),
            Expect::Fallback(FallbackRule::IndexOfFirst),
            "fallback_index should match first item's WAL index",
        ),
        event(Who::A, 7),
        pause(1_000),
        assertion(
            Action::ListObjects(Prefix::Shard(1)),
            Expect::Listing(ListingRule::AtLeast(2)),
            "Expected at least 2 S3 objects after second fallback",
        ),
        assertion(
            Action::Recall(24),
            Expect::Listing(ListingRule::Sorted),
            "S3 objects should be in lexicographic (temporal) order",
        ),
        assertion(
            Action::ReadFallback(24, 1),
            Expect::Fallback(FallbackRule::Above(19)),
            "Second batch fallback_index should be higher than first",
        ),
    ];
    assert(steps@ =~= run_steps());
    steps
}

/// What [`run`] demands of the replies, one for each of its steps.
pub open spec fn run_holds(history: Seq<Reply>) -> bool {
    &&& history.len() == 27
    &&& !turned_down(history[0])
    &&& !turned_down(history[1])
    &&& accepted_through(history, 3, 7)
    &&& !turned_down(history[9])
    &&& history[10] == Reply::Number(3)
    &&& accepted_through(history, 14, 16)
    &&& history[18] matches Reply::Objects(names) && names@.len() >= 1
    &&& history[19] matches Reply::Fallback(b) && b.shard_id == 1
    &&& history[19] matches Reply::Fallback(b) && b.items > 0
    &&& history[19] matches Reply::Fallback(b)
        && b.items > 0
        && b.fallback_index == b.first_wal_index
    &&& !turned_down(history[22])
    &&& history[24] matches Reply::Objects(names) && names@.len() >= 2
    &&& history[24] matches Reply::Objects(names) && in_order(names@)
    &&& history[19] matches Reply::Fallback(e)
        && (history[26] matches Reply::Fallback(b) && b.fallback_index > e.fallback_index)
}

/// [`run`] passes exactly on the replies that it demands.
#[verifier::rlimit(60)]
pub proof fn run_passes(history: Seq<Reply>)
    ensures
        passes(run_steps(), history) <==> run_holds(history),
{
    broadcast use group_judgement;

    let steps = run_steps();
    passing_is_step_by_step(steps, history);
    reveal_with_fuel(met_before, 28);
}

} // verus!
