//! While the follower is away its entries go to the object store, in order; when it is back it
//! catches up, and nothing more goes there.

use crate::bench::{Who, s3_cluster};
use crate::expect::{
    Expect, FallbackRule, ListingRule, NumberRule, group_judgement, in_order, turned_down,
};
use crate::reply::Reply;
use crate::s3_common::{event, has_events, main_key, node_a, node_b, pause, store};
use crate::script::{
    Action, Prefix, Step, accepted_through, assertion, assertion_eq, met_before, must, note, passes,
    passing_is_step_by_step,
};
use vstd::prelude::*;

verus! {

/// The steps of [`run`].
pub open spec fn run_steps() -> Seq<Step> {
    seq![
        store(10500, None),
        node_a(
            10500,
            Some("leader"),
            s3_cluster(4),
        ),
        node_b(
            10500,
            Some("follower"),
            s3_cluster(4),
        ),
        pause(8_000),
        must(Action::Connect(Who::A)),
        event(Who::A, 1),
        event(Who::A, 2),
        event(Who::A, 3),
        must(Action::Connect(Who::B)),
        has_events(Who::B, 3, "Follower should have 3 events after normal replication"),
        note(Action::Disconnect(Who::B)),
        note(Action::StopNode(Who::B)),
        pause(500),
        event(Who::A, 4),
        event(Who::A, 5),
        event(Who::A, 6),
        event(Who::A, 7),
        event(Who::A, 8),
        assertion(
            Action::ListObjects(Prefix::Shard(1)),
            Expect::Listing(ListingRule::AtLeast(1)),
            "Expected S3 objects from fallback period",
        ),
        assertion(
            Action::Recall(18),
            Expect::Listing(ListingRule::Sorted),
            "S3 objects should be in lexicographic (temporal) order",
        ),
        assertion_eq(
            Action::ReadFallback(18, 0),
            Expect::Fallback(FallbackRule::Shard(1)),
            "FallbackBatch shard_id should match expected_shard",
        ),
        assertion(
            Action::Recall(20),
            Expect::Fallback(FallbackRule::NotEmpty),
            "FallbackBatch should contain items",
        ),
        assertion_eq(
            Action::Recall(20),
            Expect::Fallback(FallbackRule::IndexOfFirst),
            "fallback_index should match first item's WAL index",
        ),
        must(Action::RestartNode(Who::B)),
        pause(10_000),
        must(Action::Connect(Who::B)),
        assertion(
            Action::Count(Who::B, main_key()),
            Expect::Number(NumberRule::AtLeast(3)),
            "Follower should have at least 3 events (persisted WAL) after restart, got {got}",
        ),
        event(Who::A, 9),
        has_events(Who::B, 9, "Follower should have all 9 events after catchup + replication"),
        has_events(Who::A, 9, "Leader should have 9 events"),
        must(Action::ListObjects(Prefix::Shard(1))),
        event(Who::A, 10),
        event(Who::A, 11),
        event(Who::A, 12),
        has_events(Who::B, 12, "Follower should have 12 events after normal replication"),
        assertion_eq(
            Action::ListObjects(Prefix::Shard(1)),
            Expect::Listing(ListingRule::AsMany(30)),
            "No new S3 objects should appear after follower is back online",
        ),
    ]
}

/// While the follower is away its entries go to the object store, in order; when it is back it
/// catches up, and nothing more goes there.
pub fn run() -> (r: Vec<Step>)
    ensures
        r@ == run_steps(),
{
    let steps: Vec<Step> = vec![
        store(10500, None),
        node_a(
            10500,
            Some("leader"),
            s3_cluster(4),
        ),
        node_b(
            10500,
            Some("follower"),
            s3_cluster(4),
        ),
        pause(8_000),
        must(Action::Connect(Who::A)),
        event(Who::A, 1),
        event(Who::A, 2),
        event(Who::A, 3),
        must(Action::Connect(Who::B)),
        has_events(Who::B, 3, "Follower should have 3 events after normal replication"),
        note(Action::Disconnect(Who::B)),
        note(Action::StopNode(Who::B)),
        pause(500),
        event(Who::A, 4),
        event(Who::A, 5),
        event(Who::A, 6),
        event(Who::A, 7),
        event(Who::A, 8),
        assertion(
            Action::ListObjects(Prefix::Shard(1)),
            Expect::Listing(ListingRule::AtLeast(1)),
            "Expected S3 objects from fallback period",
        ),
        assertion(
            Action::Recall(18),
            Expect::Listing(ListingRule::Sorted),
            "S3 objects should be in lexicographic (temporal) order",
        ),
        assertion_eq(
            Action::ReadFallback(18, 0),
            Expect::Fallback(FallbackRule::Shard(1)),
            "FallbackBatch shard_id should match expected_shard",
        ),
        assertion(
            Action::Recall(20),
            Expect::Fallback(FallbackRule::NotEmpty),
            "FallbackBatch should contain items",
        ),
        assertion_eq(
            Action::Recall(20),
            Expect::Fallback(FallbackRule::IndexOfFirst),
            "fallback_index should match first item's WAL index",
        ),
        must(Action::RestartNode(Who::B)),
        pause(10_000),
        must(Action::Connect(Who::B)),
        assertion(
            Action::Count(Who::B, main_key()),
            Expect::Number(NumberRule::AtLeast(3)),
            "Follower should have at least 3 events (persisted WAL) after restart, got {got}",
        ),
        event(Who::A, 9),
        has_events(Who::B, 9, "Follower should have all 9 events after catchup + replication"),
        has_events(Who::A, 9, "Leader should have 9 events"),
        must(Action::ListObjects(Prefix::Shard(1))),
        event(Who::A, 10),
        event(Who::A, 11),
        event(Who::A, 12),
        has_events(Who::B, 12, "Follower should have 12 events after normal replication"),
        assertion_eq(
            Action::ListObjects(Prefix::Shard(1)),
            Expect::Listing(ListingRule::AsMany(30)),
            "No new S3 objects should appear after follower is back online",
        ),
    ];
    assert(steps@ =~= run_steps());
    steps
}

/// What [`run`] demands of the replies, one for each of its steps.
pub open spec fn run_holds(history: Seq<Reply>) -> bool {
    &&& history.len() == 36
    &&& accepted_through(history, 0, 2)
    &&& accepted_through(history, 4, 8)
    &&& history[9] == Reply::Number(3)
    &&& accepted_through(history, 13, 17)
    &&& history[18] matches Reply::Objects(names) && names@.len() >= 1
    &&& history[18] matches Reply::Objects(names) && in_order(names@)
    &&& history[20] matches Reply::Fallback(b) && b.shard_id == 1
    &&& history[20] matches Reply::Fallback(b) && b.items > 0
    &&& history[20] matches Reply::Fallback(b)
        && b.items > 0
        && b.fallback_index == b.first_wal_index
    &&& !turned_down(history[23])
    &&& !turned_down(history[25])
    &&& history[26] matches Reply::Number(n) && n >= 3
    &&& !turned_down(history[27])
    &&& history[28] == Reply::Number(9)
    &&& history[29] == Reply::Number(9)
    &&& accepted_through(history, 30, 33)
    &&& history[34] == Reply::Number(12)
    &&& history[30] matches Reply::Objects(before)
        && (history[35] matches Reply::Objects(names) && names@.len() == before@.len())
}

/// [`run`] passes exactly on the replies that it demands.
#[verifier::rlimit(60)]
pub proof fn run_passes(history: Seq<Reply>)
    ensures
        passes(run_steps(), history) <==> run_holds(history),
{
    broadcast use group_judgement;

    let steps = run_steps();
    passing_is_step_by_step(steps, history);
    reveal_with_fuel(met_before, 37);
}

} // verus!
