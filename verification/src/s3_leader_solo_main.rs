//! A leader without a follower writes to the object store and renews its lease; a follower that
//! comes late catches up from the store and then follows over the link.

use crate::bench::{Who, s3_cluster};
use crate::expect::{Expect, LeaseRule, ListingRule, group_judgement, turned_down};
use crate::reply::Reply;
use crate::s3_common::{event, has_events, node_a, node_b, pause, store};
use crate::script::{
    Action, Prefix, Step, accepted_through, assertion, assertion_eq, met_before, must, passes,
    passing_is_step_by_step,
};
use vstd::prelude::*;

verus! {

/// The steps of [`run`].
pub open spec fn run_steps() -> Seq<Step> {
    seq![
        store(12100, Some("test-leader-solo")),
        node_a(
            12100,
            Some("leader"),
            s3_cluster(4),
        ),
        pause(5_000),
        must(Action::Connect(Who::A)),
        event(Who::A, 1),
        event(Who::A, 2),
        event(Who::A, 3),
        pause(1_000),
        assertion(
            Action::ListObjects(Prefix::Shard(1)),
            Expect::Listing(ListingRule::AtLeast(1)),
            "Expected S3 fallback objects (no follower to replicate to)",
        ),
        must(Action::ReadLease("cluster/lease.bin")),
        assertion(
            Action::Recall(9),
            Expect::Lease(LeaseRule::IndexAtLeast(2)),
            "lease_index should be > 1 (leader renews during discovery loop), got {index}",
        ),
        node_b(
            12100,
            Some("follower"),
            s3_cluster(4),
        ),
        pause(10_000),
        must(Action::Connect(Who::B)),
        has_events(Who::B, 3, "Follower should have all 3 events from S3 boot catchup, got {got}"),
        must(Action::ListObjects(Prefix::Shard(1))),
        event(Who::A, 4),
        event(Who::A, 5),
        event(Who::A, 6),
        pause(2_000),
        has_events(Who::A, 6, "Leader should have 6 events"),
        has_events(Who::B, 6, "Follower should have 6 events"),
        assertion_eq(
            Action::ListObjects(Prefix::Shard(1)),
            Expect::Listing(ListingRule::AsMany(15)),
            "No new S3 fallback objects should appear after follower joined",
        ),
    ]
}

/// A leader without a follower writes to the object store and renews its lease; a follower that
/// comes late catches up from the store and then follows over the link.
pub fn run() -> (r: Vec<Step>)
    ensures
        r@ == run_steps(),
{
    let steps: Vec<Step> = vec![
        store(12100, Some("test-leader-solo")),
        node_a(
            12100,
            Some("leader"),
            s3_cluster(4),
        ),
        pause(5_000),
        must(Action::Connect(Who::A)),
        event(Who::A, 1),
        event(Who::A, 2),
        event(Who::A, 3),
        pause(1_000),
        assertion(
            Action::ListObjects(Prefix::Shard(1)),
            Expect::Listing(ListingRule::AtLeast(1)),
            "Expected S3 fallback objects (no follower to replicate to)",
        ),
        must(Action::ReadLease("cluster/lease.bin")),
        assertion(
            Action::Recall(9),
            Expect::Lease(LeaseRule::IndexAtLeast(2)),
            "lease_index should be > 1 (leader renews during discovery loop), got {index}",
        ),
        node_b(
            12100,
            Some("follower"),
            s3_cluster(4),
        ),
        pause(10_000),
        must(Action::Connect(Who::B)),
        has_events(Who::B, 3, "Follower should have all 3 events from S3 boot catchup, got {got}"),
        must(Action::ListObjects(Prefix::Shard(1))),
        event(Who::A, 4),
        event(Who::A, 5),
        event(Who::A, 6),
        pause(2_000),
        has_events(Who::A, 6, "Leader should have 6 events"),
        has_events(Who::B, 6, "Follower should have 6 events"),
        assertion_eq(
            Action::ListObjects(Prefix::Shard(1)),
            Expect::Listing(ListingRule::AsMany(15)),
            "No new S3 fallback objects should appear after follower joined",
        ),
    ];
    assert(steps@ =~= run_steps());
    steps
}

/// What [`run`] demands of the replies, one for each of its steps.
pub open spec fn run_holds(history: Seq<Reply>) -> bool {
    &&& history.len() == 23
    &&& !turned_down(history[0])
    &&& !turned_down(history[1])
    &&& accepted_through(history, 3, 6)
    &&& history[8] matches Reply::Objects(names) && names@.len() >= 1
    &&& !turned_down(history[9])
    &&& history[9] matches Reply::Lease(l) && l.lease_index >= 2
    &&& !turned_down(history[11])
    &&& !turned_down(history[13])
    &&& history[14] == Reply::Number(3)
    &&& accepted_through(history, 15, 18)
    &&& history[20] == Reply::Number(6)
    &&& history[21] == Reply::Number(6)
    &&& history[15] matches Reply::Objects(before)
        && (history[22] matches Reply::Objects(names) && names@.len() == before@.len())
}

/// [`run`] passes exactly on the replies that it demands.
#[verifier::rlimit(60)]
pub proof fn run_passes(history: Seq<Reply>)
    ensures
        passes(run_steps(), history) <==> run_holds(history),
{
    broadcast use group_judgement;

    let steps = run_steps();
    passing_is_step_by_step(steps, history);
    reveal_with_fuel(met_before, 24);
}

} // verus!
