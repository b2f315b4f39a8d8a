//! When its follower dies the leader goes on under the same lease, only for longer; what it writes
//! to the store carries that lease, and the follower catches up when it is back.

use crate::bench::{Who, s3_cluster};
use crate::expect::{Expect, FallbackRule, LeaseRule, ListingRule, group_judgement, turned_down};
use crate::reply::Reply;
use crate::s3_common::{awaits_events, event, has_events, node_a, node_b, pause, store};
use crate::script::{
    Action, Prefix, Step, accepted_through, assertion, assertion_eq, met_before, must, note, passes,
    passing_is_step_by_step,
};
use vstd::prelude::*;

verus! {

/// The steps of [`run`].
pub open spec fn run_steps() -> Seq<Step> {
    seq![
        store(11900, Some("test-follower-crash")),
        node_a(
            11900,
            Some("leader"),
            s3_cluster(4),
        ),
        node_b(
            11900,
            Some("follower"),
            s3_cluster(4),
        ),
        pause(8_000),
        must(Action::Connect(Who::A)),
        event(Who::A, 1),
        event(Who::A, 2),
        event(Who::A, 3),
        must(Action::Connect(Who::B)),
        has_events(Who::B, 3, "Follower should have 3 events"),
        must(Action::ReadLease("cluster/lease.json")),
        assertion(
            Action::Recall(10),
            Expect::Lease(LeaseRule::IndexAtLeast(1)),
            "Initial lease_index should be >= 1",
        ),
        note(Action::Disconnect(Who::B)),
        note(Action::StopNode(Who::B)),
        pause(5_000),
        event(Who::A, 4),
        event(Who::A, 5),
        must(Action::ReadLease("cluster/lease.json")),
        assertion_eq(
            Action::Recall(17),
            Expect::Lease(LeaseRule::IndexSame(10)),
            "lease_index should NOT change on same-leader self-heal: was {was_index}, now {index}",
        ),
        assertion_eq(
            Action::Recall(17),
            Expect::Lease(LeaseRule::LeaderSame(10)),
            "leader_node_id should NOT have changed (same leader self-healed)",
        ),
        assertion(
            Action::Recall(17),
            Expect::Lease(LeaseRule::ExpiryAbove(10)),
            "expires_at_ms should advance on self-heal: was {was_expiry}, now {expiry}",
        ),
        assertion(
            Action::ListObjects(Prefix::Shard(1)),
            Expect::Listing(ListingRule::AtLeast(1)),
            "Expected S3 fallback objects after follower crash",
        ),
        assertion_eq(
            Action::ReadLastFallback(21),
            Expect::Fallback(FallbackRule::TermOf(10)),
            "S3 fallback batch lease_index ({index}) should equal initial ({was_index}) — same leader, same term",
        ),
        must(Action::RestartNode(Who::B)),
        awaits_events(Who::B, 5, 30_000),
        event(Who::A, 6),
        event(Who::A, 7),
        awaits_events(Who::B, 7, 15_000),
    ]
}

/// When its follower dies the leader goes on under the same lease, only for longer; what it writes
/// to the store carries that lease, and the follower catches up when it is back.
pub fn run() -> (r: Vec<Step>)
    ensures
        r@ == run_steps(),
{
    let steps: Vec<Step> = vec![
        store(11900, Some("test-follower-crash")),
        node_a(
            11900,
            Some("leader"),
            s3_cluster(4),
        ),
        node_b(
            11900,
            Some("follower"),
            s3_cluster(4),
        ),
        pause(8_000),
        must(Action::Connect(Who::A)),
        event(Who::A, 1),
        event(Who::A, 2),
        event(Who::A, 3),
        must(Action::Connect(Who::B)),
        has_events(Who::B, 3, "Follower should have 3 events"),
        must(Action::ReadLease("cluster/lease.json")),
        assertion(
            Action::Recall(10),
            Expect::Lease(LeaseRule::IndexAtLeast(1)),
            "Initial lease_index should be >= 1",
        ),
        note(Action::Disconnect(Who::B)),
        note(Action::StopNode(Who::B)),
        pause(5_000),
        event(Who::A, 4),
        event(Who::A, 5),
        must(Action::ReadLease("cluster/lease.json")),
        assertion_eq(
            Action::Recall(17),
            Expect::Lease(LeaseRule::IndexSame(10)),
            "lease_index should NOT change on same-leader self-heal: was {was_index}, now {index}",
        ),
        assertion_eq(
            Action::Recall(17),
            Expect::Lease(LeaseRule::LeaderSame(10)),
            "leader_node_id should NOT have changed (same leader self-healed)",
        ),
        assertion(
            Action::Recall(17),
            Expect::Lease(LeaseRule::ExpiryAbove(10)),
            "expires_at_ms should advance on self-heal: was {was_expiry}, now {expiry}",
        ),
        assertion(
            Action::ListObjects(Prefix::Shard(1)),
            Expect::Listing(ListingRule::AtLeast(1)),
            "Expected S3 fallback objects after follower crash",
        ),
        assertion_eq(
            Action::ReadLastFallback(21),
            Expect::Fallback(FallbackRule::TermOf(10)),
            "S3 fallback batch lease_index ({index}) should equal initial ({was_index}) — same leader, same term",
        ),
        must(Action::RestartNode(Who::B)),
        awaits_events(Who::B, 5, 30_000),
        event(Who::A, 6),
        event(Who::A, 7),
        awaits_events(Who::B, 7, 15_000),
    ];
    assert(steps@ =~= run_steps());
    steps
}

/// What [`run`] demands of the replies, one for each of its steps.
pub open spec fn run_holds(history: Seq<Reply>) -> bool {
    &&& history.len() == 28
    &&& accepted_through(history, 0, 2)
    &&& accepted_through(history, 4, 8)
    &&& history[9] == Reply::Number(3)
    &&& !turned_down(history[10])
    &&& history[10] matches Reply::Lease(l) && l.lease_index >= 1
    &&& accepted_through(history, 15, 17)
    &&& history[10] matches Reply::Lease(e)
        && (history[17] matches Reply::Lease(l) && l.lease_index == e.lease_index)
    &&& history[10] matches Reply::Lease(e)
        && (history[17] matches Reply::Lease(l) && l.leader_node_id == e.leader_node_id)
    &&& history[10] matches Reply::Lease(e)
        && (history[17] matches Reply::Lease(l) && l.expires_at_ms > e.expires_at_ms)
    &&& history[21] matches Reply::Objects(names) && names@.len() >= 1
    &&& history[10] matches Reply::Lease(l)
        && (history[22] matches Reply::Fallback(b) && b.items > 0 && b.lease_index == l.lease_index)
    &&& !turned_down(history[23])
    &&& history[24] matches Reply::Number(n) && n >= 5
    &&& !turned_down(history[25])
    &&& !turned_down(history[26])
    &&& history[27] matches Reply::Number(n) && n >= 7
}

/// [`run`] passes exactly on the replies that it demands.
#[verifier::rlimit(60)]
pub proof fn run_passes(history: Seq<Reply>)
    ensures
        passes(run_steps(), history) <==> run_holds(history),
{
    broadcast use group_judgement;

    let steps = run_steps();
    passing_is_step_by_step(steps, history);
    reveal_with_fuel(met_before, 29);
}

} // verus!
