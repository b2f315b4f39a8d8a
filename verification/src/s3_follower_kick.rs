//! A follower that fell too far behind is told to catch up from the object store, does, and then
//! follows over the link again.

use crate::bench::{Link, NodeConfig, Who, run_port, s3_cluster};
use crate::expect::{Expect, ListingRule, NumberRule, group_judgement, listing_ok, turned_down};
use crate::model::AggregateKey;
use crate::reply::Reply;
use crate::s3_common::{event_to, node_a, node_b, pause, store};
use crate::script::{
    Action, Prefix, Step, accepted_through, assertion, assertion_eq, keep_asserting, met_before,
    must, note, passes, passing_is_step_by_step,
};
use vstd::prelude::*;

verus! {

/// The steps of [`run`].
pub open spec fn run_steps() -> Seq<Step> {
    seq![
        store(10600, None),
        must(
            Action::StartProxy {
                link: Link::Replication(Who::B),
                port: run_port(10600, 200),
                target: run_port(10600, 101),
            },
        ),
        node_a(
            10600,
            Some("leader"),
            NodeConfig {
                max_catchup_gap_bytes: Some(4_096),
                heartbeat_lease_duration_ms: Some(30_000),
                log_level: Some("info"),
                ..s3_cluster(4)
            },
        ),
        node_b(
            10600,
            Some("follower"),
            NodeConfig {
                max_catchup_gap_bytes: Some(4_096),
                heartbeat_lease_duration_ms: Some(30_000),
                advertised_replication_address: Some(run_port(10600, 200)),
                ..s3_cluster(4)
            },
        ),
        pause(10_000),
        must(Action::Connect(Who::A)),
        event_to(Who::A, AggregateKey::new(1, 1, 999), 1),
        event_to(Who::A, AggregateKey::new(1, 2, 999), 1),
        event_to(Who::A, AggregateKey::new(1, 1, 999), 2),
        event_to(Who::A, AggregateKey::new(1, 2, 999), 2),
        event_to(Who::A, AggregateKey::new(1, 1, 999), 3),
        event_to(Who::A, AggregateKey::new(1, 2, 999), 3),
        pause(3_000),
        must(Action::Connect(Who::B)),
        assertion_eq(
            Action::Count(Who::B, AggregateKey::new(1, 1, 999)),
            Expect::Number(NumberRule::Is(3)),
            "Follower shard 1 should have 3 events",
        ),
        assertion_eq(
            Action::Count(Who::B, AggregateKey::new(1, 2, 999)),
            Expect::Number(NumberRule::Is(3)),
            "Follower shard 2 should have 3 events",
        ),
        assertion(
            Action::ListObjects(Prefix::Shard(0)),
            Expect::Listing(ListingRule::Empty),
            "No S3 fallback objects during normal replication (shard 0)",
        ),
        assertion(
            Action::ListObjects(Prefix::Shard(1)),
            Expect::Listing(ListingRule::Empty),
            "No S3 fallback objects during normal replication (shard 1)",
        ),
        assertion(
            Action::ListObjects(Prefix::Shard(2)),
            Expect::Listing(ListingRule::Empty),
            "No S3 fallback objects during normal replication (shard 2)",
        ),
        assertion(
            Action::ListObjects(Prefix::Shard(3)),
            Expect::Listing(ListingRule::Empty),
            "No S3 fallback objects during normal replication (shard 3)",
        ),
        note(Action::Block(Link::Replication(Who::B))),
        event_to(Who::A, AggregateKey::new(1, 1, 999), 4),
        event_to(Who::A, AggregateKey::new(1, 2, 999), 4),
        event_to(Who::A, AggregateKey::new(1, 1, 999), 5),
        event_to(Who::A, AggregateKey::new(1, 2, 999), 5),
        event_to(Who::A, AggregateKey::new(1, 1, 999), 6),
        event_to(Who::A, AggregateKey::new(1, 2, 999), 6),
        event_to(Who::A, AggregateKey::new(1, 1, 999), 7),
        event_to(Who::A, AggregateKey::new(1, 2, 999), 7),
        event_to(Who::A, AggregateKey::new(1, 1, 999), 8),
        event_to(Who::A, AggregateKey::new(1, 2, 999), 8),
        event_to(Who::A, AggregateKey::new(1, 1, 999), 9),
        event_to(Who::A, AggregateKey::new(1, 2, 999), 9),
        event_to(Who::A, AggregateKey::new(1, 1, 999), 10),
        event_to(Who::A, AggregateKey::new(1, 2, 999), 10),
        event_to(Who::A, AggregateKey::new(1, 1, 999), 11),
        event_to(Who::A, AggregateKey::new(1, 2, 999), 11),
        event_to(Who::A, AggregateKey::new(1, 1, 999), 12),
        event_to(Who::A, AggregateKey::new(1, 2, 999), 12),
        event_to(Who::A, AggregateKey::new(1, 1, 999), 13),
        event_to(Who::A, AggregateKey::new(1, 2, 999), 13),
        pause(2_000),
        must(Action::ListObjects(Prefix::Shard(0))),
        must(Action::ListObjects(Prefix::Shard(1))),
        must(Action::ListObjects(Prefix::Shard(2))),
        assertion(
            Action::ListObjects(Prefix::Shard(3)),
            Expect::Listing(ListingRule::SomeSince(42)),
            "S3 fallback should have triggered during proxy block",
        ),
        assertion_eq(
            Action::Count(Who::A, AggregateKey::new(1, 1, 999)),
            Expect::Number(NumberRule::Is(13)),
            "Leader should have 13 events on shard 1",
        ),
        assertion_eq(
            Action::Count(Who::A, AggregateKey::new(1, 2, 999)),
            Expect::Number(NumberRule::Is(13)),
            "Leader should have 13 events on shard 2",
        ),
        note(Action::Unblock(Link::Replication(Who::B))),
        pause(2_000),
        event_to(Who::A, AggregateKey::new(1, 1, 999), 14),
        event_to(Who::A, AggregateKey::new(1, 2, 999), 14),
        must(Action::Count(Who::A, AggregateKey::new(1, 1, 999))),
        must(Action::Count(Who::A, AggregateKey::new(1, 2, 999))),
        keep_asserting(
            Action::CountBoth(Who::B, AggregateKey::new(1, 1, 999), AggregateKey::new(1, 2, 999)),
            Expect::CountsReach(52, 53),
            60_000,
            2_000,
            "Follower should have caught up from S3 within 60s",
        ),
        pause(3_000),
        must(Action::ListObjects(Prefix::Shard(0))),
        must(Action::ListObjects(Prefix::Shard(1))),
        must(Action::ListObjects(Prefix::Shard(2))),
        must(Action::ListObjects(Prefix::Shard(3))),
        must(Action::Connect(Who::A)),
        must(Action::Count(Who::A, AggregateKey::new(1, 1, 999))),
        must(Action::Count(Who::A, AggregateKey::new(1, 2, 999))),
        must(Action::WriteCounted(Who::A, AggregateKey::new(1, 1, 999), 61, 1)),
        must(Action::WriteCounted(Who::A, AggregateKey::new(1, 2, 999), 62, 1)),
        must(Action::WriteCounted(Who::A, AggregateKey::new(1, 1, 999), 61, 2)),
        must(Action::WriteCounted(Who::A, AggregateKey::new(1, 2, 999), 62, 2)),
        must(Action::WriteCounted(Who::A, AggregateKey::new(1, 1, 999), 61, 3)),
        must(Action::WriteCounted(Who::A, AggregateKey::new(1, 2, 999), 62, 3)),
        pause(3_000),
        must(Action::Connect(Who::B)),
        assertion_eq(
            Action::Count(Who::B, AggregateKey::new(1, 1, 999)),
            Expect::Number(NumberRule::Plus(61, 3)),
            "Follower shard 1 should have all events after re-join",
        ),
        assertion_eq(
            Action::Count(Who::B, AggregateKey::new(1, 2, 999)),
            Expect::Number(NumberRule::Plus(62, 3)),
            "Follower shard 2 should have all events after re-join",
        ),
        assertion(
            Action::ListObjects(Prefix::Shard(0)),
            Expect::Listing(ListingRule::NoMore(56)),
            "No new S3 objects should appear after re-join (TCP replication resumed)",
        ),
        assertion(
            Action::ListObjects(Prefix::Shard(1)),
            Expect::Listing(ListingRule::NoMore(57)),
            "No new S3 objects should appear after re-join (TCP replication resumed)",
        ),
        assertion(
            Action::ListObjects(Prefix::Shard(2)),
            Expect::Listing(ListingRule::NoMore(58)),
            "No new S3 objects should appear after re-join (TCP replication resumed)",
        ),
        assertion(
            Action::ListObjects(Prefix::Shard(3)),
            Expect::Listing(ListingRule::NoMore(59)),
            "No new S3 objects should appear after re-join (TCP replication resumed)",
        ),
    ]
}

/// A follower that fell too far behind is told to catch up from the object store, does, and then
/// follows over the link again.
pub fn run() -> (r: Vec<Step>)
    ensures
        r@ == run_steps(),
{
    let steps: Vec<Step> = vec![
        store(10600, None),
        must(
            Action::StartProxy {
                link: Link::Replication(Who::B),
                port: run_port(10600, 200),
                target: run_port(10600, 101),
            },
        ),
        node_a(
            10600,
            Some("leader"),
            NodeConfig {
                max_catchup_gap_bytes: Some(4_096),
                heartbeat_lease_duration_ms: Some(30_000),
                log_level: Some("info"),
                ..s3_cluster(4)
            },
        ),
        node_b(
            10600,
            Some("follower"),
            NodeConfig {
                max_catchup_gap_bytes: Some(4_096),
                heartbeat_lease_duration_ms: Some(30_000),
                advertised_replication_address: Some(run_port(10600, 200)),
                ..s3_cluster(4)
            },
        ),
        pause(10_000),
        must(Action::Connect(Who::A)),
        event_to(Who::A, AggregateKey::new(1, 1, 999), 1),
        event_to(Who::A, AggregateKey::new(1, 2, 999), 1),
        event_to(Who::A, AggregateKey::new(1, 1, 999), 2),
        event_to(Who::A, AggregateKey::new(1, 2, 999), 2),
        event_to(Who::A, AggregateKey::new(1, 1, 999), 3),
        event_to(Who::A, AggregateKey::new(1, 2, 999), 3),
        pause(3_000),
        must(Action::Connect(Who::B)),
        assertion_eq(
            Action::Count(Who::B, AggregateKey::new(1, 1, 999)),
            Expect::Number(NumberRule::Is(3)),
            "Follower shard 1 should have 3 events",
        ),
        assertion_eq(
            Action::Count(Who::B, AggregateKey::new(1, 2, 999)),
            Expect::Number(NumberRule::Is(3)),
            "Follower shard 2 should have 3 events",
        ),
        assertion(
            Action::ListObjects(Prefix::Shard(0)),
            Expect::Listing(ListingRule::Empty),
            "No S3 fallback objects during normal replication (shard 0)",
        ),
        assertion(
            Action::ListObjects(Prefix::Shard(1)),
            Expect::Listing(ListingRule::Empty),
            "No S3 fallback objects during normal replication (shard 1)",
        ),
        assertion(
            Action::ListObjects(Prefix::Shard(2)),
            Expect::Listing(ListingRule::Empty),
            "No S3 fallback objects during normal replication (shard 2)",
        ),
        assertion(
            Action::ListObjects(Prefix::Shard(3)),
            Expect::Listing(ListingRule::Empty),
            "No S3 fallback objects during normal replication (shard 3)",
        ),
        note(Action::Block(Link::Replication(Who::B))),
        event_to(Who::A, AggregateKey::new(1, 1, 999), 4),
        event_to(Who::A, AggregateKey::new(1, 2, 999), 4),
        event_to(Who::A, AggregateKey::new(1, 1, 999), 5),
        event_to(Who::A, AggregateKey::new(1, 2, 999), 5),
        event_to(Who::A, AggregateKey::new(1, 1, 999), 6),
        event_to(Who::A, AggregateKey::new(1, 2, 999), 6),
        event_to(Who::A, AggregateKey::new(1, 1, 999), 7),
        event_to(Who::A, AggregateKey::new(1, 2, 999), 7),
        event_to(Who::A, AggregateKey::new(1, 1, 999), 8),
        event_to(Who::A, AggregateKey::new(1, 2, 999), 8),
        event_to(Who::A, AggregateKey::new(1, 1, 999), 9),
        event_to(Who::A, AggregateKey::new(1, 2, 999), 9),
        event_to(Who::A, AggregateKey::new(1, 1, 999), 10),
        event_to(Who::A, AggregateKey::new(1, 2, 999), 10),
        event_to(Who::A, AggregateKey::new(1, 1, 999), 11),
        event_to(Who::A, AggregateKey::new(1, 2, 999), 11),
        event_to(Who::A, AggregateKey::new(1, 1, 999), 12),
        event_to(Who::A, AggregateKey::new(1, 2, 999), 12),
        event_to(Who::A, AggregateKey::new(1, 1, 999), 13),
        event_to(Who::A, AggregateKey::new(1, 2, 999), 13),
        pause(2_000),
        must(Action::ListObjects(Prefix::Shard(0))),
        must(Action::ListObjects(Prefix::Shard(1))),
        must(Action::ListObjects(Prefix::Shard(2))),
        assertion(
            Action::ListObjects(Prefix::Shard(3)),
            Expect::Listing(ListingRule::SomeSince(42)),
            "S3 fallback should have triggered during proxy block",
        ),
        assertion_eq(
            Action::Count(Who::A, AggregateKey::new(1, 1, 999)),
            Expect::Number(NumberRule::Is(13)),
            "Leader should have 13 events on shard 1",
        ),
        assertion_eq(
            Action::Count(Who::A, AggregateKey::new(1, 2, 999)),
            Expect::Number(NumberRule::Is(13)),
            "Leader should have 13 events on shard 2",
        ),
        note(Action::Unblock(Link::Replication(Who::B))),
        pause(2_000),
        event_to(Who::A, AggregateKey::new(1, 1, 999), 14),
        event_to(Who::A, AggregateKey::new(1, 2, 999), 14),
        must(Action::Count(Who::A, AggregateKey::new(1, 1, 999))),
        must(Action::Count(Who::A, AggregateKey::new(1, 2, 999))),
        keep_asserting(
            Action::CountBoth(Who::B, AggregateKey::new(1, 1, 999), AggregateKey::new(1, 2, 999)),
            Expect::CountsReach(52, 53),
            60_000,
            2_000,
            "Follower should have caught up from S3 within 60s",
        ),
        pause(3_000),
        must(Action::ListObjects(Prefix::Shard(0))),
        must(Action::ListObjects(Prefix::Shard(1))),
        must(Action::ListObjects(Prefix::Shard(2))),
        must(Action::ListObjects(Prefix::Shard(3))),
        must(Action::Connect(Who::A)),
        must(Action::Count(Who::A, AggregateKey::new(1, 1, 999))),
        must(Action::Count(Who::A, AggregateKey::new(1, 2, 999))),
        must(Action::WriteCounted(Who::A, AggregateKey::new(1, 1, 999), 61, 1)),
        must(Action::WriteCounted(Who::A, AggregateKey::new(1, 2, 999), 62, 1)),
        must(Action::WriteCounted(Who::A, AggregateKey::new(1, 1, 999), 61, 2)),
        must(Action::WriteCounted(Who::A, AggregateKey::new(1, 2, 999), 62, 2)),
        must(Action::WriteCounted(Who::A, AggregateKey::new(1, 1, 999), 61, 3)),
        must(Action::WriteCounted(Who::A, AggregateKey::new(1, 2, 999), 62, 3)),
        pause(3_000),
        must(Action::Connect(Who::B)),
        assertion_eq(
            Action::Count(Who::B, AggregateKey::new(1, 1, 999)),
            Expect::Number(NumberRule::Plus(61, 3)),
            "Follower shard 1 should have all events after re-join",
        ),
        assertion_eq(
            Action::Count(Who::B, AggregateKey::new(1, 2, 999)),
            Expect::Number(NumberRule::Plus(62, 3)),
            "Follower shard 2 should have all events after re-join",
        ),
        assertion(
            Action::ListObjects(Prefix::Shard(0)),
            Expect::Listing(ListingRule::NoMore(56)),
            "No new S3 objects should appear after re-join (TCP replication resumed)",
        ),
        assertion(
            Action::ListObjects(Prefix::Shard(1)),
            Expect::Listing(ListingRule::NoMore(57)),
            "No new S3 objects should appear after re-join (TCP replication resumed)",
        ),
        assertion(
            Action::ListObjects(Prefix::Shard(2)),
            Expect::Listing(ListingRule::NoMore(58)),
            "No new S3 objects should appear after re-join (TCP replication resumed)",
        ),
        assertion(
            Action::ListObjects(Prefix::Shard(3)),
            Expect::Listing(ListingRule::NoMore(59)),
            "No new S3 objects should appear after re-join (TCP replication resumed)",
        ),
    ];
    assert(steps@ =~= run_steps());
    steps
}

/// What [`run`] demands of the replies up to the cut link.
pub open spec fn cut_off_holds(history: Seq<Reply>) -> bool {
    &&& accepted_through(history, 0, 3)
    &&& accepted_through(history, 5, 11)
    &&& !turned_down(history[13])
    &&& history[14] == Reply::Number(3)
    &&& history[15] == Reply::Number(3)
    &&& history[16] matches Reply::Objects(names) && names@.len() == 0
    &&& history[17] matches Reply::Objects(names) && names@.len() == 0
    &&& history[18] matches Reply::Objects(names) && names@.len() == 0
    &&& history[19] matches Reply::Objects(names) && names@.len() == 0
}

/// What [`run`] demands of the replies while the link is cut.
pub open spec fn caught_up_holds(history: Seq<Reply>) -> bool {
    &&& history[45] matches Reply::Objects(names)
        && listing_ok(ListingRule::SomeSince(42), history.take(45), names@)
    &&& history[46] == Reply::Number(13)
    &&& history[47] == Reply::Number(13)
    &&& accepted_through(history, 50, 53)
    &&& history[52] matches Reply::Number(m)
        && (
            history[53] matches Reply::Number(n)
                && (history[54] matches Reply::Counts(a, b) && a >= m && b >= n)
        )
}

/// What [`run`] demands of the replies once the follower is back.
pub open spec fn rejoined_holds(history: Seq<Reply>) -> bool {
    &&& !turned_down(history[70])
    &&& history[61] matches Reply::Number(m) && (history[71] matches Reply::Number(n) && n == m + 3)
    &&& history[62] matches Reply::Number(m) && (history[72] matches Reply::Number(n) && n == m + 3)
    &&& history[56] matches Reply::Objects(before)
        && (history[73] matches Reply::Objects(names) && names@.len() <= before@.len())
    &&& history[57] matches Reply::Objects(before)
        && (history[74] matches Reply::Objects(names) && names@.len() <= before@.len())
    &&& history[58] matches Reply::Objects(before)
        && (history[75] matches Reply::Objects(names) && names@.len() <= before@.len())
    &&& history[59] matches Reply::Objects(before)
        && (history[76] matches Reply::Objects(names) && names@.len() <= before@.len())
}

/// What [`run`] demands of the replies, one for each of its steps.
pub open spec fn run_holds(history: Seq<Reply>) -> bool {
    &&& history.len() == 77
    &&& cut_off_holds(history)
    &&& accepted_through(history, 21, 40)
    &&& accepted_through(history, 42, 44)
    &&& caught_up_holds(history)
    &&& accepted_through(history, 56, 68)
    &&& rejoined_holds(history)
}

#[verifier::rlimit(20)]
proof fn lemma_cut_off(history: Seq<Reply>)
    requires
        history.len() == 77,
    ensures
        met_before(run_steps(), history, 20) <==> cut_off_holds(history),
{
    broadcast use group_judgement;

    reveal_with_fuel(met_before, 21);
}

#[verifier::rlimit(20)]
proof fn lemma_written_alone(history: Seq<Reply>)
    requires
        history.len() == 77,
    ensures
        met_before(run_steps(), history, 31) <==> met_before(run_steps(), history, 20)
            && accepted_through(history, 21, 30),
{
    broadcast use group_judgement;

    reveal_with_fuel(met_before, 11);
}

#[verifier::rlimit(20)]
proof fn lemma_written_further(history: Seq<Reply>)
    requires
        history.len() == 77,
    ensures
        met_before(run_steps(), history, 45) <==> met_before(run_steps(), history, 31)
            && accepted_through(history, 31, 40) && accepted_through(history, 42, 44),
{
    broadcast use group_judgement;

    reveal_with_fuel(met_before, 14);
}

#[verifier::rlimit(20)]
proof fn lemma_caught_up(history: Seq<Reply>)
    requires
        history.len() == 77,
    ensures
        met_before(run_steps(), history, 56) <==> met_before(run_steps(), history, 45)
            && caught_up_holds(history),
{
    broadcast use group_judgement;

    reveal_with_fuel(met_before, 11);
}

#[verifier::rlimit(20)]
proof fn lemma_written_on(history: Seq<Reply>)
    requires
        history.len() == 77,
    ensures
        met_before(run_steps(), history, 70) <==> met_before(run_steps(), history, 56)
            && accepted_through(history, 56, 68),
{
    broadcast use group_judgement;

    reveal_with_fuel(met_before, 14);
}

#[verifier::rlimit(20)]
proof fn lemma_rejoined(history: Seq<Reply>)
    requires
        history.len() == 77,
    ensures
        met_before(run_steps(), history, 77) <==> met_before(run_steps(), history, 70)
            && rejoined_holds(history),
{
    broadcast use group_judgement;

    reveal_with_fuel(met_before, 7);
}

/// [`run`] passes exactly on the replies that it demands.
pub proof fn run_passes(history: Seq<Reply>)
    ensures
        passes(run_steps(), history) <==> run_holds(history),
{
    let steps = run_steps();
    passing_is_step_by_step(steps, history);
    assert(steps.len() == 77);
    if history.len() == 77 {
        lemma_cut_off(history);
        lemma_written_alone(history);
        lemma_written_further(history);
        lemma_caught_up(history);
        lemma_written_on(history);
        lemma_rejoined(history);
    }
}

} // verus!
