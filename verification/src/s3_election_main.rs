//! Of two nodes that start together one is elected; what it is given reaches the other on every
//! shard, and the object store holds nothing but the lease and the membership.

use crate::bench::{Who, s3_cluster};
use crate::expect::{Expect, LeaseRule, ListingRule, NumberRule, group_judgement, turned_down};
use crate::model::{AggregateKey, numbered_event};
use crate::reply::Reply;
use crate::s3_common::{event_to, node_a, node_b, pause, store};
use crate::script::{
    Action, Prefix, Step, accepted_through, assertion, assertion_eq, assertion_ne, met_before, must,
    passes, passing_is_step_by_step,
};
use vstd::prelude::*;

verus! {

/// The steps of [`run`].
pub open spec fn run_steps() -> Seq<Step> {
    seq![
        store(11300, Some("test-election")),
        node_a(
            11300,
            Some("node-a"),
            s3_cluster(4),
        ),
        node_b(
            11300,
            Some("node-b"),
            s3_cluster(4),
        ),
        pause(8_000),
        assertion(
            Action::ProbeLeaders,
            Expect::OneWriter,
            "Exactly one node should be leader — S3 CreateOnly prevents split-brain (a={a}, b={b})",
        ),
        must(Action::Connect(Who::Leader)),
        event_to(Who::Leader, AggregateKey::new(1, 1, 1), 1),
        event_to(Who::Leader, AggregateKey::new(1, 2, 1), 1),
        event_to(Who::Leader, AggregateKey::new(1, 1, 1), 2),
        event_to(Who::Leader, AggregateKey::new(1, 2, 1), 2),
        event_to(Who::Leader, AggregateKey::new(1, 1, 1), 3),
        event_to(Who::Leader, AggregateKey::new(1, 2, 1), 3),
        must(Action::Connect(Who::Follower)),
        assertion(
            Action::Write(Who::Follower, numbered_event(AggregateKey::new(1, 1, 1), 99, false)),
            Expect::Rejected,
            "Follower must reject writes",
        ),
        pause(2_000),
        assertion_eq(
            Action::Count(Who::Leader, AggregateKey::new(1, 1, 1)),
            Expect::Number(NumberRule::Is(3)),
            "Leader shard 1 should have 3 events",
        ),
        assertion_eq(
            Action::Count(Who::Leader, AggregateKey::new(1, 2, 1)),
            Expect::Number(NumberRule::Is(3)),
            "Leader shard 2 should have 3 events",
        ),
        assertion_eq(
            Action::Count(Who::Follower, AggregateKey::new(1, 1, 1)),
            Expect::Number(NumberRule::Is(3)),
            "Follower shard 1 should have 3 events via TCP replication",
        ),
        assertion_eq(
            Action::Count(Who::Follower, AggregateKey::new(1, 2, 1)),
            Expect::Number(NumberRule::Is(3)),
            "Follower shard 2 should have 3 events via TCP replication",
        ),
        must(Action::ReadLease("cluster/lease.bin")),
        assertion(
            Action::Recall(19),
            Expect::Lease(LeaseRule::IndexAtLeast(1)),
            "Election should produce lease_index >= 1 (got {index})",
        ),
        assertion_ne(
            Action::Recall(19),
            Expect::Lease(LeaseRule::LeaderSet),
            "leader_node_id must be set",
        ),
        assertion(
            Action::ReadMembership("cluster/membership.bin"),
            Expect::Flag(true),
            "Both nodes should be registered in membership",
        ),
        assertion(
            Action::ListObjects(Prefix::Fallback),
            Expect::Listing(ListingRule::Empty),
            "No S3 fallback objects should exist — follower is active, TCP replication only. Found: {reply}",
        ),
    ]
}

/// Of two nodes that start together one is elected; what it is given reaches the other on every
/// shard, and the object store holds nothing but the lease and the membership.
pub fn run() -> (r: Vec<Step>)
    ensures
        r@ == run_steps(),
{
    let steps: Vec<Step> = vec![
        store(11300, Some("test-election")),
        node_a(
            11300,
            Some("node-a"),
            s3_cluster(4),
        ),
        node_b(
            11300,
            Some("node-b"),
            s3_cluster(4),
        ),
        pause(8_000),
        assertion(
            Action::ProbeLeaders,
            Expect::OneWriter,
            "Exactly one node should be leader — S3 CreateOnly prevents split-brain (a={a}, b={b})",
        ),
        must(Action::Connect(Who::Leader)),
        event_to(Who::Leader, AggregateKey::new(1, 1, 1), 1),
        event_to(Who::Leader, AggregateKey::new(1, 2, 1), 1),
        event_to(Who::Leader, AggregateKey::new(1, 1, 1), 2),
        event_to(Who::Leader, AggregateKey::new(1, 2, 1), 2),
        event_to(Who::Leader, AggregateKey::new(1, 1, 1), 3),
        event_to(Who::Leader, AggregateKey::new(1, 2, 1), 3),
        must(Action::Connect(Who::Follower)),
        assertion(
            Action::Write(Who::Follower, numbered_event(AggregateKey::new(1, 1, 1), 99, false)),
            Expect::Rejected,
            "Follower must reject writes",
        ),
        pause(2_000),
        assertion_eq(
            Action::Count(Who::Leader, AggregateKey::new(1, 1, 1)),
            Expect::Number(NumberRule::Is(3)),
            "Leader shard 1 should have 3 events",
        ),
        assertion_eq(
            Action::Count(Who::Leader, AggregateKey::new(1, 2, 1)),
            Expect::Number(NumberRule::Is(3)),
            "Leader shard 2 should have 3 events",
        ),
        assertion_eq(
            Action::Count(Who::Follower, AggregateKey::new(1, 1, 1)),
            Expect::Number(NumberRule::Is(3)),
            "Follower shard 1 should have 3 events via TCP replication",
        ),
        assertion_eq(
            Action::Count(Who::Follower, AggregateKey::new(1, 2, 1)),
            Expect::Number(NumberRule::Is(3)),
            "Follower shard 2 should have 3 events via TCP replication",
        ),
        must(Action::ReadLease("cluster/lease.bin")),
        assertion(
            Action::Recall(19),
            Expect::Lease(LeaseRule::IndexAtLeast(1)),
            "Election should produce lease_index >= 1 (got {index})",
        ),
        assertion_ne(
            Action::Recall(19),
            Expect::Lease(LeaseRule::LeaderSet),
            "leader_node_id must be set",
        ),
        assertion(
            Action::ReadMembership("cluster/membership.bin"),
            Expect::Flag(true),
            "Both nodes should be registered in membership",
        ),
        assertion(
            Action::ListObjects(Prefix::Fallback),
            Expect::Listing(ListingRule::Empty),
            "No S3 fallback objects should exist — follower is active, TCP replication only. Found: {reply}",
        ),
    ];
    assert(steps@ =~= run_steps());
    steps
}

/// What [`run`] demands of the replies, one for each of its steps.
pub open spec fn run_holds(history: Seq<Reply>) -> bool {
    &&& history.len() == 24
    &&& accepted_through(history, 0, 2)
    &&& history[4] matches Reply::Leaders(a, b) && a != b
    &&& accepted_through(history, 5, 12)
    &&& turned_down(history[13])
    &&& history[15] == Reply::Number(3)
    &&& history[16] == Reply::Number(3)
    &&& history[17] == Reply::Number(3)
    &&& history[18] == Reply::Number(3)
    &&& !turned_down(history[19])
    &&& history[19] matches Reply::Lease(l) && l.lease_index >= 1
    &&& history[19] matches Reply::Lease(l) && l.leader_node_id != 0
    &&& history[22] == Reply::Flag(true)
    &&& history[23] matches Reply::Objects(names) && names@.len() == 0
}

/// [`run`] passes exactly on the replies that it demands.
#[verifier::rlimit(60)]
pub proof fn run_passes(history: Seq<Reply>)
    ensures
        passes(run_steps(), history) <==> run_holds(history),
{
    broadcast use group_judgement;

    let steps = run_steps();
    passing_is_step_by_step(steps, history);
    reveal_with_fuel(met_before, 25);
}

} // verus!
