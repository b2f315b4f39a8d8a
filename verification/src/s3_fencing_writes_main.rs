//! A follower turns writes down on every shard until it leads, also right after its leader's death,
//! and leads under a lease of its own.

use crate::bench::{Who, s3_typed};
use crate::expect::{Expect, LeaseRule, NumberRule, group_judgement, turned_down};
use crate::model::AggregateKey;
use crate::reply::Reply;
use crate::s3_common::{event_to, node_a, node_b, pause, refuses, store};
use crate::script::{
    Action, Step, accepted_through, assertion_eq, assertion_ne, met_before, must, note, passes,
    passing_is_step_by_step,
};
use vstd::prelude::*;

verus! {

/// The steps of [`run`].
pub open spec fn run_steps() -> Seq<Step> {
    seq![
        store(12300, Some("test-fencing-writes")),
        node_a(
            12300,
            None,
            s3_typed(4),
        ),
        pause(500),
        node_b(
            12300,
            None,
            s3_typed(4),
        ),
        pause(3_000),
        must(Action::Connect(Who::A)),
        event_to(Who::A, AggregateKey::new(1, 1, 1), 1),
        event_to(Who::A, AggregateKey::new(1, 2, 1), 1),
        event_to(Who::A, AggregateKey::new(1, 3, 1), 1),
        event_to(Who::A, AggregateKey::new(1, 4, 1), 1),
        must(Action::Connect(Who::B)),
        refuses(
            Who::B,
            AggregateKey::new(1, 1, 1),
            99,
            false,
            "Node B accepted writes on some shards but should be follower!",
        ),
        refuses(
            Who::B,
            AggregateKey::new(1, 2, 1),
            99,
            false,
            "Node B accepted writes on some shards but should be follower!",
        ),
        refuses(
            Who::B,
            AggregateKey::new(1, 3, 1),
            99,
            false,
            "Node B accepted writes on some shards but should be follower!",
        ),
        refuses(
            Who::B,
            AggregateKey::new(1, 4, 1),
            99,
            false,
            "Node B accepted writes on some shards but should be follower!",
        ),
        must(Action::ReadLease("cluster/lease.bin")),
        assertion_eq(
            Action::Recall(15),
            Expect::Lease(LeaseRule::IndexIs(1)),
            "Initial lease_index should be 1",
        ),
        note(Action::StopNode(Who::A)),
        refuses(
            Who::B,
            AggregateKey::new(1, 1, 1),
            2,
            false,
            "Node B accepted a write right after the leader's death but was still follower!",
        ),
        pause(5_000),
        event_to(Who::B, AggregateKey::new(1, 1, 1), 2),
        event_to(Who::B, AggregateKey::new(1, 1, 1), 3),
        must(Action::ReadLease("cluster/lease.bin")),
        assertion_eq(
            Action::Recall(22),
            Expect::Lease(LeaseRule::IndexAfter(15)),
            "lease_index should increment by 1 after failover",
        ),
        assertion_ne(
            Action::Recall(22),
            Expect::Lease(LeaseRule::LeaderOther(15)),
            "leader_node_id should change after failover",
        ),
        event_to(Who::B, AggregateKey::new(2, 1, 1), 1),
        event_to(Who::B, AggregateKey::new(2, 1, 1), 2),
        assertion_eq(
            Action::Count(Who::B, AggregateKey::new(2, 1, 1)),
            Expect::Number(NumberRule::Is(2)),
            "New term aggregate should have 2 events",
        ),
    ]
}

/// A follower turns writes down on every shard until it leads, also right after its leader's death,
/// and leads under a lease of its own.
pub fn run() -> (r: Vec<Step>)
    ensures
        r@ == run_steps(),
{
    let steps: Vec<Step> = vec![
        store(12300, Some("test-fencing-writes")),
        node_a(
            12300,
            None,
            s3_typed(4),
        ),
        pause(500),
        node_b(
            12300,
            None,
            s3_typed(4),
        ),
        pause(3_000),
        must(Action::Connect(Who::A)),
        event_to(Who::A, AggregateKey::new(1, 1, 1), 1),
        event_to(Who::A, AggregateKey::new(1, 2, 1), 1),
        event_to(Who::A, AggregateKey::new(1, 3, 1), 1),
        event_to(Who::A, AggregateKey::new(1, 4, 1), 1),
        must(Action::Connect(Who::B)),
        refuses(
            Who::B,
            AggregateKey::new(1, 1, 1),
            99,
            false,
            "Node B accepted writes on some shards but should be follower!",
        ),
        refuses(
            Who::B,
            AggregateKey::new(1, 2, 1),
            99,
            false,
            "Node B accepted writes on some shards but should be follower!",
        ),
        refuses(
            Who::B,
            AggregateKey::new(1, 3, 1),
            99,
            false,
            "Node B accepted writes on some shards but should be follower!",
        ),
        refuses(
            Who::B,
            AggregateKey::new(1, 4, 1),
            99,
            false,
            "Node B accepted writes on some shards but should be follower!",
        ),
        must(Action::ReadLease("cluster/lease.bin")),
        assertion_eq(
            Action::Recall(15),
            Expect::Lease(LeaseRule::IndexIs(1)),
            "Initial lease_index should be 1",
        ),
        note(Action::StopNode(Who::A)),
        refuses(
            Who::B,
            AggregateKey::new(1, 1, 1),
            2,
            false,
            "Node B accepted a write right after the leader's death but was still follower!",
        ),
        pause(5_000),
        event_to(Who::B, AggregateKey::new(1, 1, 1), 2),
        event_to(Who::B, AggregateKey::new(1, 1, 1), 3),
        must(Action::ReadLease("cluster/lease.bin")),
        assertion_eq(
            Action::Recall(22),
            Expect::Lease(LeaseRule::IndexAfter(15)),
            "lease_index should increment by 1 after failover",
        ),
        assertion_ne(
            Action::Recall(22),
            Expect::Lease(LeaseRule::LeaderOther(15)),
            "leader_node_id should change after failover",
        ),
        event_to(Who::B, AggregateKey::new(2, 1, 1), 1),
        event_to(Who::B, AggregateKey::new(2, 1, 1), 2),
        assertion_eq(
            Action::Count(Who::B, AggregateKey::new(2, 1, 1)),
            Expect::Number(NumberRule::Is(2)),
            "New term aggregate should have 2 events",
        ),
    ];
    assert(steps@ =~= run_steps());
    steps
}

/// What [`run`] demands of the replies, one for each of its steps.
pub open spec fn run_holds(history: Seq<Reply>) -> bool {
    &&& history.len() == 28
    &&& !turned_down(history[0])
    &&& !turned_down(history[1])
    &&& !turned_down(history[3])
    &&& accepted_through(history, 5, 10)
    &&& turned_down(history[11])
    &&& turned_down(history[12])
    &&& turned_down(history[13])
    &&& turned_down(history[14])
    &&& !turned_down(history[15])
    &&& history[15] matches Reply::Lease(l) && l.lease_index == 1
    &&& turned_down(history[18])
    &&& accepted_through(history, 20, 22)
    &&& history[15] matches Reply::Lease(e)
        && (history[22] matches Reply::Lease(l) && l.lease_index == e.lease_index + 1)
    &&& history[15] matches Reply::Lease(e)
        && (history[22] matches Reply::Lease(l) && l.leader_node_id != e.leader_node_id)
    &&& !turned_down(history[25])
    &&& !turned_down(history[26])
    &&& history[27] == Reply::Number(2)
}

/// [`run`] passes exactly on the replies that it demands.
#[verifier::rlimit(60)]
pub proof fn run_passes(history: Seq<Reply>)
    ensures
        passes(run_steps(), history) <==> run_holds(history),
{
    broadcast use group_judgement;

    let steps = run_steps();
    passing_is_step_by_step(steps, history);
    reveal_with_fuel(met_before, 29);
}

} // verus!
