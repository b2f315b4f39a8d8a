//! A node that starts again and finds an expired lease of the other node does not take over: it
//! follows.

use crate::bench::{Who, s3_typed};
use crate::expect::{Expect, LeaseRule, group_judgement, turned_down};
use crate::reply::Reply;
use crate::s3_common::{awaits_events, converges, event, node_a, node_b, pause, store};
use crate::script::{
    Action, Step, accepted_through, assertion, assertion_eq, met_before, must, note, passes,
    passing_is_step_by_step,
};
use vstd::prelude::*;

verus! {

/// The steps of [`run`].
pub open spec fn run_steps() -> Seq<Step> {
    seq![
        store(12100, Some("test-stale-lease")),
        node_a(
            12100,
            None,
            s3_typed(4),
        ),
        pause(500),
        node_b(
            12100,
            None,
            s3_typed(4),
        ),
        pause(3_000),
        must(Action::Connect(Who::A)),
        event(Who::A, 1),
        event(Who::A, 2),
        event(Who::A, 3),
        must(Action::Connect(Who::B)),
        converges(Who::B, 3, "Follower should have 3 events"),
        note(Action::Disconnect(Who::B)),
        note(Action::StopNode(Who::B)),
        pause(5_000),
        must(Action::ReadLease("cluster/lease.json")),
        assertion(
            Action::Recall(14),
            Expect::Lease(LeaseRule::ExpirySet),
            "self-heal should have produced a lease with expiry set",
        ),
        event(Who::A, 4),
        must(Action::RestartNode(Who::B)),
        pause(8_000),
        must(Action::ReadLease("cluster/lease.json")),
        assertion_eq(
            Action::Recall(19),
            Expect::Lease(LeaseRule::LeaderSame(14)),
            "leader_node_id should NOT have changed",
        ),
        assertion_eq(
            Action::Recall(19),
            Expect::Lease(LeaseRule::EpochSame(14)),
            "lease_epoch should NOT change while same leader holds the lease",
        ),
        event(Who::A, 5),
        event(Who::A, 6),
        awaits_events(Who::B, 5, 30_000),
    ]
}

/// A node that starts again and finds an expired lease of the other node does not take over: it
/// follows.
pub fn run() -> (r: Vec<Step>)
    ensures
        r@ == run_steps(),
{
    let steps: Vec<Step> = vec![
        store(12100, Some("test-stale-lease")),
        node_a(
            12100,
            None,
            s3_typed(4),
        ),
        pause(500),
        node_b(
            12100,
            None,
            s3_typed(4),
        ),
        pause(3_000),
        must(Action::Connect(Who::A)),
        event(Who::A, 1),
        event(Who::A, 2),
        event(Who::A, 3),
        must(Action::Connect(Who::B)),
        converges(Who::B, 3, "Follower should have 3 events"),
        note(Action::Disconnect(Who::B)),
        note(Action::StopNode(Who::B)),
        pause(5_000),
        must(Action::ReadLease("cluster/lease.json")),
        assertion(
            Action::Recall(14),
            Expect::Lease(LeaseRule::ExpirySet),
            "self-heal should have produced a lease with expiry set",
        ),
        event(Who::A, 4),
        must(Action::RestartNode(Who::B)),
        pause(8_000),
        must(Action::ReadLease("cluster/lease.json")),
        assertion_eq(
            Action::Recall(19),
            Expect::Lease(LeaseRule::LeaderSame(14)),
            "leader_node_id should NOT have changed",
        ),
        assertion_eq(
            Action::Recall(19),
            Expect::Lease(LeaseRule::EpochSame(14)),
            "lease_epoch should NOT change while same leader holds the lease",
        ),
        event(Who::A, 5),
        event(Who::A, 6),
        awaits_events(Who::B, 5, 30_000),
    ];
    assert(steps@ =~= run_steps());
    steps
}

/// What [`run`] demands of the replies, one for each of its steps.
pub open spec fn run_holds(history: Seq<Reply>) -> bool {
    &&& history.len() == 25
    &&& !turned_down(history[0])
    &&& !turned_down(history[1])
    &&& !turned_down(history[3])
    &&& accepted_through(history, 5, 9)
    &&& history[10] == Reply::Number(3)
    &&& !turned_down(history[14])
    &&& history[14] matches Reply::Lease(l) && l.expires_at_ms > 0
    &&& !turned_down(history[16])
    &&& !turned_down(history[17])
    &&& !turned_down(history[19])
    &&& history[14] matches Reply::Lease(e)
        && (history[19] matches Reply::Lease(l) && l.leader_node_id == e.leader_node_id)
    &&& history[14] matches Reply::Lease(e)
        && (history[19] matches Reply::Lease(l) && l.lease_epoch == e.lease_epoch)
    &&& !turned_down(history[22])
    &&& !turned_down(history[23])
    &&& history[24] matches Reply::Number(n) && n >= 5
}

/// [`run`] passes exactly on the replies that it demands.
#[verifier::rlimit(60)]
pub proof fn run_passes(history: Seq<Reply>)
    ensures
        passes(run_steps(), history) <==> run_holds(history),
{
    broadcast use group_judgement;

    let steps = run_steps();
    passing_is_step_by_step(steps, history);
    reveal_with_fuel(met_before, 26);
}

} // verus!
