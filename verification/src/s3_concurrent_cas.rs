//! Under a partition the epoch of the lease never goes back, and when it heals exactly one node
//! accepts writes.

use crate::bench::{Link, NodeConfig, Who, run_port, s3_typed};
use crate::expect::{Expect, LeaseRule, flag_in, group_judgement, turned_down};
use crate::model::{AggregateKey, numbered_event};
use crate::reply::Reply;
use crate::s3_common::{converges, event, node_a, node_b, pause, store};
use crate::script::{
    Action, Step, accepted_through, assertion, assertion_ne, keep_asserting, met_before, must, note,
    passes, passing_is_step_by_step,
};
use vstd::prelude::*;

verus! {

/// The steps of [`run`].
pub open spec fn run_steps() -> Seq<Step> {
    seq![
        store(13700, Some("test-concurrent-cas")),
        node_a(
            13700,
            Some("leader"),
            NodeConfig {
                client_port: Some(run_port(13700, 0)),
                ..s3_typed(4)
            },
        ),
        pause(500),
        must(
            Action::StartProxy {
                link: Link::Replication(Who::B),
                port: run_port(13700, 200),
                target: run_port(13700, 101),
            },
        ),
        node_b(
            13700,
            Some("follower"),
            NodeConfig {
                client_port: Some(run_port(13700, 100)),
                advertised_replication_address: Some(run_port(13700, 200)),
                ..s3_typed(4)
            },
        ),
        pause(5_000),
        must(Action::Connect(Who::A)),
        must(Action::Connect(Who::B)),
        event(Who::A, 1),
        event(Who::A, 2),
        event(Who::A, 3),
        converges(Who::B, 3, "Follower should have 3 events (replication through proxy)"),
        assertion(
            Action::Write(Who::A, numbered_event(AggregateKey::new(2, 1, 1), 1, true)),
            Expect::Accepted,
            "Leader should accept writes before partition",
        ),
        assertion(
            Action::Write(Who::B, numbered_event(AggregateKey::new(2, 1, 1), 2, true)),
            Expect::Rejected,
            "Follower should reject writes before partition",
        ),
        must(Action::ReadLease("cluster/lease.json")),
        note(Action::Block(Link::Replication(Who::B))),
        pause(8_000),
        must(Action::ReadLease("cluster/lease.json")),
        assertion(
            Action::Recall(17),
            Expect::Lease(LeaseRule::EpochNotBelow(14)),
            "lease_epoch should not regress after S3 races: was {was_epoch}, now {epoch}",
        ),
        assertion(
            Action::Recall(17),
            Expect::Lease(LeaseRule::EpochWithin(14, 10)),
            "lease_epoch should not have jumped unreasonably: was {was_epoch}, now {epoch}",
        ),
        note(Action::Unblock(Link::Replication(Who::B))),
        pause(500),
        keep_asserting(
            Action::ProbeBoth(4, 5),
            Expect::OneWriter,
            20_000,
            500,
            "Cluster did not reconverge to exactly one leader within 20s",
        ),
        note(Action::Write(Who::A, numbered_event(AggregateKey::new(6, 1, 1), 1, true))),
        assertion_ne(
            Action::Write(Who::B, numbered_event(AggregateKey::new(7, 1, 1), 1, true)),
            Expect::FlagOther(23),
            "Both nodes have same write acceptance state. Expected exactly one leader.",
        ),
        must(Action::ReadLease("cluster/lease.json")),
        assertion(
            Action::Recall(25),
            Expect::Lease(LeaseRule::EpochNotBelow(17)),
            "Final lease_epoch should not decrease",
        ),
    ]
}

/// Under a partition the epoch of the lease never goes back, and when it heals exactly one node
/// accepts writes.
pub fn run() -> (r: Vec<Step>)
    ensures
        r@ == run_steps(),
{
    let steps: Vec<Step> = vec![
        store(13700, Some("test-concurrent-cas")),
        node_a(
            13700,
            Some("leader"),
            NodeConfig {
                client_port: Some(run_port(13700, 0)),
                ..s3_typed(4)
            },
        ),
        pause(500),
        must(
            Action::StartProxy {
                link: Link::Replication(Who::B),
                port: run_port(13700, 200),
                target: run_port(13700, 101),
            },
        ),
        node_b(
            13700,
            Some("follower"),
            NodeConfig {
                client_port: Some(run_port(13700, 100)),
                advertised_replication_address: Some(run_port(13700, 200)),
                ..s3_typed(4)
            },
        ),
        pause(5_000),
        must(Action::Connect(Who::A)),
        must(Action::Connect(Who::B)),
        event(Who::A, 1),
        event(Who::A, 2),
        event(Who::A, 3),
        converges(Who::B, 3, "Follower should have 3 events (replication through proxy)"),
        assertion(
            Action::Write(Who::A, numbered_event(AggregateKey::new(2, 1, 1), 1, true)),
            Expect::Accepted,
            "Leader should accept writes before partition",
        ),
        assertion(
            Action::Write(Who::B, numbered_event(AggregateKey::new(2, 1, 1), 2, true)),
            Expect::Rejected,
            "Follower should reject writes before partition",
        ),
        must(Action::ReadLease("cluster/lease.json")),
        note(Action::Block(Link::Replication(Who::B))),
        pause(8_000),
        must(Action::ReadLease("cluster/lease.json")),
        assertion(
            Action::Recall(17),
            Expect::Lease(LeaseRule::EpochNotBelow(14)),
            "lease_epoch should not regress after S3 races: was {was_epoch}, now {epoch}",
        ),
        assertion(
            Action::Recall(17),
            Expect::Lease(LeaseRule::EpochWithin(14, 10)),
            "lease_epoch should not have jumped unreasonably: was {was_epoch}, now {epoch}",
        ),
        note(Action::Unblock(Link::Replication(Who::B))),
        pause(500),
        keep_asserting(
            Action::ProbeBoth(4, 5),
            Expect::OneWriter,
            20_000,
            500,
            "Cluster did not reconverge to exactly one leader within 20s",
        ),
        note(Action::Write(Who::A, numbered_event(AggregateKey::new(6, 1, 1), 1, true))),
        assertion_ne(
            Action::Write(Who::B, numbered_event(AggregateKey::new(7, 1, 1), 1, true)),
            Expect::FlagOther(23),
            "Both nodes have same write acceptance state. Expected exactly one leader.",
        ),
        must(Action::ReadLease("cluster/lease.json")),
        assertion(
            Action::Recall(25),
            Expect::Lease(LeaseRule::EpochNotBelow(17)),
            "Final lease_epoch should not decrease",
        ),
    ];
    assert(steps@ =~= run_steps());
    steps
}

/// What [`run`] demands of the replies, one for each of its steps.
pub open spec fn run_holds(history: Seq<Reply>) -> bool {
    &&& history.len() == 27
    &&& !turned_down(history[0])
    &&& !turned_down(history[1])
    &&& !turned_down(history[3])
    &&& !turned_down(history[4])
    &&& accepted_through(history, 6, 10)
    &&& history[11] == Reply::Number(3)
    &&& !turned_down(history[12])
    &&& turned_down(history[13])
    &&& !turned_down(history[14])
    &&& !turned_down(history[17])
    &&& history[14] matches Reply::Lease(e)
        && (history[17] matches Reply::Lease(l) && l.lease_epoch >= e.lease_epoch)
    &&& history[14] matches Reply::Lease(e)
        && (history[17] matches Reply::Lease(l) && l.lease_epoch <= e.lease_epoch + 10)
    &&& history[22] matches Reply::Leaders(a, b) && a != b
    &&& flag_in(history[23]) is Some
        && flag_in(history[24]) is Some
        && flag_in(history[23]) != flag_in(history[24])
    &&& !turned_down(history[25])
    &&& history[17] matches Reply::Lease(e)
        && (history[25] matches Reply::Lease(l) && l.lease_epoch >= e.lease_epoch)
}

/// [`run`] passes exactly on the replies that it demands.
#[verifier::rlimit(60)]
pub proof fn run_passes(history: Seq<Reply>)
    ensures
        passes(run_steps(), history) <==> run_holds(history),
{
    broadcast use group_judgement;

    let steps = run_steps();
    passing_is_step_by_step(steps, history);
    reveal_with_fuel(met_before, 28);
}

} // verus!
