//! A follower whose missing entries went to the object store catches up over the link when the
//! store is gone.

use crate::bench::{Link, NodeConfig, Who, run_port, s3_cluster};
use crate::expect::{Expect, group_judgement, turned_down};
use crate::model::numbered_event;
use crate::reply::Reply;
use crate::s3_common::{awaits_events, converges, main_key, node_a, node_b, pause, store};
use crate::script::{
    Action, Step, accepted_through, met_before, must, note, passes, passing_is_step_by_step,
    try_until,
};
use vstd::prelude::*;

verus! {

/// The steps of [`run`].
pub open spec fn run_steps() -> Seq<Step> {
    seq![
        store(10800, Some("test-failback")),
        node_a(
            10800,
            Some("leader"),
            s3_cluster(4),
        ),
        pause(500),
        must(
            Action::StartProxy {
                link: Link::Replication(Who::B),
                port: run_port(10800, 200),
                target: run_port(10800, 101),
            },
        ),
        node_b(
            10800,
            Some("follower"),
            NodeConfig {
                client_port: Some(run_port(10800, 100)),
                advertised_replication_address: Some(run_port(10800, 200)),
                ..s3_cluster(4)
            },
        ),
        pause(8_000),
        must(Action::Connect(Who::A)),
        try_until(
            Action::WriteRenewing(Who::A, numbered_event(main_key(), 1, true)),
            Expect::Accepted,
            30_000,
            500,
            "write 1 never acked: {reply}",
        ),
        try_until(
            Action::WriteRenewing(Who::A, numbered_event(main_key(), 2, false)),
            Expect::Accepted,
            30_000,
            500,
            "write 2 never acked: {reply}",
        ),
        try_until(
            Action::WriteRenewing(Who::A, numbered_event(main_key(), 3, false)),
            Expect::Accepted,
            30_000,
            500,
            "write 3 never acked: {reply}",
        ),
        must(Action::Connect(Who::B)),
        converges(Who::B, 3, "follower should have 3 events after TCP replication"),
        note(Action::Disconnect(Who::B)),
        note(Action::Block(Link::Replication(Who::B))),
        pause(3_000),
        try_until(
            Action::WriteRenewing(Who::A, numbered_event(main_key(), 4, false)),
            Expect::Accepted,
            30_000,
            500,
            "write 4 never acked: {reply}",
        ),
        try_until(
            Action::WriteRenewing(Who::A, numbered_event(main_key(), 5, false)),
            Expect::Accepted,
            30_000,
            500,
            "write 5 never acked: {reply}",
        ),
        try_until(
            Action::WriteRenewing(Who::A, numbered_event(main_key(), 6, false)),
            Expect::Accepted,
            30_000,
            500,
            "write 6 never acked: {reply}",
        ),
        try_until(
            Action::WriteRenewing(Who::A, numbered_event(main_key(), 7, false)),
            Expect::Accepted,
            30_000,
            500,
            "write 7 never acked: {reply}",
        ),
        try_until(
            Action::WriteRenewing(Who::A, numbered_event(main_key(), 8, false)),
            Expect::Accepted,
            30_000,
            500,
            "write 8 never acked: {reply}",
        ),
        must(Action::StopStore),
        note(Action::Unblock(Link::Replication(Who::B))),
        awaits_events(Who::B, 8, 90_000),
        try_until(
            Action::WriteRenewing(Who::A, numbered_event(main_key(), 9, false)),
            Expect::Accepted,
            30_000,
            500,
            "write 9 never acked: {reply}",
        ),
        try_until(
            Action::WriteRenewing(Who::A, numbered_event(main_key(), 10, false)),
            Expect::Accepted,
            30_000,
            500,
            "write 10 never acked: {reply}",
        ),
        awaits_events(Who::B, 10, 30_000),
    ]
}

/// A follower whose missing entries went to the object store catches up over the link when the
/// store is gone. A write of the leader that fails is tried again over a new connection for half a
/// minute.
pub fn run() -> (r: Vec<Step>)
    ensures
        r@ == run_steps(),
{
    let steps: Vec<Step> = vec![
        store(10800, Some("test-failback")),
        node_a(
            10800,
            Some("leader"),
            s3_cluster(4),
        ),
        pause(500),
        must(
            Action::StartProxy {
                link: Link::Replication(Who::B),
                port: run_port(10800, 200),
                target: run_port(10800, 101),
            },
        ),
        node_b(
            10800,
            Some("follower"),
            NodeConfig {
                client_port: Some(run_port(10800, 100)),
                advertised_replication_address: Some(run_port(10800, 200)),
                ..s3_cluster(4)
            },
        ),
        pause(8_000),
        must(Action::Connect(Who::A)),
        try_until(
            Action::WriteRenewing(Who::A, numbered_event(main_key(), 1, true)),
            Expect::Accepted,
            30_000,
            500,
            "write 1 never acked: {reply}",
        ),
        try_until(
            Action::WriteRenewing(Who::A, numbered_event(main_key(), 2, false)),
            Expect::Accepted,
            30_000,
            500,
            "write 2 never acked: {reply}",
        ),
        try_until(
            Action::WriteRenewing(Who::A, numbered_event(main_key(), 3, false)),
            Expect::Accepted,
            30_000,
            500,
            "write 3 never acked: {reply}",
        ),
        must(Action::Connect(Who::B)),
        converges(Who::B, 3, "follower should have 3 events after TCP replication"),
        note(Action::Disconnect(Who::B)),
        note(Action::Block(Link::Replication(Who::B))),
        pause(3_000),
        try_until(
            Action::WriteRenewing(Who::A, numbered_event(main_key(), 4, false)),
            Expect::Accepted,
            30_000,
            500,
            "write 4 never acked: {reply}",
        ),
        try_until(
            Action::WriteRenewing(Who::A, numbered_event(main_key(), 5, false)),
            Expect::Accepted,
            30_000,
            500,
            "write 5 never acked: {reply}",
        ),
        try_until(
            Action::WriteRenewing(Who::A, numbered_event(main_key(), 6, false)),
            Expect::Accepted,
            30_000,
            500,
            "write 6 never acked: {reply}",
        ),
        try_until(
            Action::WriteRenewing(Who::A, numbered_event(main_key(), 7, false)),
            Expect::Accepted,
            30_000,
            500,
            "write 7 never acked: {reply}",
        ),
        try_until(
            Action::WriteRenewing(Who::A, numbered_event(main_key(), 8, false)),
            Expect::Accepted,
            30_000,
            500,
            "write 8 never acked: {reply}",
        ),
        must(Action::StopStore),
        note(Action::Unblock(Link::Replication(Who::B))),
        awaits_events(Who::B, 8, 90_000),
        try_until(
            Action::WriteRenewing(Who::A, numbered_event(main_key(), 9, false)),
            Expect::Accepted,
            30_000,
            500,
            "write 9 never acked: {reply}",
        ),
        try_until(
            Action::WriteRenewing(Who::A, numbered_event(main_key(), 10, false)),
            Expect::Accepted,
            30_000,
            500,
            "write 10 never acked: {reply}",
        ),
        awaits_events(Who::B, 10, 30_000),
    ];
    assert(steps@ =~= run_steps());
    steps
}

/// What [`run`] demands of the replies, one for each of its steps.
pub open spec fn run_holds(history: Seq<Reply>) -> bool {
    &&& history.len() == 26
    &&& !turned_down(history[0])
    &&& !turned_down(history[1])
    &&& !turned_down(history[3])
    &&& !turned_down(history[4])
    &&& accepted_through(history, 6, 10)
    &&& history[11] == Reply::Number(3)
    &&& accepted_through(history, 15, 20)
    &&& history[22] matches Reply::Number(n) && n >= 8
    &&& !turned_down(history[23])
    &&& !turned_down(history[24])
    &&& history[25] matches Reply::Number(n) && n >= 10
}

/// [`run`] passes exactly on the replies that it demands.
#[verifier::rlimit(60)]
pub proof fn run_passes(history: Seq<Reply>)
    ensures
        passes(run_steps(), history) <==> run_holds(history),
{
    broadcast use group_judgement;

    let steps = run_steps();
    passing_is_step_by_step(steps, history);
    reveal_with_fuel(met_before, 27);
}

} // verus!
