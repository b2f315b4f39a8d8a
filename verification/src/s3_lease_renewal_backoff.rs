//! With its follower out of reach, the leader renews its lease at the pace of the lease, not of the
//! heartbeat: fifteen seconds show at most five times at which it was acquired, the one before the
//! follower went away among them.

use crate::bench::{Link, NodeConfig, Who, run_port, s3_typed};
use crate::expect::{Expect, group_judgement, turned_down};
use crate::reply::{Reply, changes};
use crate::s3_common::{event, node_a, node_b, pause, store};
use crate::script::{
    Action, Step, accepted_through, assertion, met_before, must, note, passes,
    passing_is_step_by_step,
};
use vstd::prelude::*;

verus! {

/// The steps of [`run`].
pub open spec fn run_steps() -> Seq<Step> {
    seq![
        store(13400, Some("test-lease-backoff")),
        node_a(
            13400,
            Some("leader"),
            NodeConfig {
                s3_skip_signature: None,
                ..s3_typed(1)
            },
        ),
        pause(500),
        must(
            Action::StartProxy {
                link: Link::Replication(Who::B),
                port: run_port(13400, 200),
                target: run_port(13400, 101),
            },
        ),
        node_b(
            13400,
            Some("follower"),
            NodeConfig {
                advertised_replication_address: Some(run_port(13400, 200)),
                s3_skip_signature: None,
                ..s3_typed(1)
            },
        ),
        pause(5_000),
        must(Action::Connect(Who::A)),
        event(Who::A, 1),
        must(Action::ReadLease("cluster/lease.json")),
        note(Action::Block(Link::Replication(Who::B))),
        assertion(
            Action::SampleLease { path: "cluster/lease.json", every_ms: 200, within_ms: 15_000 },
            Expect::RenewalsAtMost(8, 4),
            "S3 lease renewed {renewals} times in 15s (>4 allowed). Leader is hammering S3 at heartbeat rate instead of backing off. Expected ≤4 renewals with s3_lease_duration/3 backoff.",
        ),
    ]
}

/// With its follower out of reach, the leader renews its lease at the pace of the lease, not of the
/// heartbeat: fifteen seconds show at most five times at which it was acquired, the one before the
/// follower went away among them. So it is acquired anew at most four times.
pub fn run() -> (r: Vec<Step>)
    ensures
        r@ == run_steps(),
{
    let steps: Vec<Step> = vec![
        store(13400, Some("test-lease-backoff")),
        node_a(
            13400,
            Some("leader"),
            NodeConfig {
                s3_skip_signature: None,
                ..s3_typed(1)
            },
        ),
        pause(500),
        must(
            Action::StartProxy {
                link: Link::Replication(Who::B),
                port: run_port(13400, 200),
                target: run_port(13400, 101),
            },
        ),
        node_b(
            13400,
            Some("follower"),
            NodeConfig {
                advertised_replication_address: Some(run_port(13400, 200)),
                s3_skip_signature: None,
                ..s3_typed(1)
            },
        ),
        pause(5_000),
        must(Action::Connect(Who::A)),
        event(Who::A, 1),
        must(Action::ReadLease("cluster/lease.json")),
        note(Action::Block(Link::Replication(Who::B))),
        assertion(
            Action::SampleLease { path: "cluster/lease.json", every_ms: 200, within_ms: 15_000 },
            Expect::RenewalsAtMost(8, 4),
            "S3 lease renewed {renewals} times in 15s (>4 allowed). Leader is hammering S3 at heartbeat rate instead of backing off. Expected ≤4 renewals with s3_lease_duration/3 backoff.",
        ),
    ];
    assert(steps@ =~= run_steps());
    steps
}

/// What [`run`] demands of the replies, one for each of its steps.
pub open spec fn run_holds(history: Seq<Reply>) -> bool {
    &&& history.len() == 11
    &&& !turned_down(history[0])
    &&& !turned_down(history[1])
    &&& !turned_down(history[3])
    &&& !turned_down(history[4])
    &&& accepted_through(history, 6, 8)
    &&& history[8] matches Reply::Lease(l)
        && (history[10] matches Reply::Samples(samples) && changes(l.acquired_at_ms, samples@) <= 4)
}

/// [`run`] passes exactly on the replies that it demands.
pub proof fn run_passes(history: Seq<Reply>)
    ensures
        passes(run_steps(), history) <==> run_holds(history),
{
    broadcast use group_judgement;

    let steps = run_steps();
    passing_is_step_by_step(steps, history);
    reveal_with_fuel(met_before, 12);
}

} // verus!
