//! A pair of nodes: election, replication, reads from the follower, and what happens when the
//! leader dies.

use crate::bench::{Node, Who, cluster_config, named};
use crate::expect::{Expect, NumberRule, group_judgement, turned_down};
use crate::model::{AggregateKey, Payload, Sequence, Write, append};
use crate::reply::Reply;
use crate::script::{
    Action, OnFail, Patience, Step, Target, accepted_through, await_events, keep_trying, met_before,
    must, note, passes, passing_is_step_by_step, step,
};
use vstd::prelude::*;

verus! {

/// The event type that these scenarios write.
pub const TYPE: u64 = 100;

/// Events 1 to `hi` without a guard.
#[verifier::allow_in_spec]
pub fn events(key: AggregateKey, hi: u64, payload: Payload) -> Sequence
    returns
        (Sequence { key, lo: 1, hi, event_type_major: TYPE, payload, guarded: false }),
{
    Sequence { key, lo: 1, hi, event_type_major: TYPE, payload, guarded: false }
}

/// A first event that creates its aggregate.
#[verifier::allow_in_spec]
pub fn create(aggregate_id: u128, timestamp: u64) -> Write
    returns
        (Write {
            allow_create: true,
            ..append(AggregateKey::new(1, 1, aggregate_id), 1, TYPE, timestamp, Payload::Text("{}"))
        }),
{
    Write {
        allow_create: true,
        ..append(AggregateKey::new(1, 1, aggregate_id), 1, TYPE, timestamp, Payload::Text("{}"))
    }
}

/// The start of one node of a pair, which tells the other its replication port.
#[verifier::allow_in_spec]
pub fn start(node: Node, name: &'static str, label: &'static str, subfolder: &'static str) -> Step
    returns
        (must(
            Action::StartNode {
                node,
                port: named(name, 0),
                label: Some(label),
                config: cluster_config(subfolder, named(name, 1)),
            },
        )),
{
    must(
        Action::StartNode {
            node,
            port: named(name, 0),
            label: Some(label),
            config: cluster_config(subfolder, named(name, 1)),
        },
    )
}

/// The steps of [`cluster_elects_single_leader`].
pub open spec fn cluster_elects_single_leader_steps() -> Seq<Step> {
    seq![
        must(
            Action::StartStore { port: named("p6_elect_minio", 0), bucket: Some("celeriant-test") },
        ),
        start(Node::A, "p6_elect_a", "node-a", "p6-elect"),
        start(Node::B, "p6_elect_b", "node-b", "p6-elect"),
        Step {
            action: Action::ProbeLeaders,
            expect: Expect::SingleLeader,
            patience: Patience::Until { within_ms: 40_000, every_ms: 1_000 },
            on_fail: OnFail::Errors(
                "no single leader emerged within 40s (both nodes rejected writes)",
                "split-brain: both nodes accept writes (two leaders)",
            ),
        },
    ]
}

/// A pair elects exactly one leader. Two that accept writes are a split brain at once; none that
/// does may be a lease on its way from one to the other, and is waited for.
pub fn cluster_elects_single_leader() -> (r: Vec<Step>)
    ensures
        r@ == cluster_elects_single_leader_steps(),
{
    let steps: Vec<Step> = vec![
        must(
            Action::StartStore { port: named("p6_elect_minio", 0), bucket: Some("celeriant-test") },
        ),
        start(Node::A, "p6_elect_a", "node-a", "p6-elect"),
        start(Node::B, "p6_elect_b", "node-b", "p6-elect"),
        Step {
            action: Action::ProbeLeaders,
            expect: Expect::SingleLeader,
            patience: Patience::Until { within_ms: 40_000, every_ms: 1_000 },
            on_fail: OnFail::Errors(
                "no single leader emerged within 40s (both nodes rejected writes)",
                "split-brain: both nodes accept writes (two leaders)",
            ),
        },
    ];
    assert(steps@ =~= cluster_elects_single_leader_steps());
    steps
}

/// What [`cluster_elects_single_leader`] demands of the replies, one for each of its steps.
pub open spec fn cluster_elects_single_leader_holds(history: Seq<Reply>) -> bool {
    &&& history.len() == 4
    &&& accepted_through(history, 0, 2)
    &&& history[3] matches Reply::Leaders(a, b) && a != b
}

/// [`cluster_elects_single_leader`] passes exactly on the replies that it demands.
pub proof fn cluster_elects_single_leader_passes(history: Seq<Reply>)
    ensures
        passes(cluster_elects_single_leader_steps(), history)
            <==> cluster_elects_single_leader_holds(history),
{
    broadcast use group_judgement;

    let steps = cluster_elects_single_leader_steps();
    passing_is_step_by_step(steps, history);
    reveal_with_fuel(met_before, 5);
}

/// The steps of [`cluster_replicates_and_rejects_follower_write`].
pub open spec fn cluster_replicates_and_rejects_follower_write_steps() -> Seq<Step> {
    seq![
        must(
            Action::StartStore { port: named("p6_repl_minio", 0), bucket: Some("celeriant-test") },
        ),
        start(Node::A, "p6_repl_a", "node-a", "p6-repl"),
        start(Node::B, "p6_repl_b", "node-b", "p6-repl"),
        note(Action::Sleep(12_000)),
        keep_trying(
            Action::FindLeader,
            Expect::LeaderFound,
            30_000,
            1_000,
            "no leader elected within timeout",
        ),
        must(
            Action::WriteSequence(
                Who::Leader,
                events(AggregateKey::new(1, 1, 6001), 5, Payload::Number),
            ),
        ),
        step(
            Action::WriteFresh(Who::Follower, create(6002, 1000)),
            Expect::NotLeader,
            "follower accepted a write or wrong error: {reply}",
        ),
        step(
            Action::AwaitCount(
                Who::Follower,
                AggregateKey::new(1, 1, 6001),
                Target::Events(5),
                30_000,
            ),
            Expect::Number(NumberRule::Is(5)),
            "follower has {got} events, expected 5",
        ),
    ]
}

/// What the leader acknowledges reaches the follower, and the follower refuses writes of its own.
pub fn cluster_replicates_and_rejects_follower_write() -> (r: Vec<Step>)
    ensures
        r@ == cluster_replicates_and_rejects_follower_write_steps(),
{
    let steps: Vec<Step> = vec![
        must(
            Action::StartStore { port: named("p6_repl_minio", 0), bucket: Some("celeriant-test") },
        ),
        start(Node::A, "p6_repl_a", "node-a", "p6-repl"),
        start(Node::B, "p6_repl_b", "node-b", "p6-repl"),
        note(Action::Sleep(12_000)),
        keep_trying(
            Action::FindLeader,
            Expect::LeaderFound,
            30_000,
            1_000,
            "no leader elected within timeout",
        ),
        must(
            Action::WriteSequence(
                Who::Leader,
                events(AggregateKey::new(1, 1, 6001), 5, Payload::Number),
            ),
        ),
        step(
            Action::WriteFresh(Who::Follower, create(6002, 1000)),
            Expect::NotLeader,
            "follower accepted a write or wrong error: {reply}",
        ),
        step(
            Action::AwaitCount(
                Who::Follower,
                AggregateKey::new(1, 1, 6001),
                Target::Events(5),
                30_000,
            ),
            Expect::Number(NumberRule::Is(5)),
            "follower has {got} events, expected 5",
        ),
    ];
    assert(steps@ =~= cluster_replicates_and_rejects_follower_write_steps());
    steps
}

/// What [`cluster_replicates_and_rejects_follower_write`] demands of the replies, one for each of
/// its steps.
pub open spec fn cluster_replicates_and_rejects_follower_write_holds(history: Seq<Reply>) -> bool {
    &&& history.len() == 8
    &&& accepted_through(history, 0, 2)
    &&& history[4] matches Reply::Leaders(a, b) && (a || b)
    &&& !turned_down(history[5])
    &&& history[6] is Redirected || (history[6] matches Reply::Refused(r) && r is NotLeader)
    &&& history[7] == Reply::Number(5)
}

/// [`cluster_replicates_and_rejects_follower_write`] passes exactly on the replies that it demands.
pub proof fn cluster_replicates_and_rejects_follower_write_passes(history: Seq<Reply>)
    ensures
        passes(cluster_replicates_and_rejects_follower_write_steps(), history)
            <==> cluster_replicates_and_rejects_follower_write_holds(history),
{
    broadcast use group_judgement;

    let steps = cluster_replicates_and_rejects_follower_write_steps();
    passing_is_step_by_step(steps, history);
    reveal_with_fuel(met_before, 9);
}

/// The steps of [`follower_read_converges`].
pub open spec fn follower_read_converges_steps() -> Seq<Step> {
    seq![
        must(
            Action::StartStore { port: named("p6_conv_minio", 0), bucket: Some("celeriant-test") },
        ),
        start(Node::A, "p6_conv_a", "node-a", "p6-conv"),
        start(Node::B, "p6_conv_b", "node-b", "p6-conv"),
        note(Action::Sleep(12_000)),
        keep_trying(
            Action::FindLeader,
            Expect::LeaderFound,
            30_000,
            1_000,
            "no leader elected within timeout",
        ),
        must(
            Action::WriteSequence(
                Who::Leader,
                events(AggregateKey::new(1, 1, 6003), 12, Payload::Text("{}")),
            ),
        ),
        step(
            Action::AwaitCount(
                Who::Follower,
                AggregateKey::new(1, 1, 6003),
                Target::Events(12),
                30_000,
            ),
            Expect::Number(NumberRule::Is(12)),
            "follower converged to {got}, expected 12",
        ),
    ]
}

/// A follower may lag, and comes to hold what the leader holds.
pub fn follower_read_converges() -> (r: Vec<Step>)
    ensures
        r@ == follower_read_converges_steps(),
{
    let steps: Vec<Step> = vec![
        must(
            Action::StartStore { port: named("p6_conv_minio", 0), bucket: Some("celeriant-test") },
        ),
        start(Node::A, "p6_conv_a", "node-a", "p6-conv"),
        start(Node::B, "p6_conv_b", "node-b", "p6-conv"),
        note(Action::Sleep(12_000)),
        keep_trying(
            Action::FindLeader,
            Expect::LeaderFound,
            30_000,
            1_000,
            "no leader elected within timeout",
        ),
        must(
            Action::WriteSequence(
                Who::Leader,
                events(AggregateKey::new(1, 1, 6003), 12, Payload::Text("{}")),
            ),
        ),
        step(
            Action::AwaitCount(
                Who::Follower,
                AggregateKey::new(1, 1, 6003),
                Target::Events(12),
                30_000,
            ),
            Expect::Number(NumberRule::Is(12)),
            "follower converged to {got}, expected 12",
        ),
    ];
    assert(steps@ =~= follower_read_converges_steps());
    steps
}

/// What [`follower_read_converges`] demands of the replies, one for each of its steps.
pub open spec fn follower_read_converges_holds(history: Seq<Reply>) -> bool {
    &&& history.len() == 7
    &&& accepted_through(history, 0, 2)
    &&& history[4] matches Reply::Leaders(a, b) && (a || b)
    &&& !turned_down(history[5])
    &&& history[6] == Reply::Number(12)
}

/// [`follower_read_converges`] passes exactly on the replies that it demands.
pub proof fn follower_read_converges_passes(history: Seq<Reply>)
    ensures
        passes(follower_read_converges_steps(), history)
            <==> follower_read_converges_holds(history),
{
    broadcast use group_judgement;

    let steps = follower_read_converges_steps();
    passing_is_step_by_step(steps, history);
    reveal_with_fuel(met_before, 8);
}

/// The steps of [`failover_promotes_follower`].
pub open spec fn failover_promotes_follower_steps() -> Seq<Step> {
    seq![
        must(
            Action::StartStore { port: named("p6_fail_minio", 0), bucket: Some("celeriant-test") },
        ),
        start(Node::A, "p6_fail_a", "node-a", "p6-fail"),
        start(Node::B, "p6_fail_b", "node-b", "p6-fail"),
        note(Action::Sleep(12_000)),
        keep_trying(
            Action::FindLeader,
            Expect::LeaderFound,
            30_000,
            1_000,
            "no leader elected within timeout",
        ),
        must(
            Action::WriteSequence(
                Who::Leader,
                events(AggregateKey::new(1, 1, 6004), 4, Payload::Text("{}")),
            ),
        ),
        await_events(Who::Follower, AggregateKey::new(1, 1, 6004), 4, 30_000),
        note(Action::StopNode(Who::Leader)),
        keep_trying(
            Action::WriteFresh(Who::Follower, create(6005, 3000)),
            Expect::Accepted,
            90_000,
            3_000,
            "surviving node never accepted a write after leader death (last error: {reply})",
        ),
        step(
            Action::AwaitCount(
                Who::Follower,
                AggregateKey::new(1, 1, 6004),
                Target::Events(4),
                30_000,
            ),
            Expect::Number(NumberRule::AtLeast(4)),
            "after failover the new leader has {got} events, expected >=4",
        ),
    ]
}

/// When the leader dies the follower takes over and accepts writes, and what was there before is
/// still there.
pub fn failover_promotes_follower() -> (r: Vec<Step>)
    ensures
        r@ == failover_promotes_follower_steps(),
{
    let steps: Vec<Step> = vec![
        must(
            Action::StartStore { port: named("p6_fail_minio", 0), bucket: Some("celeriant-test") },
        ),
        start(Node::A, "p6_fail_a", "node-a", "p6-fail"),
        start(Node::B, "p6_fail_b", "node-b", "p6-fail"),
        note(Action::Sleep(12_000)),
        keep_trying(
            Action::FindLeader,
            Expect::LeaderFound,
            30_000,
            1_000,
            "no leader elected within timeout",
        ),
        must(
            Action::WriteSequence(
                Who::Leader,
                events(AggregateKey::new(1, 1, 6004), 4, Payload::Text("{}")),
            ),
        ),
        await_events(Who::Follower, AggregateKey::new(1, 1, 6004), 4, 30_000),
        note(Action::StopNode(Who::Leader)),
        keep_trying(
            Action::WriteFresh(Who::Follower, create(6005, 3000)),
            Expect::Accepted,
            90_000,
            3_000,
            "surviving node never accepted a write after leader death (last error: {reply})",
        ),
        step(
            Action::AwaitCount(
                Who::Follower,
                AggregateKey::new(1, 1, 6004),
                Target::Events(4),
                30_000,
            ),
            Expect::Number(NumberRule::AtLeast(4)),
            "after failover the new leader has {got} events, expected >=4",
        ),
    ];
    assert(steps@ =~= failover_promotes_follower_steps());
    steps
}

/// What [`failover_promotes_follower`] demands of the replies, one for each of its steps.
pub open spec fn failover_promotes_follower_holds(history: Seq<Reply>) -> bool {
    &&& history.len() == 10
    &&& accepted_through(history, 0, 2)
    &&& history[4] matches Reply::Leaders(a, b) && (a || b)
    &&& !turned_down(history[5])
    &&& history[6] matches Reply::Number(n) && n >= 4
    &&& !turned_down(history[8])
    &&& history[9] matches Reply::Number(n) && n >= 4
}

/// [`failover_promotes_follower`] passes exactly on the replies that it demands.
pub proof fn failover_promotes_follower_passes(history: Seq<Reply>)
    ensures
        passes(failover_promotes_follower_steps(), history)
            <==> failover_promotes_follower_holds(history),
{
    broadcast use group_judgement;

    let steps = failover_promotes_follower_steps();
    passing_is_step_by_step(steps, history);
    reveal_with_fuel(met_before, 11);
}

} // verus!
