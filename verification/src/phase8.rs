//! Failures and their timing: cut links, an absent object store, crashes, promotion without loss or
//! repetition, and the same answer from both nodes.

use crate::bench::{Link, Node, NodeConfig, Store, Who, cluster_config, named};
use crate::expect::{Expect, NumberRule, StreamRule, group_judgement, turned_down};
use crate::model::{AggregateKey, Payload, Sequence, Write, append};
use crate::reply::{Reply, event_total, exactly_once, one_event_each, versions_run};
use crate::script::{
    Action, Step, Target, accepted_through, await_events, keep_trying, met_before, must, note,
    passes, passing_is_step_by_step, sends, step,
};
use vstd::prelude::*;

verus! {

/// The event type that these scenarios write.
pub const TYPE: u64 = 100;

/// Events `lo` to `hi`, each bound to the version before it.
#[verifier::allow_in_spec]
pub fn write_seq(key: AggregateKey, lo: u64, hi: u64) -> Sequence
    returns
        (Sequence {
            key,
            lo,
            hi,
            event_type_major: TYPE,
            payload: Payload::Number,
            guarded: true,
        }),
{
    Sequence { key, lo, hi, event_type_major: TYPE, payload: Payload::Number, guarded: true }
}

/// The steps of [`replication_link_cut_acks_via_s3_and_heals`].
pub open spec fn replication_link_cut_acks_via_s3_and_heals_steps() -> Seq<Step> {
    seq![
        must(Action::StartStore { port: named("p8_cut_minio", 0), bucket: Some("celeriant-test") }),
        must(Action::StartProxy {
            link: Link::Replication(Who::A),
            port: named("p8_cut_a", 5),
            target: named("p8_cut_a", 1),
        }),
        must(Action::StartProxy {
            link: Link::Replication(Who::B),
            port: named("p8_cut_b", 5),
            target: named("p8_cut_b", 1),
        }),
        must(Action::StartNode {
            node: Node::A,
            port: named("p8_cut_a", 0),
            label: Some("node-a"),
            config: cluster_config("p8-cut", named("p8_cut_a", 5)),
        }),
        must(Action::StartNode {
            node: Node::B,
            port: named("p8_cut_b", 0),
            label: Some("node-b"),
            config: cluster_config("p8-cut", named("p8_cut_b", 5)),
        }),
        keep_trying(
            Action::FindLeader,
            Expect::LeaderFound,
            40_000,
            1_000,
            "no leader elected within 40s",
        ),
        note(Action::Sleep(12_000)),
        sends(Who::Leader, write_seq(AggregateKey::new(1, 1, 8001), 1, 3)),
        await_events(Who::Follower, AggregateKey::new(1, 1, 8001), 3, 30_000),
        note(Action::Block(Link::Replication(Who::Follower))),
        keep_trying(
            Action::WriteSequence(Who::Leader, write_seq(AggregateKey::new(1, 1, 8001), 4, 6)),
            Expect::Accepted,
            30_000,
            2_000,
            "leader stopped acking after link cut (degraded S3 path should keep acking): {halt}",
        ),
        note(Action::Unblock(Link::Replication(Who::Follower))),
        step(
            Action::AwaitCount(
                Who::Follower,
                AggregateKey::new(1, 1, 8001),
                Target::Events(6),
                60_000,
            ),
            Expect::Number(NumberRule::Is(6)),
            "after heal, follower has {got} events, expected 6",
        ),
    ]
}

/// With the replication link cut and both nodes alive, the leader goes on acknowledging writes by
/// way of the object store; when the link heals, the follower catches up.
pub fn replication_link_cut_acks_via_s3_and_heals() -> (r: Vec<Step>)
    ensures
        r@ == replication_link_cut_acks_via_s3_and_heals_steps(),
{
    let steps: Vec<Step> = vec![
        must(Action::StartStore { port: named("p8_cut_minio", 0), bucket: Some("celeriant-test") }),
        must(Action::StartProxy {
            link: Link::Replication(Who::A),
            port: named("p8_cut_a", 5),
            target: named("p8_cut_a", 1),
        }),
        must(Action::StartProxy {
            link: Link::Replication(Who::B),
            port: named("p8_cut_b", 5),
            target: named("p8_cut_b", 1),
        }),
        must(Action::StartNode {
            node: Node::A,
            port: named("p8_cut_a", 0),
            label: Some("node-a"),
            config: cluster_config("p8-cut", named("p8_cut_a", 5)),
        }),
        must(Action::StartNode {
            node: Node::B,
            port: named("p8_cut_b", 0),
            label: Some("node-b"),
            config: cluster_config("p8-cut", named("p8_cut_b", 5)),
        }),
        keep_trying(
            Action::FindLeader,
            Expect::LeaderFound,
            40_000,
            1_000,
            "no leader elected within 40s",
        ),
        note(Action::Sleep(12_000)),
        sends(Who::Leader, write_seq(AggregateKey::new(1, 1, 8001), 1, 3)),
        await_events(Who::Follower, AggregateKey::new(1, 1, 8001), 3, 30_000),
        note(Action::Block(Link::Replication(Who::Follower))),
        keep_trying(
            Action::WriteSequence(Who::Leader, write_seq(AggregateKey::new(1, 1, 8001), 4, 6)),
            Expect::Accepted,
            30_000,
            2_000,
            "leader stopped acking after link cut (degraded S3 path should keep acking): {halt}",
        ),
        note(Action::Unblock(Link::Replication(Who::Follower))),
        step(
            Action::AwaitCount(
                Who::Follower,
                AggregateKey::new(1, 1, 8001),
                Target::Events(6),
                60_000,
            ),
            Expect::Number(NumberRule::Is(6)),
            "after heal, follower has {got} events, expected 6",
        ),
    ];
    assert(steps@ =~= replication_link_cut_acks_via_s3_and_heals_steps());
    steps
}

/// What [`replication_link_cut_acks_via_s3_and_heals`] demands of the replies, one for each of its
/// steps.
pub open spec fn replication_link_cut_acks_via_s3_and_heals_holds(history: Seq<Reply>) -> bool {
    &&& history.len() == 13
    &&& accepted_through(history, 0, 4)
    &&& history[5] matches Reply::Leaders(a, b) && (a || b)
    &&& !turned_down(history[7])
    &&& history[8] matches Reply::Number(n) && n >= 3
    &&& !turned_down(history[10])
    &&& history[12] == Reply::Number(6)
}

/// [`replication_link_cut_acks_via_s3_and_heals`] passes exactly on the replies that it demands.
pub proof fn replication_link_cut_acks_via_s3_and_heals_passes(history: Seq<Reply>)
    ensures
        passes(replication_link_cut_acks_via_s3_and_heals_steps(), history)
            <==> replication_link_cut_acks_via_s3_and_heals_holds(history),
{
    broadcast use group_judgement;

    let steps = replication_link_cut_acks_via_s3_and_heals_steps();
    passing_is_step_by_step(steps, history);
    reveal_with_fuel(met_before, 14);
}

/// The steps of [`s3_outage_leader_keeps_serving`].
pub open spec fn s3_outage_leader_keeps_serving_steps() -> Seq<Step> {
    seq![
        must(Action::StartStore { port: named("p8_s3_minio", 0), bucket: Some("celeriant-test") }),
        must(Action::StartProxy {
            link: Link::SharedStore,
            port: named("p8_s3_a", 6),
            target: named("p8_s3_minio", 0),
        }),
        must(Action::StartNode {
            node: Node::A,
            port: named("p8_s3_a", 0),
            label: Some("node-a"),
            config: NodeConfig {
                store: Store::Through(Link::SharedStore),
                ..cluster_config("p8-s3out", named("p8_s3_a", 1))
            },
        }),
        must(Action::StartNode {
            node: Node::B,
            port: named("p8_s3_b", 0),
            label: Some("node-b"),
            config: NodeConfig {
                store: Store::Through(Link::SharedStore),
                ..cluster_config("p8-s3out", named("p8_s3_b", 1))
            },
        }),
        keep_trying(
            Action::FindLeader,
            Expect::LeaderFound,
            40_000,
            1_000,
            "no leader elected within 40s",
        ),
        note(Action::Sleep(12_000)),
        sends(Who::Leader, write_seq(AggregateKey::new(1, 1, 8002), 1, 4)),
        await_events(Who::Follower, AggregateKey::new(1, 1, 8002), 4, 30_000),
        note(Action::Block(Link::SharedStore)),
        keep_trying(
            Action::WriteSequence(Who::Leader, write_seq(AggregateKey::new(1, 1, 8002), 5, 7)),
            Expect::Accepted,
            30_000,
            2_000,
            "leader stopped serving during S3 outage (docs: it keeps serving): {halt}",
        ),
        step(
            Action::AwaitCount(
                Who::Leader,
                AggregateKey::new(1, 1, 8002),
                Target::Events(7),
                30_000,
            ),
            Expect::Number(NumberRule::Is(7)),
            "during S3 outage leader has {got} events, expected 7 (acked data must survive)",
        ),
        note(Action::Unblock(Link::SharedStore)),
        keep_trying(
            Action::WriteSequence(Who::Leader, write_seq(AggregateKey::new(1, 1, 8002), 8, 8)),
            Expect::Accepted,
            40_000,
            2_000,
            "writes did not resume after S3 recovered",
        ),
    ]
}

/// With the object store out of reach and both nodes alive, the leader goes on serving: writes are
/// acknowledged over the link to the follower, reads show them, and writes go on when the store is
/// back.
pub fn s3_outage_leader_keeps_serving() -> (r: Vec<Step>)
    ensures
        r@ == s3_outage_leader_keeps_serving_steps(),
{
    let steps: Vec<Step> = vec![
        must(Action::StartStore { port: named("p8_s3_minio", 0), bucket: Some("celeriant-test") }),
        must(Action::StartProxy {
            link: Link::SharedStore,
            port: named("p8_s3_a", 6),
            target: named("p8_s3_minio", 0),
        }),
        must(Action::StartNode {
            node: Node::A,
            port: named("p8_s3_a", 0),
            label: Some("node-a"),
            config: NodeConfig {
                store: Store::Through(Link::SharedStore),
                ..cluster_config("p8-s3out", named("p8_s3_a", 1))
            },
        }),
        must(Action::StartNode {
            node: Node::B,
            port: named("p8_s3_b", 0),
            label: Some("node-b"),
            config: NodeConfig {
                store: Store::Through(Link::SharedStore),
                ..cluster_config("p8-s3out", named("p8_s3_b", 1))
            },
        }),
        keep_trying(
            Action::FindLeader,
            Expect::LeaderFound,
            40_000,
            1_000,
            "no leader elected within 40s",
        ),
        note(Action::Sleep(12_000)),
        sends(Who::Leader, write_seq(AggregateKey::new(1, 1, 8002), 1, 4)),
        await_events(Who::Follower, AggregateKey::new(1, 1, 8002), 4, 30_000),
        note(Action::Block(Link::SharedStore)),
        keep_trying(
            Action::WriteSequence(Who::Leader, write_seq(AggregateKey::new(1, 1, 8002), 5, 7)),
            Expect::Accepted,
            30_000,
            2_000,
            "leader stopped serving during S3 outage (docs: it keeps serving): {halt}",
        ),
        step(
            Action::AwaitCount(
                Who::Leader,
                AggregateKey::new(1, 1, 8002),
                Target::Events(7),
                30_000,
            ),
            Expect::Number(NumberRule::Is(7)),
            "during S3 outage leader has {got} events, expected 7 (acked data must survive)",
        ),
        note(Action::Unblock(Link::SharedStore)),
        keep_trying(
            Action::WriteSequence(Who::Leader, write_seq(AggregateKey::new(1, 1, 8002), 8, 8)),
            Expect::Accepted,
            40_000,
            2_000,
            "writes did not resume after S3 recovered",
        ),
    ];
    assert(steps@ =~= s3_outage_leader_keeps_serving_steps());
    steps
}

/// What [`s3_outage_leader_keeps_serving`] demands of the replies, one for each of its steps.
pub open spec fn s3_outage_leader_keeps_serving_holds(history: Seq<Reply>) -> bool {
    &&& history.len() == 13
    &&& accepted_through(history, 0, 3)
    &&& history[4] matches Reply::Leaders(a, b) && (a || b)
    &&& !turned_down(history[6])
    &&& history[7] matches Reply::Number(n) && n >= 4
    &&& !turned_down(history[9])
    &&& history[10] == Reply::Number(7)
    &&& !turned_down(history[12])
}

/// [`s3_outage_leader_keeps_serving`] passes exactly on the replies that it demands.
pub proof fn s3_outage_leader_keeps_serving_passes(history: Seq<Reply>)
    ensures
        passes(s3_outage_leader_keeps_serving_steps(), history)
            <==> s3_outage_leader_keeps_serving_holds(history),
{
    broadcast use group_judgement;

    let steps = s3_outage_leader_keeps_serving_steps();
    passing_is_step_by_step(steps, history);
    reveal_with_fuel(met_before, 14);
}

/// The steps of [`crash_follower_restart_data_survives`].
pub open spec fn crash_follower_restart_data_survives_steps() -> Seq<Step> {
    seq![
        must(
            Action::StartStore { port: named("p8_crash_minio", 0), bucket: Some("celeriant-test") },
        ),
        must(Action::StartNode {
            node: Node::A,
            port: named("p8_crash_a", 0),
            label: Some("node-a"),
            config: cluster_config("p8-crash", named("p8_crash_a", 1)),
        }),
        must(Action::StartNode {
            node: Node::B,
            port: named("p8_crash_b", 0),
            label: Some("node-b"),
            config: cluster_config("p8-crash", named("p8_crash_b", 1)),
        }),
        keep_trying(
            Action::FindLeader,
            Expect::LeaderFound,
            40_000,
            1_000,
            "no leader elected within 40s",
        ),
        note(Action::Sleep(12_000)),
        sends(Who::Leader, write_seq(AggregateKey::new(1, 1, 8003), 1, 5)),
        await_events(Who::Follower, AggregateKey::new(1, 1, 8003), 5, 30_000),
        note(Action::StopNode(Who::Follower)),
        keep_trying(
            Action::WriteSequence(Who::Leader, write_seq(AggregateKey::new(1, 1, 8003), 6, 8)),
            Expect::Accepted,
            30_000,
            2_000,
            "leader could not ack after follower crash (degraded path)",
        ),
        must(Action::RestartNode(Who::Follower)),
        keep_trying(
            Action::CountFresh(Who::Follower, AggregateKey::new(1, 1, 8003)),
            Expect::Number(NumberRule::AtLeast(8)),
            60_000,
            2_000,
            "after crash+restart the node has {got} events, expected 8 (extra batches that went to S3 fallback while it was down)",
        ),
        step(
            Action::Recall(10),
            Expect::Number(NumberRule::Is(8)),
            "after crash+restart the node has {got} events, expected 8 (extra batches that went to S3 fallback while it was down)",
        ),
    ]
}

/// A follower that is killed and started again on its old files comes to hold every acknowledged
/// write, those of its absence too.
pub fn crash_follower_restart_data_survives() -> (r: Vec<Step>)
    ensures
        r@ == crash_follower_restart_data_survives_steps(),
{
    let steps: Vec<Step> = vec![
        must(
            Action::StartStore { port: named("p8_crash_minio", 0), bucket: Some("celeriant-test") },
        ),
        must(Action::StartNode {
            node: Node::A,
            port: named("p8_crash_a", 0),
            label: Some("node-a"),
            config: cluster_config("p8-crash", named("p8_crash_a", 1)),
        }),
        must(Action::StartNode {
            node: Node::B,
            port: named("p8_crash_b", 0),
            label: Some("node-b"),
            config: cluster_config("p8-crash", named("p8_crash_b", 1)),
        }),
        keep_trying(
            Action::FindLeader,
            Expect::LeaderFound,
            40_000,
            1_000,
            "no leader elected within 40s",
        ),
        note(Action::Sleep(12_000)),
        sends(Who::Leader, write_seq(AggregateKey::new(1, 1, 8003), 1, 5)),
        await_events(Who::Follower, AggregateKey::new(1, 1, 8003), 5, 30_000),
        note(Action::StopNode(Who::Follower)),
        keep_trying(
            Action::WriteSequence(Who::Leader, write_seq(AggregateKey::new(1, 1, 8003), 6, 8)),
            Expect::Accepted,
            30_000,
            2_000,
            "leader could not ack after follower crash (degraded path)",
        ),
        must(Action::RestartNode(Who::Follower)),
        keep_trying(
            Action::CountFresh(Who::Follower, AggregateKey::new(1, 1, 8003)),
            Expect::Number(NumberRule::AtLeast(8)),
            60_000,
            2_000,
            "after crash+restart the node has {got} events, expected 8 (extra batches that went to S3 fallback while it was down)",
        ),
        step(
            Action::Recall(10),
            Expect::Number(NumberRule::Is(8)),
            "after crash+restart the node has {got} events, expected 8 (extra batches that went to S3 fallback while it was down)",
        ),
    ];
    assert(steps@ =~= crash_follower_restart_data_survives_steps());
    steps
}

/// What [`crash_follower_restart_data_survives`] demands of the replies, one for each of its steps.
pub open spec fn crash_follower_restart_data_survives_holds(history: Seq<Reply>) -> bool {
    &&& history.len() == 12
    &&& accepted_through(history, 0, 2)
    &&& history[3] matches Reply::Leaders(a, b) && (a || b)
    &&& !turned_down(history[5])
    &&& history[6] matches Reply::Number(n) && n >= 5
    &&& !turned_down(history[8])
    &&& !turned_down(history[9])
    &&& history[10] matches Reply::Number(n) && n >= 8
    &&& history[10] == Reply::Number(8)
}

/// [`crash_follower_restart_data_survives`] passes exactly on the replies that it demands.
pub proof fn crash_follower_restart_data_survives_passes(history: Seq<Reply>)
    ensures
        passes(crash_follower_restart_data_survives_steps(), history)
            <==> crash_follower_restart_data_survives_holds(history),
{
    broadcast use group_judgement;

    let steps = crash_follower_restart_data_survives_steps();
    passing_is_step_by_step(steps, history);
    reveal_with_fuel(met_before, 13);
}

/// The steps of [`exactly_once_across_failover`].
pub open spec fn exactly_once_across_failover_steps() -> Seq<Step> {
    seq![
        must(Action::StartStore { port: named("p8_eo_minio", 0), bucket: Some("celeriant-test") }),
        must(Action::StartNode {
            node: Node::A,
            port: named("p8_eo_a", 0),
            label: Some("node-a"),
            config: cluster_config("p8-eo", named("p8_eo_a", 1)),
        }),
        must(Action::StartNode {
            node: Node::B,
            port: named("p8_eo_b", 0),
            label: Some("node-b"),
            config: cluster_config("p8-eo", named("p8_eo_b", 1)),
        }),
        keep_trying(
            Action::FindLeader,
            Expect::LeaderFound,
            40_000,
            1_000,
            "no leader elected within 40s",
        ),
        note(Action::Sleep(12_000)),
        sends(Who::Leader, write_seq(AggregateKey::new(1, 1, 8004), 1, 10)),
        await_events(Who::Follower, AggregateKey::new(1, 1, 8004), 10, 30_000),
        note(Action::StopNode(Who::Leader)),
        keep_trying(
            Action::WriteFresh(
                Who::Follower,
                Write {
                    allow_create: true,
                    ..append(AggregateKey::new(1, 1, 8005), 1, TYPE, 3000, Payload::Text("{}"))
                },
            ),
            Expect::Accepted,
            90_000,
            3_000,
            "survivor never promoted after leader death: {reply}",
        ),
        must(Action::Connect(Who::Follower)),
        step(
            Action::ReadAll(Who::Follower, AggregateKey::new(1, 1, 8004)),
            Expect::Stream(StreamRule::Count(10)),
            "after failover: {got} batches for the acked sequence, expected 10 (gap or duplicate)",
        ),
        step(
            Action::Recall(10),
            Expect::Stream(StreamRule::Versions(1, 10)),
            "after failover: {odd} (gap)",
        ),
        step(
            Action::Recall(10),
            Expect::Stream(StreamRule::OneEventEach),
            "after failover: {crowd}, expected 1 (double-apply?)",
        ),
        step(
            Action::Recall(10),
            Expect::Stream(StreamRule::ExactlyOnce(10)),
            "after failover: client_seqs {client_seqs} != [1, 2, 3, 4, 5, 6, 7, 8, 9, 10] (lost or duplicated event)",
        ),
    ]
}

/// After the leader dies and the follower takes over, every acknowledged write is there exactly
/// once: no gap, no double.
pub fn exactly_once_across_failover() -> (r: Vec<Step>)
    ensures
        r@ == exactly_once_across_failover_steps(),
{
    let steps: Vec<Step> = vec![
        must(Action::StartStore { port: named("p8_eo_minio", 0), bucket: Some("celeriant-test") }),
        must(Action::StartNode {
            node: Node::A,
            port: named("p8_eo_a", 0),
            label: Some("node-a"),
            config: cluster_config("p8-eo", named("p8_eo_a", 1)),
        }),
        must(Action::StartNode {
            node: Node::B,
            port: named("p8_eo_b", 0),
            label: Some("node-b"),
            config: cluster_config("p8-eo", named("p8_eo_b", 1)),
        }),
        keep_trying(
            Action::FindLeader,
            Expect::LeaderFound,
            40_000,
            1_000,
            "no leader elected within 40s",
        ),
        note(Action::Sleep(12_000)),
        sends(Who::Leader, write_seq(AggregateKey::new(1, 1, 8004), 1, 10)),
        await_events(Who::Follower, AggregateKey::new(1, 1, 8004), 10, 30_000),
        note(Action::StopNode(Who::Leader)),
        keep_trying(
            Action::WriteFresh(
                Who::Follower,
                Write {
                    allow_create: true,
                    ..append(AggregateKey::new(1, 1, 8005), 1, TYPE, 3000, Payload::Text("{}"))
                },
            ),
            Expect::Accepted,
            90_000,
            3_000,
            "survivor never promoted after leader death: {reply}",
        ),
        must(Action::Connect(Who::Follower)),
        step(
            Action::ReadAll(Who::Follower, AggregateKey::new(1, 1, 8004)),
            Expect::Stream(StreamRule::Count(10)),
            "after failover: {got} batches for the acked sequence, expected 10 (gap or duplicate)",
        ),
        step(
            Action::Recall(10),
            Expect::Stream(StreamRule::Versions(1, 10)),
            "after failover: {odd} (gap)",
        ),
        step(
            Action::Recall(10),
            Expect::Stream(StreamRule::OneEventEach),
            "after failover: {crowd}, expected 1 (double-apply?)",
        ),
        step(
            Action::Recall(10),
            Expect::Stream(StreamRule::ExactlyOnce(10)),
            "after failover: client_seqs {client_seqs} != [1, 2, 3, 4, 5, 6, 7, 8, 9, 10] (lost or duplicated event)",
        ),
    ];
    assert(steps@ =~= exactly_once_across_failover_steps());
    steps
}

/// What [`exactly_once_across_failover`] demands of the replies, one for each of its steps.
pub open spec fn exactly_once_across_failover_holds(history: Seq<Reply>) -> bool {
    &&& history.len() == 14
    &&& accepted_through(history, 0, 2)
    &&& history[3] matches Reply::Leaders(a, b) && (a || b)
    &&& !turned_down(history[5])
    &&& history[6] matches Reply::Number(n) && n >= 10
    &&& !turned_down(history[8])
    &&& !turned_down(history[9])
    &&& history[10] matches Reply::Batches(b) && b@.len() == 10
    &&& history[10] matches Reply::Batches(b) && versions_run(b@, 1, 10)
    &&& history[10] matches Reply::Batches(b) && one_event_each(b@)
    &&& history[10] matches Reply::Batches(b) && exactly_once(b@, 10)
}

/// [`exactly_once_across_failover`] passes exactly on the replies that it demands.
pub proof fn exactly_once_across_failover_passes(history: Seq<Reply>)
    ensures
        passes(exactly_once_across_failover_steps(), history)
            <==> exactly_once_across_failover_holds(history),
{
    broadcast use group_judgement;

    let steps = exactly_once_across_failover_steps();
    passing_is_step_by_step(steps, history);
    reveal_with_fuel(met_before, 15);
}

/// The steps of [`leader_follower_read_parity`].
pub open spec fn leader_follower_read_parity_steps() -> Seq<Step> {
    seq![
        must(Action::StartStore { port: named("p8_par_minio", 0), bucket: Some("celeriant-test") }),
        must(Action::StartNode {
            node: Node::A,
            port: named("p8_par_a", 0),
            label: Some("node-a"),
            config: cluster_config("p8-par", named("p8_par_a", 1)),
        }),
        must(Action::StartNode {
            node: Node::B,
            port: named("p8_par_b", 0),
            label: Some("node-b"),
            config: cluster_config("p8-par", named("p8_par_b", 1)),
        }),
        keep_trying(
            Action::FindLeader,
            Expect::LeaderFound,
            40_000,
            1_000,
            "no leader elected within 40s",
        ),
        note(Action::Sleep(12_000)),
        sends(Who::Leader, write_seq(AggregateKey::new(1, 1, 8006), 1, 15)),
        step(
            Action::AwaitCount(
                Who::Follower,
                AggregateKey::new(1, 1, 8006),
                Target::Events(15),
                45_000,
            ),
            Expect::Number(NumberRule::Is(15)),
            "follower converged to {got}, expected 15",
        ),
        must(Action::Connect(Who::Leader)),
        must(Action::Connect(Who::Follower)),
        must(Action::ReadAll(Who::Leader, AggregateKey::new(1, 1, 8006))),
        must(Action::ReadAll(Who::Follower, AggregateKey::new(1, 1, 8006))),
        step(
            Action::Recall(9),
            Expect::Stream(StreamRule::Events(15)),
            "leader read-your-writes: {events} events, expected 15",
        ),
        step(Action::Compare(9, 10), Expect::Accepted, "leader/follower read parity broken: {reply}"),
        must(Action::Count(Who::Leader, AggregateKey::new(1, 1, 8006))),
        step(
            Action::Count(Who::Follower, AggregateKey::new(1, 1, 8006)),
            Expect::Number(NumberRule::Same(13)),
            "leader/follower total event count diverged: leader={was}, follower={got}",
        ),
    ]
}

/// Once the follower has caught up, the two nodes give the same answer to the same read.
pub fn leader_follower_read_parity() -> (r: Vec<Step>)
    ensures
        r@ == leader_follower_read_parity_steps(),
{
    let steps: Vec<Step> = vec![
        must(Action::StartStore { port: named("p8_par_minio", 0), bucket: Some("celeriant-test") }),
        must(Action::StartNode {
            node: Node::A,
            port: named("p8_par_a", 0),
            label: Some("node-a"),
            config: cluster_config("p8-par", named("p8_par_a", 1)),
        }),
        must(Action::StartNode {
            node: Node::B,
            port: named("p8_par_b", 0),
            label: Some("node-b"),
            config: cluster_config("p8-par", named("p8_par_b", 1)),
        }),
        keep_trying(
            Action::FindLeader,
            Expect::LeaderFound,
            40_000,
            1_000,
            "no leader elected within 40s",
        ),
        note(Action::Sleep(12_000)),
        sends(Who::Leader, write_seq(AggregateKey::new(1, 1, 8006), 1, 15)),
        step(
            Action::AwaitCount(
                Who::Follower,
                AggregateKey::new(1, 1, 8006),
                Target::Events(15),
                45_000,
            ),
            Expect::Number(NumberRule::Is(15)),
            "follower converged to {got}, expected 15",
        ),
        must(Action::Connect(Who::Leader)),
        must(Action::Connect(Who::Follower)),
        must(Action::ReadAll(Who::Leader, AggregateKey::new(1, 1, 8006))),
        must(Action::ReadAll(Who::Follower, AggregateKey::new(1, 1, 8006))),
        step(
            Action::Recall(9),
            Expect::Stream(StreamRule::Events(15)),
            "leader read-your-writes: {events} events, expected 15",
        ),
        step(Action::Compare(9, 10), Expect::Accepted, "leader/follower read parity broken: {reply}"),
        must(Action::Count(Who::Leader, AggregateKey::new(1, 1, 8006))),
        step(
            Action::Count(Who::Follower, AggregateKey::new(1, 1, 8006)),
            Expect::Number(NumberRule::Same(13)),
            "leader/follower total event count diverged: leader={was}, follower={got}",
        ),
    ];
    assert(steps@ =~= leader_follower_read_parity_steps());
    steps
}

/// What [`leader_follower_read_parity`] demands of the replies, one for each of its steps.
pub open spec fn leader_follower_read_parity_holds(history: Seq<Reply>) -> bool {
    &&& history.len() == 15
    &&& accepted_through(history, 0, 2)
    &&& history[3] matches Reply::Leaders(a, b) && (a || b)
    &&& !turned_down(history[5])
    &&& history[6] == Reply::Number(15)
    &&& accepted_through(history, 7, 10)
    &&& history[9] matches Reply::Batches(b) && event_total(b@) == 15
    &&& !turned_down(history[12])
    &&& !turned_down(history[13])
    &&& history[13] is Number && history[14] == history[13]
}

/// [`leader_follower_read_parity`] passes exactly on the replies that it demands.
pub proof fn leader_follower_read_parity_passes(history: Seq<Reply>)
    ensures
        passes(leader_follower_read_parity_steps(), history)
            <==> leader_follower_read_parity_holds(history),
{
    broadcast use group_judgement;

    let steps = leader_follower_read_parity_steps();
    passing_is_step_by_step(steps, history);
    reveal_with_fuel(met_before, 16);
}

} // verus!
