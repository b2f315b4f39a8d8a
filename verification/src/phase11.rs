//! Distributed safety: a leader fences itself when it loses its lease, a follower says who leads, a
//! slow link loses nothing, and compaction gives space back.

use crate::bench::{Link, Node, NodeConfig, Store, Who, cluster_config, named, standalone};
use crate::expect::{Expect, NumberRule, StreamRule, group_judgement, turned_down};
use crate::model::{AggregateKey, LAST_EVENT, Payload, Sequence, Write, append};
use crate::reply::{Reply, versions_run};
use crate::script::{
    Action, OnFail, Patience, Step, Target, accepted_through, keep_trying, memory_grows, met_before,
    must, note, passes, passing_is_step_by_step, sends, step, try_until,
};
use crate::segments::some_shard_shrank;
use crate::text::after_last;
use vstd::prelude::*;

verus! {

/// The event type that these scenarios write.
pub const TYPE: u64 = 110;

/// Events `lo` to `hi`, each bound to the version before it.
#[verifier::allow_in_spec]
pub fn write_seq(key: AggregateKey, lo: u64, hi: u64) -> Sequence
    returns
        (Sequence {
            key,
            lo,
            hi,
            event_type_major: TYPE,
            payload: Payload::Number,
            guarded: true,
        }),
{
    Sequence { key, lo, hi, event_type_major: TYPE, payload: Payload::Number, guarded: true }
}

/// A first event that creates its aggregate.
#[verifier::allow_in_spec]
pub fn create(aggregate_id: u128, timestamp: u64) -> Write
    returns
        (Write {
            allow_create: true,
            ..append(AggregateKey::new(1, 1, aggregate_id), 1, TYPE, timestamp, Payload::Text("{}"))
        }),
{
    Write {
        allow_create: true,
        ..append(AggregateKey::new(1, 1, aggregate_id), 1, TYPE, timestamp, Payload::Text("{}"))
    }
}

/// The size of a segment in the compaction scenario.
pub const PREALLOCATE: u64 = 4194304;

/// How many events the compaction scenario writes.
pub const COMPACTION_EVENTS: u64 = 300;

/// The steps of [`leader_self_fences_on_lost_lease`].
pub open spec fn leader_self_fences_on_lost_lease_steps() -> Seq<Step> {
    seq![
        must(
            Action::StartStore {
                port: named("p11_fence_minio", 0),
                bucket: Some("celeriant-test"),
            },
        ),
        must(Action::StartProxy {
            link: Link::Store(Who::A),
            port: named("p11_fence_a", 6),
            target: named("p11_fence_minio", 0),
        }),
        must(Action::StartProxy {
            link: Link::Store(Who::B),
            port: named("p11_fence_b", 6),
            target: named("p11_fence_minio", 0),
        }),
        must(Action::StartProxy {
            link: Link::Replication(Who::A),
            port: named("p11_fence_a", 5),
            target: named("p11_fence_a", 1),
        }),
        must(Action::StartProxy {
            link: Link::Replication(Who::B),
            port: named("p11_fence_b", 5),
            target: named("p11_fence_b", 1),
        }),
        must(Action::StartNode {
            node: Node::A,
            port: named("p11_fence_a", 0),
            label: Some("node-a"),
            config: NodeConfig {
                store: Store::Through(Link::Store(Who::A)),
                ..cluster_config("p11-fence", named("p11_fence_a", 5))
            },
        }),
        must(Action::StartNode {
            node: Node::B,
            port: named("p11_fence_b", 0),
            label: Some("node-b"),
            config: NodeConfig {
                store: Store::Through(Link::Store(Who::B)),
                ..cluster_config("p11-fence", named("p11_fence_b", 5))
            },
        }),
        keep_trying(
            Action::FindLeader,
            Expect::LeaderFound,
            40_000,
            1_000,
            "no leader elected within 40s",
        ),
        note(Action::Sleep(12_000)),
        sends(Who::Leader, write_seq(AggregateKey::new(1, 1, 11001), 1, 2)),
        note(Action::Block(Link::Store(Who::Leader))),
        note(Action::Block(Link::Replication(Who::Follower))),
        note(Action::Block(Link::Replication(Who::Leader))),
        note(Action::SetNext(3)),
        keep_trying(
            Action::Probe(Who::Leader, write_seq(AggregateKey::new(1, 1, 11001), 3, LAST_EVENT)),
            Expect::Rejected,
            60_000,
            1_000,
            "old leader never fenced after losing its lease within 60s (it must stop accepting writes): {reply}",
        ),
        step(
            Action::Probe(Who::Leader, write_seq(AggregateKey::new(1, 1, 11001), 3, LAST_EVENT)),
            Expect::Rejected,
            "old leader resumed accepting writes while its lease was un-renewable (fence must hold)",
        ),
        keep_trying(
            Action::WriteFresh(Who::Follower, create(11005, 9000)),
            Expect::Accepted,
            60_000,
            2_000,
            "follower never took over after the leader fenced: {reply}",
        ),
    ]
}

/// A leader that can no longer renew its lease fences itself, so two writers never coexist.
///
/// The leader is cut off from the object store and from the follower, so the replication link
/// cannot stand in for the lease. It must turn a write down, and go on turning writes down; and the
/// follower, whose way to the store is open, must take over.
pub fn leader_self_fences_on_lost_lease() -> (r: Vec<Step>)
    ensures
        r@ == leader_self_fences_on_lost_lease_steps(),
{
    let steps: Vec<Step> = vec![
        must(
            Action::StartStore {
                port: named("p11_fence_minio", 0),
                bucket: Some("celeriant-test"),
            },
        ),
        must(Action::StartProxy {
            link: Link::Store(Who::A),
            port: named("p11_fence_a", 6),
            target: named("p11_fence_minio", 0),
        }),
        must(Action::StartProxy {
            link: Link::Store(Who::B),
            port: named("p11_fence_b", 6),
            target: named("p11_fence_minio", 0),
        }),
        must(Action::StartProxy {
            link: Link::Replication(Who::A),
            port: named("p11_fence_a", 5),
            target: named("p11_fence_a", 1),
        }),
        must(Action::StartProxy {
            link: Link::Replication(Who::B),
            port: named("p11_fence_b", 5),
            target: named("p11_fence_b", 1),
        }),
        must(Action::StartNode {
            node: Node::A,
            port: named("p11_fence_a", 0),
            label: Some("node-a"),
            config: NodeConfig {
                store: Store::Through(Link::Store(Who::A)),
                ..cluster_config("p11-fence", named("p11_fence_a", 5))
            },
        }),
        must(Action::StartNode {
            node: Node::B,
            port: named("p11_fence_b", 0),
            label: Some("node-b"),
            config: NodeConfig {
                store: Store::Through(Link::Store(Who::B)),
                ..cluster_config("p11-fence", named("p11_fence_b", 5))
            },
        }),
        keep_trying(
            Action::FindLeader,
            Expect::LeaderFound,
            40_000,
            1_000,
            "no leader elected within 40s",
        ),
        note(Action::Sleep(12_000)),
        sends(Who::Leader, write_seq(AggregateKey::new(1, 1, 11001), 1, 2)),
        note(Action::Block(Link::Store(Who::Leader))),
        note(Action::Block(Link::Replication(Who::Follower))),
        note(Action::Block(Link::Replication(Who::Leader))),
        note(Action::SetNext(3)),
        keep_trying(
            Action::Probe(Who::Leader, write_seq(AggregateKey::new(1, 1, 11001), 3, LAST_EVENT)),
            Expect::Rejected,
            60_000,
            1_000,
            "old leader never fenced after losing its lease within 60s (it must stop accepting writes): {reply}",
        ),
        step(
            Action::Probe(Who::Leader, write_seq(AggregateKey::new(1, 1, 11001), 3, LAST_EVENT)),
            Expect::Rejected,
            "old leader resumed accepting writes while its lease was un-renewable (fence must hold)",
        ),
        keep_trying(
            Action::WriteFresh(Who::Follower, create(11005, 9000)),
            Expect::Accepted,
            60_000,
            2_000,
            "follower never took over after the leader fenced: {reply}",
        ),
    ];
    assert(steps@ =~= leader_self_fences_on_lost_lease_steps());
    steps
}

/// What [`leader_self_fences_on_lost_lease`] demands of the replies, one for each of its steps.
pub open spec fn leader_self_fences_on_lost_lease_holds(history: Seq<Reply>) -> bool {
    &&& history.len() == 17
    &&& accepted_through(history, 0, 6)
    &&& history[7] matches Reply::Leaders(a, b) && (a || b)
    &&& !turned_down(history[9])
    &&& turned_down(history[14])
    &&& turned_down(history[15])
    &&& !turned_down(history[16])
}

/// [`leader_self_fences_on_lost_lease`] passes exactly on the replies that it demands.
pub proof fn leader_self_fences_on_lost_lease_passes(history: Seq<Reply>)
    ensures
        passes(leader_self_fences_on_lost_lease_steps(), history)
            <==> leader_self_fences_on_lost_lease_holds(history),
{
    broadcast use group_judgement;

    let steps = leader_self_fences_on_lost_lease_steps();
    passing_is_step_by_step(steps, history);
    reveal_with_fuel(met_before, 18);
}

/// The steps of [`notleader_redirect_carries_leader_address`].
pub open spec fn notleader_redirect_carries_leader_address_steps() -> Seq<Step> {
    seq![
        must(Action::StartStore { port: named("p11_nl_minio", 0), bucket: Some("celeriant-test") }),
        must(Action::StartNode {
            node: Node::A,
            port: named("p11_nl_a", 0),
            label: Some("node-a"),
            config: cluster_config("p11-notleader", named("p11_nl_a", 1)),
        }),
        must(Action::StartNode {
            node: Node::B,
            port: named("p11_nl_b", 0),
            label: Some("node-b"),
            config: cluster_config("p11-notleader", named("p11_nl_b", 1)),
        }),
        keep_trying(
            Action::FindLeader,
            Expect::LeaderFound,
            40_000,
            1_000,
            "no leader elected within 40s",
        ),
        note(Action::Sleep(12_000)),
        Step {
            action: Action::WriteFresh(Who::Follower, create(11002, 2000)),
            expect: Expect::Redirect,
            patience: Patience::While { within_ms: 30_000, every_ms: 1_000 },
            on_fail: OnFail::Errors(
                "follower never returned a NotLeader redirect with a leader address: {reply}",
                "write to the follower was ACCEPTED (a follower must refuse writes)",
            ),
        },
        step(
            Action::WriteRedirected(5, create(11002, 2000)),
            Expect::Accepted,
            "redirect target {was} did not accept the write (it is not the real leader): {reply}",
        ),
        step(
            Action::Recall(5),
            Expect::PortOtherThan(Who::Follower),
            "NotLeader redirect points back at the follower ({got}), not the leader",
        ),
        step(
            Action::Recall(5),
            Expect::PortOf(Who::Leader),
            "redirect {got} port != actual leader {leader} port",
        ),
    ]
}

/// A follower that refuses a write says who leads: the address it gives has the leader's port, not
/// its own, and a write sent there is accepted.
pub fn notleader_redirect_carries_leader_address() -> (r: Vec<Step>)
    ensures
        r@ == notleader_redirect_carries_leader_address_steps(),
{
    let steps: Vec<Step> = vec![
        must(Action::StartStore { port: named("p11_nl_minio", 0), bucket: Some("celeriant-test") }),
        must(Action::StartNode {
            node: Node::A,
            port: named("p11_nl_a", 0),
            label: Some("node-a"),
            config: cluster_config("p11-notleader", named("p11_nl_a", 1)),
        }),
        must(Action::StartNode {
            node: Node::B,
            port: named("p11_nl_b", 0),
            label: Some("node-b"),
            config: cluster_config("p11-notleader", named("p11_nl_b", 1)),
        }),
        keep_trying(
            Action::FindLeader,
            Expect::LeaderFound,
            40_000,
            1_000,
            "no leader elected within 40s",
        ),
        note(Action::Sleep(12_000)),
        Step {
            action: Action::WriteFresh(Who::Follower, create(11002, 2000)),
            expect: Expect::Redirect,
            patience: Patience::While { within_ms: 30_000, every_ms: 1_000 },
            on_fail: OnFail::Errors(
                "follower never returned a NotLeader redirect with a leader address: {reply}",
                "write to the follower was ACCEPTED (a follower must refuse writes)",
            ),
        },
        step(
            Action::WriteRedirected(5, create(11002, 2000)),
            Expect::Accepted,
            "redirect target {was} did not accept the write (it is not the real leader): {reply}",
        ),
        step(
            Action::Recall(5),
            Expect::PortOtherThan(Who::Follower),
            "NotLeader redirect points back at the follower ({got}), not the leader",
        ),
        step(
            Action::Recall(5),
            Expect::PortOf(Who::Leader),
            "redirect {got} port != actual leader {leader} port",
        ),
    ];
    assert(steps@ =~= notleader_redirect_carries_leader_address_steps());
    steps
}

/// What [`notleader_redirect_carries_leader_address`] demands of the replies, one for each of its
/// steps: the follower points at an address with the port of the node that accepts writes, and not
/// with its own, and that node accepts the write.
pub open spec fn notleader_redirect_carries_leader_address_holds(history: Seq<Reply>) -> bool {
    &&& history.len() == 9
    &&& accepted_through(history, 0, 2)
    &&& history[3] matches Reply::Leaders(a, b) && (a || b)
    &&& !turned_down(history[6])
    &&& history[1] matches Reply::Started(at_a) && (history[2] matches Reply::Started(at_b) && (
    history[5] matches Reply::Redirected(to) && points_at(
        history[3] == Reply::Leaders(true, true) || history[3] == Reply::Leaders(true, false),
        at_a@,
        at_b@,
        to@,
    )))
}

/// Whether `to` has the port of the node that leads, A or else B, and not that of the other.
pub open spec fn points_at(a_leads: bool, at_a: Seq<char>, at_b: Seq<char>, to: Seq<char>) -> bool {
    let leader = if a_leads {
        at_a
    } else {
        at_b
    };
    let follower = if a_leads {
        at_b
    } else {
        at_a
    };
    &&& after_last(to, ':') == after_last(leader, ':')
    &&& after_last(to, ':') != after_last(follower, ':')
}

/// [`notleader_redirect_carries_leader_address`] passes on the replies that it demands; and where
/// both nodes were started, on no others.
pub proof fn notleader_redirect_carries_leader_address_passes(history: Seq<Reply>)
    requires
        history.len() > 2 ==> history[1] is Started && history[2] is Started,
    ensures
        passes(notleader_redirect_carries_leader_address_steps(), history)
            <==> notleader_redirect_carries_leader_address_holds(history),
{
    broadcast use group_judgement;

    let steps = notleader_redirect_carries_leader_address_steps();
    passing_is_step_by_step(steps, history);
    reveal_with_fuel(met_before, 10);
    if history.len() == 9 {
        memory_grows(steps, history, 0);
        memory_grows(steps, history, 1);
        memory_grows(steps, history, 2);
        memory_grows(steps, history, 3);
        memory_grows(steps, history, 4);
        memory_grows(steps, history, 5);
        memory_grows(steps, history, 6);
        memory_grows(steps, history, 7);
    }
}

/// The steps of [`throttled_link_preserves_acked_writes`].
pub open spec fn throttled_link_preserves_acked_writes_steps() -> Seq<Step> {
    seq![
        must(Action::StartStore { port: named("p11_bp_minio", 0), bucket: Some("celeriant-test") }),
        must(Action::StartProxy {
            link: Link::Replication(Who::A),
            port: named("p11_bp_a", 5),
            target: named("p11_bp_a", 1),
        }),
        must(Action::StartProxy {
            link: Link::Replication(Who::B),
            port: named("p11_bp_b", 5),
            target: named("p11_bp_b", 1),
        }),
        must(Action::StartNode {
            node: Node::A,
            port: named("p11_bp_a", 0),
            label: Some("node-a"),
            config: cluster_config("p11-backpressure", named("p11_bp_a", 5)),
        }),
        must(Action::StartNode {
            node: Node::B,
            port: named("p11_bp_b", 0),
            label: Some("node-b"),
            config: cluster_config("p11-backpressure", named("p11_bp_b", 5)),
        }),
        keep_trying(
            Action::FindLeader,
            Expect::LeaderFound,
            40_000,
            1_000,
            "no leader elected within 40s",
        ),
        note(Action::Sleep(12_000)),
        sends(Who::Leader, write_seq(AggregateKey::new(1, 1, 11003), 1, 1)),
        note(Action::Throttle(Link::Replication(Who::Follower), 200)),
        must(Action::Connect(Who::Leader)),
        must(Action::Pour {
            who: Who::Leader,
            sequence: Sequence {
                payload: Payload::Repeated(65536),
                guarded: false,
                ..write_seq(AggregateKey::new(1, 1, 11003), 2, 201)
            },
            within_ms: 60_000,
        }),
        note(Action::Unthrottle(Link::Replication(Who::Follower))),
        step(
            Action::AwaitCount(
                Who::Leader,
                AggregateKey::new(1, 1, 11003),
                Target::OnePlusAcked(10),
                60_000,
            ),
            Expect::Number(NumberRule::OnePlusAcked(10)),
            "after backpressure: leader has {got} events, expected {next} acked — an acked write was lost or duplicated",
        ),
        step(
            Action::ReadAll(Who::Leader, AggregateKey::new(1, 1, 11003)),
            Expect::Stream(StreamRule::OnePlusAcked(10)),
            "after backpressure: leader has versions {versions}, expected 1..={next} without a gap",
        ),
    ]
}

/// Under a throttled link to the follower every write that the leader acknowledges is kept: after
/// the pour the leader holds the first event and exactly the acknowledged ones, without a gap.
pub fn throttled_link_preserves_acked_writes() -> (r: Vec<Step>)
    ensures
        r@ == throttled_link_preserves_acked_writes_steps(),
{
    let steps: Vec<Step> = vec![
        must(Action::StartStore { port: named("p11_bp_minio", 0), bucket: Some("celeriant-test") }),
        must(Action::StartProxy {
            link: Link::Replication(Who::A),
            port: named("p11_bp_a", 5),
            target: named("p11_bp_a", 1),
        }),
        must(Action::StartProxy {
            link: Link::Replication(Who::B),
            port: named("p11_bp_b", 5),
            target: named("p11_bp_b", 1),
        }),
        must(Action::StartNode {
            node: Node::A,
            port: named("p11_bp_a", 0),
            label: Some("node-a"),
            config: cluster_config("p11-backpressure", named("p11_bp_a", 5)),
        }),
        must(Action::StartNode {
            node: Node::B,
            port: named("p11_bp_b", 0),
            label: Some("node-b"),
            config: cluster_config("p11-backpressure", named("p11_bp_b", 5)),
        }),
        keep_trying(
            Action::FindLeader,
            Expect::LeaderFound,
            40_000,
            1_000,
            "no leader elected within 40s",
        ),
        note(Action::Sleep(12_000)),
        sends(Who::Leader, write_seq(AggregateKey::new(1, 1, 11003), 1, 1)),
        note(Action::Throttle(Link::Replication(Who::Follower), 200)),
        must(Action::Connect(Who::Leader)),
        must(Action::Pour {
            who: Who::Leader,
            sequence: Sequence {
                payload: Payload::Repeated(65536),
                guarded: false,
                ..write_seq(AggregateKey::new(1, 1, 11003), 2, 201)
            },
            within_ms: 60_000,
        }),
        note(Action::Unthrottle(Link::Replication(Who::Follower))),
        step(
            Action::AwaitCount(
                Who::Leader,
                AggregateKey::new(1, 1, 11003),
                Target::OnePlusAcked(10),
                60_000,
            ),
            Expect::Number(NumberRule::OnePlusAcked(10)),
            "after backpressure: leader has {got} events, expected {next} acked — an acked write was lost or duplicated",
        ),
        step(
            Action::ReadAll(Who::Leader, AggregateKey::new(1, 1, 11003)),
            Expect::Stream(StreamRule::OnePlusAcked(10)),
            "after backpressure: leader has versions {versions}, expected 1..={next} without a gap",
        ),
    ];
    assert(steps@ =~= throttled_link_preserves_acked_writes_steps());
    steps
}

/// What [`throttled_link_preserves_acked_writes`] demands of the replies, one for each of its
/// steps.
pub open spec fn throttled_link_preserves_acked_writes_holds(history: Seq<Reply>) -> bool {
    &&& history.len() == 14
    &&& accepted_through(history, 0, 4)
    &&& history[5] matches Reply::Leaders(a, b) && (a || b)
    &&& !turned_down(history[7])
    &&& !turned_down(history[9])
    &&& !turned_down(history[10])
    &&& history[10] matches Reply::Poured(acked)
        && (history[12] matches Reply::Number(n) && n == acked + 1)
    &&& history[10] matches Reply::Poured(acked) && acked < u64::MAX
        && (history[13] matches Reply::Batches(b) && versions_run(b@, 1, (acked + 1) as u64))
}

/// [`throttled_link_preserves_acked_writes`] passes exactly on the replies that it demands.
pub proof fn throttled_link_preserves_acked_writes_passes(history: Seq<Reply>)
    ensures
        passes(throttled_link_preserves_acked_writes_steps(), history)
            <==> throttled_link_preserves_acked_writes_holds(history),
{
    broadcast use group_judgement;

    let steps = throttled_link_preserves_acked_writes_steps();
    passing_is_step_by_step(steps, history);
    reveal_with_fuel(met_before, 15);
}

/// The steps of [`compaction_reclaims_after_trim`].
pub open spec fn compaction_reclaims_after_trim_steps() -> Seq<Step> {
    seq![
        must(Action::StartNode {
            node: Node::A,
            port: named("p11_compaction", 0),
            label: Some("compactor"),
            config: NodeConfig {
                log_level: Some("warn"),
                shard_log_preallocate_bytes: Some(PREALLOCATE),
                compaction_check_interval_secs: Some(2),
                compaction_min_reclaimable_percent: Some(5),
                ..standalone(1)
            },
        }),
        must(Action::Connect(Who::A)),
        step(
            Action::WriteSequence(
                Who::A,
                Sequence {
                    payload: Payload::Random(65536),
                    ..write_seq(AggregateKey::new(1, 1, 11004), 1, COMPACTION_EVENTS)
                },
            ),
            Expect::Accepted,
            "compaction setup write {n}: {reply}",
        ),
        step(
            Action::Trim(Who::A, AggregateKey::new(1, 1, 11004), COMPACTION_EVENTS),
            Expect::Accepted,
            "trim failed: {reply}",
        ),
        try_until(
            Action::ListSegments,
            Expect::SealedShrank(PREALLOCATE),
            90_000,
            2_000,
            "compaction did not physically reclaim a sealed segment within 90s after trim (no sealed log_*.wal shrank below 4194304 bytes)",
        ),
        must(Action::VerifyCompacted(PREALLOCATE)),
    ]
}

/// After a large prefix is trimmed, compaction makes a sealed segment smaller on disk.
///
/// Values that do not compress fill several small segments; all but the last event is trimmed;
/// within a bound some sealed segment must fall below the size it was laid out with.
pub fn compaction_reclaims_after_trim() -> (r: Vec<Step>)
    ensures
        r@ == compaction_reclaims_after_trim_steps(),
{
    let steps: Vec<Step> = vec![
        must(Action::StartNode {
            node: Node::A,
            port: named("p11_compaction", 0),
            label: Some("compactor"),
            config: NodeConfig {
                log_level: Some("warn"),
                shard_log_preallocate_bytes: Some(PREALLOCATE),
                compaction_check_interval_secs: Some(2),
                compaction_min_reclaimable_percent: Some(5),
                ..standalone(1)
            },
        }),
        must(Action::Connect(Who::A)),
        step(
            Action::WriteSequence(
                Who::A,
                Sequence {
                    payload: Payload::Random(65536),
                    ..write_seq(AggregateKey::new(1, 1, 11004), 1, COMPACTION_EVENTS)
                },
            ),
            Expect::Accepted,
            "compaction setup write {n}: {reply}",
        ),
        step(
            Action::Trim(Who::A, AggregateKey::new(1, 1, 11004), COMPACTION_EVENTS),
            Expect::Accepted,
            "trim failed: {reply}",
        ),
        try_until(
            Action::ListSegments,
            Expect::SealedShrank(PREALLOCATE),
            90_000,
            2_000,
            "compaction did not physically reclaim a sealed segment within 90s after trim (no sealed log_*.wal shrank below 4194304 bytes)",
        ),
        must(Action::VerifyCompacted(PREALLOCATE)),
    ];
    assert(steps@ =~= compaction_reclaims_after_trim_steps());
    steps
}

/// What [`compaction_reclaims_after_trim`] demands of the replies, one for each of its steps.
pub open spec fn compaction_reclaims_after_trim_holds(history: Seq<Reply>) -> bool {
    &&& history.len() == 6
    &&& accepted_through(history, 0, 3)
    &&& history[4] matches Reply::Segments(shards) && some_shard_shrank(shards@, PREALLOCATE)
    &&& !turned_down(history[5])
}

/// [`compaction_reclaims_after_trim`] passes exactly on the replies that it demands.
pub proof fn compaction_reclaims_after_trim_passes(history: Seq<Reply>)
    ensures
        passes(compaction_reclaims_after_trim_steps(), history)
            <==> compaction_reclaims_after_trim_holds(history),
{
    broadcast use group_judgement;

    let steps = compaction_reclaims_after_trim_steps();
    passing_is_step_by_step(steps, history);
    reveal_with_fuel(met_before, 7);
}

/// In [`compaction_reclaims_after_trim`] the trim drops all that was written but its last event, of the
/// aggregate that was written to, so that there is something to reclaim in every sealed segment.
pub proof fn the_trim_leaves_one_event()
    ensures
        ({
            let steps = compaction_reclaims_after_trim_steps();
            steps[2].action matches Action::WriteSequence(_, q) && (
            steps[3].action matches Action::Trim(_, key, keep) && key == q.key && keep == q.hi && q.lo
                == 1 && q.hi > 1)
        }),
        ({
            let steps = compaction_reclaims_after_trim_steps();
            steps[4].expect matches Expect::SealedShrank(size) && steps[5].action
                == Action::VerifyCompacted(size)
        }),
{
}

} // verus!
