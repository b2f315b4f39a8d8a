//! Guards on writes: expected versions, repeated writes, and writes to several aggregates.

use crate::bench::{Node, NodeConfig, Routing, Who, named, plain, standalone};
use crate::expect::{Expect, NumberRule, StreamRule, group_judgement, turned_down};
use crate::ledger::{
    Entry, Fate, all_fit, answered, faithful, fate, fit_before, fitting_is_step_by_step, looks_at,
    server_at, under, version, what_fits_passes,
};
use crate::model::{
    AggregateKey, CLIENT_IDEMPOTENCY_VIOLATION, MULTIPLE_SHARDS, OPTIMISTIC_CONCURRENCY_VIOLATION,
    Payload, READ_MISSING, Refusal, Write, append,
};
use crate::reply::{Reply, event_total, versions_run};
use crate::script::{
    Action, Step, accepted_through, either, met_before, must, note, passes, passing_is_step_by_step,
    step,
};
use vstd::prelude::*;

verus! {

/// The event type that these scenarios write.
pub const TYPE: u64 = 100;

/// The start of the node `A` on its own.
#[verifier::allow_in_spec]
pub fn start(name: &'static str, config: NodeConfig) -> Step
    returns
        (must(Action::StartNode { node: Node::A, port: named(name, 0), label: None, config })),
{
    must(Action::StartNode { node: Node::A, port: named(name, 0), label: None, config })
}

/// An event with an empty value.
#[verifier::allow_in_spec]
pub fn plain_event(key: AggregateKey, client_seq: u64, timestamp: u64) -> Write
    returns
        (append(key, client_seq, TYPE, timestamp, Payload::Text("{}"))),
{
    append(key, client_seq, TYPE, timestamp, Payload::Text("{}"))
}

/// The first event of an aggregate that must not exist yet.
#[verifier::allow_in_spec]
pub fn guarded_create(key: AggregateKey, timestamp: u64) -> Write
    returns
        (Write { allow_create: true, expected_version: Some(0), ..plain_event(key, 1, timestamp) }),
{
    Write { allow_create: true, expected_version: Some(0), ..plain_event(key, 1, timestamp) }
}

/// An event that is to follow version `version`.
#[verifier::allow_in_spec]
pub fn guarded(key: AggregateKey, client_seq: u64, timestamp: u64, version: u64) -> Write
    returns
        (Write { expected_version: Some(version), ..plain_event(key, client_seq, timestamp) }),
{
    Write { expected_version: Some(version), ..plain_event(key, client_seq, timestamp) }
}

/// The version that the aggregate must be at.
#[verifier::allow_in_spec]
pub fn at_version(key: AggregateKey, version: u64, message: &'static str) -> Step
    returns
        (step(Action::Version(Who::A, key), Expect::Number(NumberRule::Is(version)), message)),
{
    step(Action::Version(Who::A, key), Expect::Number(NumberRule::Is(version)), message)
}

/// The number of events that the aggregate must hold.
#[verifier::allow_in_spec]
pub fn holds_events(key: AggregateKey, n: u64, message: &'static str) -> Step
    returns
        (step(Action::ReadAll(Who::A, key), Expect::Stream(StreamRule::Events(n)), message)),
{
    step(Action::ReadAll(Who::A, key), Expect::Stream(StreamRule::Events(n)), message)
}

/// The steps of [`occ_match_commits_and_advances`].
pub open spec fn occ_match_commits_and_advances_steps(key: AggregateKey) -> Seq<Step> {
    seq![
        start("occ_match_commits_and_advances", plain()),
        must(Action::Connect(Who::A)),
        must(Action::Write(Who::A, guarded_create(key, 1000))),
        at_version(key, 1, "after create, version {got} != 1"),
        must(Action::Write(Who::A, guarded(key, 2, 1001, 1))),
        at_version(key, 2, "after guarded write, version {got} != 2"),
    ]
}

/// A write that expects the version that is there commits, and the version advances by one.
pub fn occ_match_commits_and_advances(key: AggregateKey) -> (r: Vec<Step>)
    ensures
        r@ == occ_match_commits_and_advances_steps(key),
{
    let steps: Vec<Step> = vec![
        start("occ_match_commits_and_advances", plain()),
        must(Action::Connect(Who::A)),
        must(Action::Write(Who::A, guarded_create(key, 1000))),
        at_version(key, 1, "after create, version {got} != 1"),
        must(Action::Write(Who::A, guarded(key, 2, 1001, 1))),
        at_version(key, 2, "after guarded write, version {got} != 2"),
    ];
    assert(steps@ =~= occ_match_commits_and_advances_steps(key));
    steps
}

/// What [`occ_match_commits_and_advances`] demands of the replies, one for each of its steps.
pub open spec fn occ_match_commits_and_advances_holds(history: Seq<Reply>) -> bool {
    &&& history.len() == 6
    &&& accepted_through(history, 0, 2)
    &&& history[3] == Reply::Number(1)
    &&& !turned_down(history[4])
    &&& history[5] == Reply::Number(2)
}

/// [`occ_match_commits_and_advances`] passes exactly on the replies that it demands.
pub proof fn occ_match_commits_and_advances_passes(key: AggregateKey, history: Seq<Reply>)
    ensures
        passes(occ_match_commits_and_advances_steps(key), history)
            <==> occ_match_commits_and_advances_holds(history),
{
    broadcast use group_judgement;

    let steps = occ_match_commits_and_advances_steps(key);
    passing_is_step_by_step(steps, history);
    reveal_with_fuel(met_before, 7);
}

/// The steps of [`occ_stale_rejected_no_append`].
pub open spec fn occ_stale_rejected_no_append_steps(key: AggregateKey) -> Seq<Step> {
    seq![
        start("occ_stale_rejected_no_append", plain()),
        must(Action::Connect(Who::A)),
        must(Action::Write(Who::A, guarded_create(key, 1000))),
        must(Action::Write(Who::A, guarded(key, 2, 1001, 1))),
        must(Action::Version(Who::A, key)),
        step(
            Action::Write(Who::A, guarded(key, 3, 1002, 1)),
            Expect::RefusedWith(OPTIMISTIC_CONCURRENCY_VIOLATION),
            "expected OptimisticConcurrencyViolation, got {reply}",
        ),
        step(
            Action::Version(Who::A, key),
            Expect::Number(NumberRule::Same(4)),
            "rejected write still changed version {was} -> {got}",
        ),
    ]
}

/// A write that expects an older version is refused, and nothing is appended.
pub fn occ_stale_rejected_no_append(key: AggregateKey) -> (r: Vec<Step>)
    ensures
        r@ == occ_stale_rejected_no_append_steps(key),
{
    let steps: Vec<Step> = vec![
        start("occ_stale_rejected_no_append", plain()),
        must(Action::Connect(Who::A)),
        must(Action::Write(Who::A, guarded_create(key, 1000))),
        must(Action::Write(Who::A, guarded(key, 2, 1001, 1))),
        must(Action::Version(Who::A, key)),
        step(
            Action::Write(Who::A, guarded(key, 3, 1002, 1)),
            Expect::RefusedWith(OPTIMISTIC_CONCURRENCY_VIOLATION),
            "expected OptimisticConcurrencyViolation, got {reply}",
        ),
        step(
            Action::Version(Who::A, key),
            Expect::Number(NumberRule::Same(4)),
            "rejected write still changed version {was} -> {got}",
        ),
    ];
    assert(steps@ =~= occ_stale_rejected_no_append_steps(key));
    steps
}

/// What [`occ_stale_rejected_no_append`] demands of the replies, one for each of its steps.
pub open spec fn occ_stale_rejected_no_append_holds(history: Seq<Reply>) -> bool {
    &&& history.len() == 7
    &&& accepted_through(history, 0, 4)
    &&& history[5] == Reply::Refused(Refusal::Coded(OPTIMISTIC_CONCURRENCY_VIOLATION))
    &&& history[4] is Number && history[6] == history[4]
}

/// [`occ_stale_rejected_no_append`] passes exactly on the replies that it demands.
pub proof fn occ_stale_rejected_no_append_passes(key: AggregateKey, history: Seq<Reply>)
    ensures
        passes(occ_stale_rejected_no_append_steps(key), history)
            <==> occ_stale_rejected_no_append_holds(history),
{
    broadcast use group_judgement;

    let steps = occ_stale_rejected_no_append_steps(key);
    passing_is_step_by_step(steps, history);
    reveal_with_fuel(met_before, 8);
}

/// The steps of [`occ_create_guard_races_cleanly`].
pub open spec fn occ_create_guard_races_cleanly_steps(key: AggregateKey) -> Seq<Step> {
    seq![
        start("occ_create_guard_races_cleanly", plain()),
        must(Action::Connect(Who::A)),
        must(Action::Write(Who::A, guarded_create(key, 1000))),
        step(
            Action::Write(Who::A, guarded_create(key, 1001)),
            Expect::RefusedWith(OPTIMISTIC_CONCURRENCY_VIOLATION),
            "expected OptimisticConcurrencyViolation on duplicate create, got {reply}",
        ),
    ]
}

/// Only the first of two creators that expect a new aggregate gets it.
pub fn occ_create_guard_races_cleanly(key: AggregateKey) -> (r: Vec<Step>)
    ensures
        r@ == occ_create_guard_races_cleanly_steps(key),
{
    let steps: Vec<Step> = vec![
        start("occ_create_guard_races_cleanly", plain()),
        must(Action::Connect(Who::A)),
        must(Action::Write(Who::A, guarded_create(key, 1000))),
        step(
            Action::Write(Who::A, guarded_create(key, 1001)),
            Expect::RefusedWith(OPTIMISTIC_CONCURRENCY_VIOLATION),
            "expected OptimisticConcurrencyViolation on duplicate create, got {reply}",
        ),
    ];
    assert(steps@ =~= occ_create_guard_races_cleanly_steps(key));
    steps
}

/// What [`occ_create_guard_races_cleanly`] demands of the replies, one for each of its steps.
pub open spec fn occ_create_guard_races_cleanly_holds(history: Seq<Reply>) -> bool {
    &&& history.len() == 4
    &&& accepted_through(history, 0, 2)
    &&& history[3] == Reply::Refused(Refusal::Coded(OPTIMISTIC_CONCURRENCY_VIOLATION))
}

/// [`occ_create_guard_races_cleanly`] passes exactly on the replies that it demands.
pub proof fn occ_create_guard_races_cleanly_passes(key: AggregateKey, history: Seq<Reply>)
    ensures
        passes(occ_create_guard_races_cleanly_steps(key), history)
            <==> occ_create_guard_races_cleanly_holds(history),
{
    broadcast use group_judgement;

    let steps = occ_create_guard_races_cleanly_steps(key);
    passing_is_step_by_step(steps, history);
    reveal_with_fuel(met_before, 5);
}

/// The steps of [`idempotency_dedupes_replay`].
pub open spec fn idempotency_dedupes_replay_steps(key: AggregateKey) -> Seq<Step> {
    seq![
        start("idempotency_dedupes_replay", plain()),
        must(Action::Connect(Who::A)),
        must(Action::Write(
            Who::A,
            Write {
                client_id: 7,
                allow_create: true,
                enforce_client_idempotency: true,
                ..append(key, 1, TYPE, 1000, Payload::Text("{\"v\":1}"))
            },
        )),
        step(
            Action::Write(
                Who::A,
                Write {
                    client_id: 7,
                    allow_create: true,
                    enforce_client_idempotency: true,
                    ..append(key, 1, TYPE, 1000, Payload::Text("{\"v\":1}"))
                },
            ),
            Expect::RefusedWith(CLIENT_IDEMPOTENCY_VIOLATION),
            "expected ClientIdempotencyViolation, got {reply}",
        ),
        holds_events(key, 1, "replay double-wrote: {events} events present, expected 1"),
    ]
}

/// A client's write that comes again under its old number is refused and lands once.
pub fn idempotency_dedupes_replay(key: AggregateKey) -> (r: Vec<Step>)
    ensures
        r@ == idempotency_dedupes_replay_steps(key),
{
    let steps: Vec<Step> = vec![
        start("idempotency_dedupes_replay", plain()),
        must(Action::Connect(Who::A)),
        must(Action::Write(
            Who::A,
            Write {
                client_id: 7,
                allow_create: true,
                enforce_client_idempotency: true,
                ..append(key, 1, TYPE, 1000, Payload::Text("{\"v\":1}"))
            },
        )),
        step(
            Action::Write(
                Who::A,
                Write {
                    client_id: 7,
                    allow_create: true,
                    enforce_client_idempotency: true,
                    ..append(key, 1, TYPE, 1000, Payload::Text("{\"v\":1}"))
                },
            ),
            Expect::RefusedWith(CLIENT_IDEMPOTENCY_VIOLATION),
            "expected ClientIdempotencyViolation, got {reply}",
        ),
        holds_events(key, 1, "replay double-wrote: {events} events present, expected 1"),
    ];
    assert(steps@ =~= idempotency_dedupes_replay_steps(key));
    steps
}

/// What [`idempotency_dedupes_replay`] demands of the replies, one for each of its steps.
pub open spec fn idempotency_dedupes_replay_holds(history: Seq<Reply>) -> bool {
    &&& history.len() == 5
    &&& accepted_through(history, 0, 2)
    &&& history[3] == Reply::Refused(Refusal::Coded(CLIENT_IDEMPOTENCY_VIOLATION))
    &&& history[4] matches Reply::Batches(b) && event_total(b@) == 1
}

/// [`idempotency_dedupes_replay`] passes exactly on the replies that it demands.
pub proof fn idempotency_dedupes_replay_passes(key: AggregateKey, history: Seq<Reply>)
    ensures
        passes(idempotency_dedupes_replay_steps(key), history)
            <==> idempotency_dedupes_replay_holds(history),
{
    broadcast use group_judgement;

    let steps = idempotency_dedupes_replay_steps(key);
    passing_is_step_by_step(steps, history);
    reveal_with_fuel(met_before, 6);
}

/// The steps of [`idempotency_scoped_per_client`].
pub open spec fn idempotency_scoped_per_client_steps(key: AggregateKey) -> Seq<Step> {
    seq![
        start("idempotency_scoped_per_client", plain()),
        must(Action::Connect(Who::A)),
        must(Action::Write(
            Who::A,
            Write {
                client_id: 100,
                allow_create: true,
                enforce_client_idempotency: true,
                ..append(key, 1, TYPE, 1000, Payload::Text("{\"who\":\"A\"}"))
            },
        )),
        must(Action::Write(
            Who::A,
            Write {
                client_id: 200,
                allow_create: false,
                enforce_client_idempotency: true,
                ..append(key, 1, TYPE, 1001, Payload::Text("{\"who\":\"B\"}"))
            },
        )),
        holds_events(key, 2, "expected 2 events (one per client), got {events}"),
    ]
}

/// Two clients may use the same number: both of their writes land.
pub fn idempotency_scoped_per_client(key: AggregateKey) -> (r: Vec<Step>)
    ensures
        r@ == idempotency_scoped_per_client_steps(key),
{
    let steps: Vec<Step> = vec![
        start("idempotency_scoped_per_client", plain()),
        must(Action::Connect(Who::A)),
        must(Action::Write(
            Who::A,
            Write {
                client_id: 100,
                allow_create: true,
                enforce_client_idempotency: true,
                ..append(key, 1, TYPE, 1000, Payload::Text("{\"who\":\"A\"}"))
            },
        )),
        must(Action::Write(
            Who::A,
            Write {
                client_id: 200,
                allow_create: false,
                enforce_client_idempotency: true,
                ..append(key, 1, TYPE, 1001, Payload::Text("{\"who\":\"B\"}"))
            },
        )),
        holds_events(key, 2, "expected 2 events (one per client), got {events}"),
    ];
    assert(steps@ =~= idempotency_scoped_per_client_steps(key));
    steps
}

/// What [`idempotency_scoped_per_client`] demands of the replies, one for each of its steps.
pub open spec fn idempotency_scoped_per_client_holds(history: Seq<Reply>) -> bool {
    &&& history.len() == 5
    &&& accepted_through(history, 0, 3)
    &&& history[4] matches Reply::Batches(b) && event_total(b@) == 2
}

/// [`idempotency_scoped_per_client`] passes exactly on the replies that it demands.
pub proof fn idempotency_scoped_per_client_passes(key: AggregateKey, history: Seq<Reply>)
    ensures
        passes(idempotency_scoped_per_client_steps(key), history)
            <==> idempotency_scoped_per_client_holds(history),
{
    broadcast use group_judgement;

    let steps = idempotency_scoped_per_client_steps(key);
    passing_is_step_by_step(steps, history);
    reveal_with_fuel(met_before, 6);
}

/// The steps of [`multi_aggregate_atomic_rollback`].
pub open spec fn multi_aggregate_atomic_rollback_steps() -> Seq<Step> {
    seq![
        start(
            "multi_aggregate_atomic_rollback",
            NodeConfig { routing_rule: Some(Routing::OrgId), ..standalone(4) },
        ),
        must(Action::Connect(Who::A)),
        must(Action::Write(Who::A, guarded_create(AggregateKey::new(555, 1, 1), 1000))),
        must(Action::Write(Who::A, guarded_create(AggregateKey::new(555, 1, 2), 1000))),
        step(
            Action::WriteTogether(
                Who::A,
                Write { client_id: 1, ..guarded(AggregateKey::new(555, 1, 1), 2, 1001, 1) },
                Write { client_id: 1, ..guarded(AggregateKey::new(555, 1, 2), 2, 1001, 0) },
            ),
            Expect::RefusedWith(OPTIMISTIC_CONCURRENCY_VIOLATION),
            "expected OptimisticConcurrencyViolation for the batch, got {reply}",
        ),
        at_version(AggregateKey::new(555, 1, 1), 1, "partial apply: a@{got}, expected both @1"),
        at_version(AggregateKey::new(555, 1, 2), 1, "partial apply: b@{got}, expected both @1"),
    ]
}

/// A write to two aggregates of one shard is all or nothing: one stale guard, and neither moves.
pub fn multi_aggregate_atomic_rollback() -> (r: Vec<Step>)
    ensures
        r@ == multi_aggregate_atomic_rollback_steps(),
{
    let steps: Vec<Step> = vec![
        start(
            "multi_aggregate_atomic_rollback",
            NodeConfig { routing_rule: Some(Routing::OrgId), ..standalone(4) },
        ),
        must(Action::Connect(Who::A)),
        must(Action::Write(Who::A, guarded_create(AggregateKey::new(555, 1, 1), 1000))),
        must(Action::Write(Who::A, guarded_create(AggregateKey::new(555, 1, 2), 1000))),
        step(
            Action::WriteTogether(
                Who::A,
                Write { client_id: 1, ..guarded(AggregateKey::new(555, 1, 1), 2, 1001, 1) },
                Write { client_id: 1, ..guarded(AggregateKey::new(555, 1, 2), 2, 1001, 0) },
            ),
            Expect::RefusedWith(OPTIMISTIC_CONCURRENCY_VIOLATION),
            "expected OptimisticConcurrencyViolation for the batch, got {reply}",
        ),
        at_version(AggregateKey::new(555, 1, 1), 1, "partial apply: a@{got}, expected both @1"),
        at_version(AggregateKey::new(555, 1, 2), 1, "partial apply: b@{got}, expected both @1"),
    ];
    assert(steps@ =~= multi_aggregate_atomic_rollback_steps());
    steps
}

/// What [`multi_aggregate_atomic_rollback`] demands of the replies, one for each of its steps.
pub open spec fn multi_aggregate_atomic_rollback_holds(history: Seq<Reply>) -> bool {
    &&& history.len() == 7
    &&& accepted_through(history, 0, 3)
    &&& history[4] == Reply::Refused(Refusal::Coded(OPTIMISTIC_CONCURRENCY_VIOLATION))
    &&& history[5] == Reply::Number(1)
    &&& history[6] == Reply::Number(1)
}

/// [`multi_aggregate_atomic_rollback`] passes exactly on the replies that it demands.
pub proof fn multi_aggregate_atomic_rollback_passes(history: Seq<Reply>)
    ensures
        passes(multi_aggregate_atomic_rollback_steps(), history)
            <==> multi_aggregate_atomic_rollback_holds(history),
{
    broadcast use group_judgement;

    let steps = multi_aggregate_atomic_rollback_steps();
    passing_is_step_by_step(steps, history);
    reveal_with_fuel(met_before, 8);
}

/// The steps of [`multi_aggregate_cross_shard_rejected`].
pub open spec fn multi_aggregate_cross_shard_rejected_steps() -> Seq<Step> {
    seq![
        start("multi_aggregate_cross_shard_rejected", standalone(4)),
        must(Action::Connect(Who::A)),
        step(
            Action::WriteTogether(
                Who::A,
                Write { client_id: 1, ..guarded_create(AggregateKey::new(1, 1, 1000), 1000) },
                Write { client_id: 1, ..guarded_create(AggregateKey::new(1, 1, 1001), 1000) },
            ),
            Expect::RefusedWith(MULTIPLE_SHARDS),
            "expected ShardRouting 9001, got {reply}",
        ),
        either(
            Action::ReadAll(Who::A, AggregateKey::new(1, 1, 1000)),
            Expect::NothingStored,
            "cross-shard write leaked {got} batches into (1, 1, 1000)",
            "expected AggregateNotExists for (1, 1, 1000), got {reply}",
        ),
        either(
            Action::ReadAll(Who::A, AggregateKey::new(1, 1, 1001)),
            Expect::NothingStored,
            "cross-shard write leaked {got} batches into (1, 1, 1001)",
            "expected AggregateNotExists for (1, 1, 1001), got {reply}",
        ),
    ]
}

/// A write to two aggregates of different shards is refused before anything is appended.
pub fn multi_aggregate_cross_shard_rejected() -> (r: Vec<Step>)
    ensures
        r@ == multi_aggregate_cross_shard_rejected_steps(),
{
    let steps: Vec<Step> = vec![
        start("multi_aggregate_cross_shard_rejected", standalone(4)),
        must(Action::Connect(Who::A)),
        step(
            Action::WriteTogether(
                Who::A,
                Write { client_id: 1, ..guarded_create(AggregateKey::new(1, 1, 1000), 1000) },
                Write { client_id: 1, ..guarded_create(AggregateKey::new(1, 1, 1001), 1000) },
            ),
            Expect::RefusedWith(MULTIPLE_SHARDS),
            "expected ShardRouting 9001, got {reply}",
        ),
        either(
            Action::ReadAll(Who::A, AggregateKey::new(1, 1, 1000)),
            Expect::NothingStored,
            "cross-shard write leaked {got} batches into (1, 1, 1000)",
            "expected AggregateNotExists for (1, 1, 1000), got {reply}",
        ),
        either(
            Action::ReadAll(Who::A, AggregateKey::new(1, 1, 1001)),
            Expect::NothingStored,
            "cross-shard write leaked {got} batches into (1, 1, 1001)",
            "expected AggregateNotExists for (1, 1, 1001), got {reply}",
        ),
    ];
    assert(steps@ =~= multi_aggregate_cross_shard_rejected_steps());
    steps
}

/// What [`multi_aggregate_cross_shard_rejected`] demands of the replies, one for each of its steps.
pub open spec fn multi_aggregate_cross_shard_rejected_holds(history: Seq<Reply>) -> bool {
    &&& history.len() == 5
    &&& !turned_down(history[0])
    &&& !turned_down(history[1])
    &&& history[2] == Reply::Refused(Refusal::Coded(MULTIPLE_SHARDS))
    &&& history[3] == Reply::Refused(Refusal::Coded(READ_MISSING)) || (
        history[3] matches Reply::Batches(b) && b@.len() == 0
    )
    &&& history[4] == Reply::Refused(Refusal::Coded(READ_MISSING)) || (
        history[4] matches Reply::Batches(b) && b@.len() == 0
    )
}

/// [`multi_aggregate_cross_shard_rejected`] passes exactly on the replies that it demands.
pub proof fn multi_aggregate_cross_shard_rejected_passes(history: Seq<Reply>)
    ensures
        passes(multi_aggregate_cross_shard_rejected_steps(), history)
            <==> multi_aggregate_cross_shard_rejected_holds(history),
{
    broadcast use group_judgement;

    let steps = multi_aggregate_cross_shard_rejected_steps();
    passing_is_step_by_step(steps, history);
    reveal_with_fuel(met_before, 6);
}

/// The steps of [`occ_and_idempotency_compose`].
pub open spec fn occ_and_idempotency_compose_steps(key: AggregateKey) -> Seq<Step> {
    seq![
        start("occ_and_idempotency_compose", plain()),
        must(Action::Connect(Who::A)),
        must(
            Action::Write(
                Who::A,
                Write {
                    client_id: 9,
                    allow_create: true,
                    enforce_client_idempotency: true,
                    ..guarded(key, 1, 1000, 0)
                },
            ),
        ),
        must(
            Action::Write(
                Who::A,
                Write {
                    client_id: 9,
                    allow_create: false,
                    enforce_client_idempotency: true,
                    ..guarded(key, 2, 1001, 1)
                },
            ),
        ),
        note(
            Action::Write(
                Who::A,
                Write {
                    client_id: 9,
                    allow_create: false,
                    enforce_client_idempotency: true,
                    ..guarded(key, 2, 1001, 1)
                },
            ),
        ),
        holds_events(key, 2, "compose replay changed event count to {events}, expected 2"),
        step(
            Action::Write(
                Who::A,
                Write {
                    client_id: 9,
                    allow_create: false,
                    enforce_client_idempotency: true,
                    ..guarded(key, 2, 1001, 1)
                },
            ),
            Expect::RefusedWith(CLIENT_IDEMPOTENCY_VIOLATION),
            "expected idempotency violation on replay, got {reply}",
        ),
    ]
}

/// A write with both guards that comes again is refused as one that was seen before, although its
/// expected version is stale too, and lands once.
pub fn occ_and_idempotency_compose(key: AggregateKey) -> (r: Vec<Step>)
    ensures
        r@ == occ_and_idempotency_compose_steps(key),
{
    let steps: Vec<Step> = vec![
        start("occ_and_idempotency_compose", plain()),
        must(Action::Connect(Who::A)),
        must(
            Action::Write(
                Who::A,
                Write {
                    client_id: 9,
                    allow_create: true,
                    enforce_client_idempotency: true,
                    ..guarded(key, 1, 1000, 0)
                },
            ),
        ),
        must(
            Action::Write(
                Who::A,
                Write {
                    client_id: 9,
                    allow_create: false,
                    enforce_client_idempotency: true,
                    ..guarded(key, 2, 1001, 1)
                },
            ),
        ),
        note(
            Action::Write(
                Who::A,
                Write {
                    client_id: 9,
                    allow_create: false,
                    enforce_client_idempotency: true,
                    ..guarded(key, 2, 1001, 1)
                },
            ),
        ),
        holds_events(key, 2, "compose replay changed event count to {events}, expected 2"),
        step(
            Action::Write(
                Who::A,
                Write {
                    client_id: 9,
                    allow_create: false,
                    enforce_client_idempotency: true,
                    ..guarded(key, 2, 1001, 1)
                },
            ),
            Expect::RefusedWith(CLIENT_IDEMPOTENCY_VIOLATION),
            "expected idempotency violation on replay, got {reply}",
        ),
    ];
    assert(steps@ =~= occ_and_idempotency_compose_steps(key));
    steps
}

/// What [`occ_and_idempotency_compose`] demands of the replies, one for each of its steps.
pub open spec fn occ_and_idempotency_compose_holds(history: Seq<Reply>) -> bool {
    &&& history.len() == 7
    &&& accepted_through(history, 0, 3)
    &&& history[5] matches Reply::Batches(b) && event_total(b@) == 2
    &&& history[6] == Reply::Refused(Refusal::Coded(CLIENT_IDEMPOTENCY_VIOLATION))
}

/// [`occ_and_idempotency_compose`] passes exactly on the replies that it demands.
pub proof fn occ_and_idempotency_compose_passes(key: AggregateKey, history: Seq<Reply>)
    ensures
        passes(occ_and_idempotency_compose_steps(key), history)
            <==> occ_and_idempotency_compose_holds(history),
{
    broadcast use group_judgement;

    let steps = occ_and_idempotency_compose_steps(key);
    passing_is_step_by_step(steps, history);
    reveal_with_fuel(met_before, 8);
}

/// The steps of [`unconditional_write_appends`].
pub open spec fn unconditional_write_appends_steps(key: AggregateKey) -> Seq<Step> {
    seq![
        start("unconditional_write_appends", plain()),
        must(Action::Connect(Who::A)),
        must(Action::Write(Who::A, Write { allow_create: true, ..plain_event(key, 1, 1001) })),
        must(Action::Write(Who::A, plain_event(key, 2, 1002))),
        must(Action::Write(Who::A, plain_event(key, 3, 1003))),
        step(
            Action::ReadAll(Who::A, key),
            Expect::Stream(StreamRule::Versions(1, 3)),
            "unconditional writes produced versions {versions}, expected [1,2,3]",
        ),
    ]
}

/// A write that expects no version appends whatever the version is.
pub fn unconditional_write_appends(key: AggregateKey) -> (r: Vec<Step>)
    ensures
        r@ == unconditional_write_appends_steps(key),
{
    let steps: Vec<Step> = vec![
        start("unconditional_write_appends", plain()),
        must(Action::Connect(Who::A)),
        must(Action::Write(Who::A, Write { allow_create: true, ..plain_event(key, 1, 1001) })),
        must(Action::Write(Who::A, plain_event(key, 2, 1002))),
        must(Action::Write(Who::A, plain_event(key, 3, 1003))),
        step(
            Action::ReadAll(Who::A, key),
            Expect::Stream(StreamRule::Versions(1, 3)),
            "unconditional writes produced versions {versions}, expected [1,2,3]",
        ),
    ];
    assert(steps@ =~= unconditional_write_appends_steps(key));
    steps
}

/// What [`unconditional_write_appends`] demands of the replies, one for each of its steps.
pub open spec fn unconditional_write_appends_holds(history: Seq<Reply>) -> bool {
    &&& history.len() == 6
    &&& accepted_through(history, 0, 4)
    &&& history[5] matches Reply::Batches(b) && versions_run(b@, 1, 3)
}

/// [`unconditional_write_appends`] passes exactly on the replies that it demands.
pub proof fn unconditional_write_appends_passes(key: AggregateKey, history: Seq<Reply>)
    ensures
        passes(unconditional_write_appends_steps(key), history)
            <==> unconditional_write_appends_holds(history),
{
    broadcast use group_judgement;

    let steps = unconditional_write_appends_steps(key);
    passing_is_step_by_step(steps, history);
    reveal_with_fuel(met_before, 7);
}

/// [`occ_stale_rejected_no_append`] asks at every step for what a sound server answers: each write
/// that must be accepted expects the version that the writes before it led to, and the one that
/// must be refused a version that they have passed.
pub proof fn occ_stale_rejected_no_append_fits(key: AggregateKey, winner: u64)
    ensures
        all_fit(occ_stale_rejected_no_append_steps(key), winner),
{
    let steps = occ_stale_rejected_no_append_steps(key);
    reveal_with_fuel(server_at, 8);
    reveal_with_fuel(fit_before, 8);
    assert(looks_at(steps[6], 4));
    fitting_is_step_by_step(steps, winner, 7);
}

/// [`occ_match_commits_and_advances`] expects of each write the version that the writes before it
/// led to, and reads just that version.
pub proof fn occ_match_commits_and_advances_fits(key: AggregateKey, winner: u64)
    ensures
        all_fit(occ_match_commits_and_advances_steps(key), winner),
{
    let steps = occ_match_commits_and_advances_steps(key);
    reveal_with_fuel(server_at, 7);
    reveal_with_fuel(fit_before, 7);
    fitting_is_step_by_step(steps, winner, 6);
}

/// [`occ_create_guard_races_cleanly`] creates an aggregate and then asks for the refusal of a
/// write that expects none there.
pub proof fn occ_create_guard_races_cleanly_fits(key: AggregateKey, winner: u64)
    ensures
        all_fit(occ_create_guard_races_cleanly_steps(key), winner),
{
    let steps = occ_create_guard_races_cleanly_steps(key);
    reveal_with_fuel(server_at, 5);
    reveal_with_fuel(fit_before, 5);
    fitting_is_step_by_step(steps, winner, 4);
}

/// [`idempotency_dedupes_replay`] sends a number of one client twice, asks for the refusal of the
/// second and reads one event.
pub proof fn idempotency_dedupes_replay_fits(key: AggregateKey, winner: u64)
    ensures
        all_fit(idempotency_dedupes_replay_steps(key), winner),
{
    let steps = idempotency_dedupes_replay_steps(key);
    reveal_with_fuel(server_at, 6);
    reveal_with_fuel(fit_before, 6);
    fitting_is_step_by_step(steps, winner, 5);
}

/// [`idempotency_scoped_per_client`] asks for nothing but what a sound server answers to two
/// clients.
pub proof fn idempotency_scoped_per_client_fits(key: AggregateKey, winner: u64)
    ensures
        all_fit(idempotency_scoped_per_client_steps(key), winner),
{
    let steps = idempotency_scoped_per_client_steps(key);
    reveal_with_fuel(server_at, 6);
    reveal_with_fuel(fit_before, 6);
    fitting_is_step_by_step(steps, winner, 5);
}

/// [`multi_aggregate_atomic_rollback`] sends two writes to one shard of which the first alone
/// would be taken, and the second expects a version that its aggregate has passed; both aggregates
/// are then read at the version before.
pub proof fn multi_aggregate_atomic_rollback_fits(winner: u64)
    ensures
        all_fit(multi_aggregate_atomic_rollback_steps(), winner),
{
    let steps = multi_aggregate_atomic_rollback_steps();
    reveal_with_fuel(server_at, 8);
    reveal_with_fuel(fit_before, 8);
    fitting_is_step_by_step(steps, winner, 7);
}

/// [`multi_aggregate_cross_shard_rejected`] sends two writes, each of which would be taken alone,
/// to different shards; neither aggregate then holds anything.
pub proof fn multi_aggregate_cross_shard_rejected_fits(winner: u64)
    ensures
        all_fit(multi_aggregate_cross_shard_rejected_steps(), winner),
{
    let steps = multi_aggregate_cross_shard_rejected_steps();
    reveal_with_fuel(server_at, 6);
    reveal_with_fuel(fit_before, 6);
    fitting_is_step_by_step(steps, winner, 5);
}

/// [`occ_and_idempotency_compose`] sends a write with both guards, the same again twice, and reads
/// what the first left.
pub proof fn occ_and_idempotency_compose_fits(key: AggregateKey, winner: u64)
    ensures
        all_fit(occ_and_idempotency_compose_steps(key), winner),
{
    let steps = occ_and_idempotency_compose_steps(key);
    reveal_with_fuel(server_at, 8);
    reveal_with_fuel(fit_before, 8);
    assert(steps[6].action == steps[4].action);
    fitting_is_step_by_step(steps, winner, 7);
}

/// [`unconditional_write_appends`] reads the versions that its writes led to.
pub proof fn unconditional_write_appends_fits(key: AggregateKey, winner: u64)
    ensures
        all_fit(unconditional_write_appends_steps(key), winner),
{
    let steps = unconditional_write_appends_steps(key);
    reveal_with_fuel(server_at, 7);
    reveal_with_fuel(fit_before, 7);
    fitting_is_step_by_step(steps, winner, 6);
}

/// In [`idempotency_dedupes_replay`] the second write is refused for its number alone: without the guard
/// on numbers it would be taken. In [`idempotency_scoped_per_client`] it is taken for its client alone:
/// from the first client it would be refused. In [`occ_and_idempotency_compose`] the repeated write
/// would, without the guard on numbers, be refused for its stale version.
pub proof fn numbers_are_guarded_per_client(key: AggregateKey, winner: u64)
    ensures
        ({
            let steps = idempotency_dedupes_replay_steps(key);
            let again = steps[3].action->Write_1;
            fate(
                under(server_at(steps, winner, 3), key),
                Write { enforce_client_idempotency: false, ..again },
            ) is Taken
        }),
        ({
            let steps = idempotency_scoped_per_client_steps(key);
            let (first, second) = (steps[2].action->Write_1, steps[3].action->Write_1);
            fate(
                under(server_at(steps, winner, 3), key),
                Write { client_id: first.client_id, ..second },
            ) == Fate::Refused(Some(2002))
        }),
        ({
            let steps = occ_and_idempotency_compose_steps(key);
            let again = steps[6].action->Write_1;
            fate(
                under(server_at(steps, winner, 6), key),
                Write { enforce_client_idempotency: false, ..again },
            ) == Fate::Refused(Some(2003))
        }),
{
    reveal_with_fuel(server_at, 7);
}

/// In [`occ_stale_rejected_no_append`] each write that must be accepted expects as many versions as were
/// accepted before it, and the one that must be refused expects fewer; and the script passes on whatever
/// a sound server answers.
pub proof fn the_refused_write_is_stale(
    key: AggregateKey,
    history: Seq<Reply>,
    winner: u64,
    value: spec_fn(Entry) -> Seq<u8>,
)
    requires
        history.len() == occ_stale_rejected_no_append_steps(key).len(),
        faithful(value),
        forall|k: nat|
            k < history.len() ==> #[trigger] answered(
                occ_stale_rejected_no_append_steps(key),
                history,
                winner,
                value,
                k,
            ),
    ensures
        passes(occ_stale_rejected_no_append_steps(key), history),
        ({
            let steps = occ_stale_rejected_no_append_steps(key);
            let accepted = |k: nat| version(under(server_at(steps, winner, k), key));
            &&& steps[2].action->Write_1.expected_version == Some(accepted(2) as u64)
            &&& steps[3].action->Write_1.expected_version == Some(accepted(3) as u64)
            &&& accepted(2) == 0 && accepted(3) == 1 && accepted(5) == 2
            &&& steps[5].action->Write_1.expected_version->0 < accepted(5)
        }),
{
    let steps = occ_stale_rejected_no_append_steps(key);
    occ_stale_rejected_no_append_fits(key, winner);
    what_fits_passes(steps, history, winner, value);
    reveal_with_fuel(server_at, 6);
}

} // verus!
