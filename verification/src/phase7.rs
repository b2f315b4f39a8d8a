//! Races, ordering over many shards, and large values on a node of its own.

use crate::bench::{Node, NodeConfig, Who, named, plain, standalone};
use crate::expect::{
    Expect, NumberRule, StreamRule, group_judgement, intact, one_winner, tagged_stream, turned_down,
};
use crate::ledger::{
    a_first_run_is_taken, all_fit, all_taken, events_in, filled, fit_before, fits,
    fitting_is_step_by_step, nothing, reading_at, reading_changes_nothing, server_at, under,
    writers_fill_their_own,
};
use crate::model::{AggregateKey, Outcome, Payload, Sequence, Write, append};
use crate::reply::{Reply, event_total};
use crate::script::{
    Action, Race, Step, accepted_through, either, met_before, must, passes, passing_is_step_by_step,
    step,
};
use vstd::prelude::*;

verus! {

/// The event type that these scenarios write.
pub const TYPE: u64 = 100;

/// The start of the node `A` on its own.
#[verifier::allow_in_spec]
pub fn start(name: &'static str, config: NodeConfig) -> Step
    returns
        (must(Action::StartNode { node: Node::A, port: named(name, 0), label: None, config })),
{
    must(Action::StartNode { node: Node::A, port: named(name, 0), label: None, config })
}

/// A first event that creates its aggregate.
#[verifier::allow_in_spec]
pub fn create(key: AggregateKey, timestamp: u64, payload: Payload) -> Write
    returns
        (Write { allow_create: true, ..append(key, 1, TYPE, timestamp, payload) }),
{
    Write { allow_create: true, ..append(key, 1, TYPE, timestamp, payload) }
}

/// The batches of one of the aggregates that many writers filled, each with its tag.
#[verifier::allow_in_spec]
pub fn read_tagged(agg: u64) -> Step
    returns
        (step(
            Action::ReadAll(Who::A, AggregateKey::new(1, 1, (700_000 + agg) as u128)),
            Expect::Stream(StreamRule::Tagged(agg, 10)),
            "{fault}",
        )),
{
    step(
        Action::ReadAll(Who::A, AggregateKey::new(1, 1, 700_000 + agg as u128)),
        Expect::Stream(StreamRule::Tagged(agg, 10)),
        "{fault}",
    )
}

/// Sixty guarded events of 64 KiB each, whose values do not compress.
#[verifier::allow_in_spec]
pub fn long_stream(key: AggregateKey) -> Sequence
    returns
        (Sequence {
            key,
            lo: 1,
            hi: 60,
            event_type_major: TYPE,
            payload: Payload::Scattered(65536),
            guarded: true,
        }),
{
    Sequence {
        key,
        lo: 1,
        hi: 60,
        event_type_major: TYPE,
        payload: Payload::Scattered(65536),
        guarded: true,
    }
}

/// The steps of [`concurrent_occ_writers_one_wins`].
pub open spec fn concurrent_occ_writers_one_wins_steps(key: AggregateKey) -> Seq<Step> {
    seq![
        start("p7_occ_race", plain()),
        must(Action::WriteFresh(
            Who::A,
            Write { expected_version: Some(0), ..create(key, 1000, Payload::Text("{}")) },
        )),
        either(
            Action::Race(
                Who::A,
                Race {
                    write: Write {
                        expected_version: Some(1),
                        ..append(key, 100, TYPE, 2000, Payload::Writer("w"))
                    },
                    writers: 16,
                    own_seq: true,
                    own_time: true,
                },
            ),
            Expect::OneWinner(16, Outcome::OccLost),
            "OCC race: {won} writers won (expected exactly 1), {lost} lost",
            "unexpected write outcome under race: {fault}",
        ),
        must(Action::Connect(Who::A)),
        step(
            Action::Version(Who::A, key),
            Expect::Number(NumberRule::Is(2)),
            "after OCC race, version {got} != 2 (a lost write must not append)",
        ),
        step(
            Action::ReadAll(Who::A, key),
            Expect::Stream(StreamRule::Events(2)),
            "after OCC race, {events} events present, expected 2",
        ),
    ]
}

/// Of writers that race on the same expected version exactly one commits; every other one is told
/// that the version moved, and the aggregate advances by one.
pub fn concurrent_occ_writers_one_wins(key: AggregateKey) -> (r: Vec<Step>)
    ensures
        r@ == concurrent_occ_writers_one_wins_steps(key),
{
    let steps: Vec<Step> = vec![
        start("p7_occ_race", plain()),
        must(Action::WriteFresh(
            Who::A,
            Write { expected_version: Some(0), ..create(key, 1000, Payload::Text("{}")) },
        )),
        either(
            Action::Race(
                Who::A,
                Race {
                    write: Write {
                        expected_version: Some(1),
                        ..append(key, 100, TYPE, 2000, Payload::Writer("w"))
                    },
                    writers: 16,
                    own_seq: true,
                    own_time: true,
                },
            ),
            Expect::OneWinner(16, Outcome::OccLost),
            "OCC race: {won} writers won (expected exactly 1), {lost} lost",
            "unexpected write outcome under race: {fault}",
        ),
        must(Action::Connect(Who::A)),
        step(
            Action::Version(Who::A, key),
            Expect::Number(NumberRule::Is(2)),
            "after OCC race, version {got} != 2 (a lost write must not append)",
        ),
        step(
            Action::ReadAll(Who::A, key),
            Expect::Stream(StreamRule::Events(2)),
            "after OCC race, {events} events present, expected 2",
        ),
    ];
    assert(steps@ =~= concurrent_occ_writers_one_wins_steps(key));
    steps
}

/// What [`concurrent_occ_writers_one_wins`] demands of the replies, one for each of its steps.
pub open spec fn concurrent_occ_writers_one_wins_holds(history: Seq<Reply>) -> bool {
    &&& history.len() == 6
    &&& !turned_down(history[0])
    &&& !turned_down(history[1])
    &&& history[2] matches Reply::Race(replies) && one_winner(replies@, 16, Outcome::OccLost)
    &&& !turned_down(history[3])
    &&& history[4] == Reply::Number(2)
    &&& history[5] matches Reply::Batches(b) && event_total(b@) == 2
}

/// [`concurrent_occ_writers_one_wins`] passes exactly on the replies that it demands.
pub proof fn concurrent_occ_writers_one_wins_passes(key: AggregateKey, history: Seq<Reply>)
    ensures
        passes(concurrent_occ_writers_one_wins_steps(key), history)
            <==> concurrent_occ_writers_one_wins_holds(history),
{
    broadcast use group_judgement;

    let steps = concurrent_occ_writers_one_wins_steps(key);
    passing_is_step_by_step(steps, history);
    reveal_with_fuel(met_before, 7);
}

/// The steps of [`concurrent_creators_one_wins`].
pub open spec fn concurrent_creators_one_wins_steps(key: AggregateKey) -> Seq<Step> {
    seq![
        start("p7_create_race", plain()),
        either(
            Action::Race(
                Who::A,
                Race {
                    write: Write {
                        expected_version: Some(0),
                        ..create(key, 1000, Payload::Writer("creator"))
                    },
                    writers: 16,
                    own_seq: false,
                    own_time: true,
                },
            ),
            Expect::OneWinner(16, Outcome::OccLost),
            "create race: {won} creators won (expected exactly 1)",
            "unexpected create outcome under race: {fault}",
        ),
        must(Action::Connect(Who::A)),
        step(
            Action::Version(Who::A, key),
            Expect::Number(NumberRule::Is(1)),
            "after create race, version {got} != 1",
        ),
        step(
            Action::ReadAll(Who::A, key),
            Expect::Stream(StreamRule::Events(1)),
            "after create race, {events} events present, expected 1",
        ),
    ]
}

/// Of creators that race on a new key exactly one creates it.
pub fn concurrent_creators_one_wins(key: AggregateKey) -> (r: Vec<Step>)
    ensures
        r@ == concurrent_creators_one_wins_steps(key),
{
    let steps: Vec<Step> = vec![
        start("p7_create_race", plain()),
        either(
            Action::Race(
                Who::A,
                Race {
                    write: Write {
                        expected_version: Some(0),
                        ..create(key, 1000, Payload::Writer("creator"))
                    },
                    writers: 16,
                    own_seq: false,
                    own_time: true,
                },
            ),
            Expect::OneWinner(16, Outcome::OccLost),
            "create race: {won} creators won (expected exactly 1)",
            "unexpected create outcome under race: {fault}",
        ),
        must(Action::Connect(Who::A)),
        step(
            Action::Version(Who::A, key),
            Expect::Number(NumberRule::Is(1)),
            "after create race, version {got} != 1",
        ),
        step(
            Action::ReadAll(Who::A, key),
            Expect::Stream(StreamRule::Events(1)),
            "after create race, {events} events present, expected 1",
        ),
    ];
    assert(steps@ =~= concurrent_creators_one_wins_steps(key));
    steps
}

/// What [`concurrent_creators_one_wins`] demands of the replies, one for each of its steps.
pub open spec fn concurrent_creators_one_wins_holds(history: Seq<Reply>) -> bool {
    &&& history.len() == 5
    &&& !turned_down(history[0])
    &&& history[1] matches Reply::Race(replies) && one_winner(replies@, 16, Outcome::OccLost)
    &&& !turned_down(history[2])
    &&& history[3] == Reply::Number(1)
    &&& history[4] matches Reply::Batches(b) && event_total(b@) == 1
}

/// [`concurrent_creators_one_wins`] passes exactly on the replies that it demands.
pub proof fn concurrent_creators_one_wins_passes(key: AggregateKey, history: Seq<Reply>)
    ensures
        passes(concurrent_creators_one_wins_steps(key), history)
            <==> concurrent_creators_one_wins_holds(history),
{
    broadcast use group_judgement;

    let steps = concurrent_creators_one_wins_steps(key);
    passing_is_step_by_step(steps, history);
    reveal_with_fuel(met_before, 6);
}

/// The steps of [`concurrent_idempotent_retries_dedupe`].
pub open spec fn concurrent_idempotent_retries_dedupe_steps(key: AggregateKey) -> Seq<Step> {
    seq![
        start("p7_idem_race", plain()),
        must(Action::WriteFresh(
            Who::A,
            Write { client_id: 99, ..create(key, 500, Payload::Text("{\"seed\":1}")) },
        )),
        either(
            Action::Race(
                Who::A,
                Race {
                    write: Write {
                        client_id: 7,
                        enforce_client_idempotency: true,
                        ..append(key, 1, TYPE, 1000, Payload::Text("{\"v\":1}"))
                    },
                    writers: 16,
                    own_seq: false,
                    own_time: false,
                },
            ),
            Expect::OneWinner(16, Outcome::Deduped),
            "idempotent race: {won} writers won (expected exactly 1), {deduped} deduped",
            "expected dedup (2002/2013) or win, got {fault}",
        ),
        must(Action::Connect(Who::A)),
        step(
            Action::ReadAll(Who::A, key),
            Expect::Stream(StreamRule::Events(2)),
            "idempotent retries: {events} events present, expected 2 (seed + one)",
        ),
    ]
}

/// However many copies of one write race, it lands once, and every other copy is dropped as a
/// duplicate.
pub fn concurrent_idempotent_retries_dedupe(key: AggregateKey) -> (r: Vec<Step>)
    ensures
        r@ == concurrent_idempotent_retries_dedupe_steps(key),
{
    let steps: Vec<Step> = vec![
        start("p7_idem_race", plain()),
        must(Action::WriteFresh(
            Who::A,
            Write { client_id: 99, ..create(key, 500, Payload::Text("{\"seed\":1}")) },
        )),
        either(
            Action::Race(
                Who::A,
                Race {
                    write: Write {
                        client_id: 7,
                        enforce_client_idempotency: true,
                        ..append(key, 1, TYPE, 1000, Payload::Text("{\"v\":1}"))
                    },
                    writers: 16,
                    own_seq: false,
                    own_time: false,
                },
            ),
            Expect::OneWinner(16, Outcome::Deduped),
            "idempotent race: {won} writers won (expected exactly 1), {deduped} deduped",
            "expected dedup (2002/2013) or win, got {fault}",
        ),
        must(Action::Connect(Who::A)),
        step(
            Action::ReadAll(Who::A, key),
            Expect::Stream(StreamRule::Events(2)),
            "idempotent retries: {events} events present, expected 2 (seed + one)",
        ),
    ];
    assert(steps@ =~= concurrent_idempotent_retries_dedupe_steps(key));
    steps
}

/// What [`concurrent_idempotent_retries_dedupe`] demands of the replies, one for each of its steps.
pub open spec fn concurrent_idempotent_retries_dedupe_holds(history: Seq<Reply>) -> bool {
    &&& history.len() == 5
    &&& !turned_down(history[0])
    &&& !turned_down(history[1])
    &&& history[2] matches Reply::Race(replies) && one_winner(replies@, 16, Outcome::Deduped)
    &&& !turned_down(history[3])
    &&& history[4] matches Reply::Batches(b) && event_total(b@) == 2
}

/// [`concurrent_idempotent_retries_dedupe`] passes exactly on the replies that it demands.
pub proof fn concurrent_idempotent_retries_dedupe_passes(key: AggregateKey, history: Seq<Reply>)
    ensures
        passes(concurrent_idempotent_retries_dedupe_steps(key), history)
            <==> concurrent_idempotent_retries_dedupe_holds(history),
{
    broadcast use group_judgement;

    let steps = concurrent_idempotent_retries_dedupe_steps(key);
    passing_is_step_by_step(steps, history);
    reveal_with_fuel(met_before, 6);
}

/// The steps of [`per_aggregate_order_across_shards`].
pub open spec fn per_aggregate_order_across_shards_steps() -> Seq<Step> {
    seq![
        start("p7_shard_order", standalone(8)),
        step(
            Action::WriteMany(
                Who::A,
                Sequence {
                    key: AggregateKey::new(1, 1, 700_000),
                    lo: 1,
                    hi: 10,
                    event_type_major: TYPE,
                    payload: Payload::Tagged,
                    guarded: true,
                },
                24,
            ),
            Expect::Accepted,
            "{share}",
        ),
        must(Action::Connect(Who::A)),
        read_tagged(0),
        read_tagged(1),
        read_tagged(2),
        read_tagged(3),
        read_tagged(4),
        read_tagged(5),
        read_tagged(6),
        read_tagged(7),
        read_tagged(8),
        read_tagged(9),
        read_tagged(10),
        read_tagged(11),
        read_tagged(12),
        read_tagged(13),
        read_tagged(14),
        read_tagged(15),
        read_tagged(16),
        read_tagged(17),
        read_tagged(18),
        read_tagged(19),
        read_tagged(20),
        read_tagged(21),
        read_tagged(22),
        read_tagged(23),
    ]
}

/// However many aggregates are written at once over however many shards, each comes back in order,
/// without a gap, and with its own data only.
pub fn per_aggregate_order_across_shards() -> (r: Vec<Step>)
    ensures
        r@ == per_aggregate_order_across_shards_steps(),
{
    let steps: Vec<Step> = vec![
        start("p7_shard_order", standalone(8)),
        step(
            Action::WriteMany(
                Who::A,
                Sequence {
                    key: AggregateKey::new(1, 1, 700_000),
                    lo: 1,
                    hi: 10,
                    event_type_major: TYPE,
                    payload: Payload::Tagged,
                    guarded: true,
                },
                24,
            ),
            Expect::Accepted,
            "{share}",
        ),
        must(Action::Connect(Who::A)),
        read_tagged(0),
        read_tagged(1),
        read_tagged(2),
        read_tagged(3),
        read_tagged(4),
        read_tagged(5),
        read_tagged(6),
        read_tagged(7),
        read_tagged(8),
        read_tagged(9),
        read_tagged(10),
        read_tagged(11),
        read_tagged(12),
        read_tagged(13),
        read_tagged(14),
        read_tagged(15),
        read_tagged(16),
        read_tagged(17),
        read_tagged(18),
        read_tagged(19),
        read_tagged(20),
        read_tagged(21),
        read_tagged(22),
        read_tagged(23),
    ];
    assert(steps@ =~= per_aggregate_order_across_shards_steps());
    steps
}

/// What [`per_aggregate_order_across_shards`] demands of the replies, one for each of its steps.
pub open spec fn per_aggregate_order_across_shards_holds(history: Seq<Reply>) -> bool {
    &&& history.len() == 27
    &&& accepted_through(history, 0, 2)
    &&& history[3] matches Reply::Batches(b) && tagged_stream(b@, 0, 10)
    &&& history[4] matches Reply::Batches(b) && tagged_stream(b@, 1, 10)
    &&& history[5] matches Reply::Batches(b) && tagged_stream(b@, 2, 10)
    &&& history[6] matches Reply::Batches(b) && tagged_stream(b@, 3, 10)
    &&& history[7] matches Reply::Batches(b) && tagged_stream(b@, 4, 10)
    &&& history[8] matches Reply::Batches(b) && tagged_stream(b@, 5, 10)
    &&& history[9] matches Reply::Batches(b) && tagged_stream(b@, 6, 10)
    &&& history[10] matches Reply::Batches(b) && tagged_stream(b@, 7, 10)
    &&& history[11] matches Reply::Batches(b) && tagged_stream(b@, 8, 10)
    &&& history[12] matches Reply::Batches(b) && tagged_stream(b@, 9, 10)
    &&& history[13] matches Reply::Batches(b) && tagged_stream(b@, 10, 10)
    &&& history[14] matches Reply::Batches(b) && tagged_stream(b@, 11, 10)
    &&& history[15] matches Reply::Batches(b) && tagged_stream(b@, 12, 10)
    &&& history[16] matches Reply::Batches(b) && tagged_stream(b@, 13, 10)
    &&& history[17] matches Reply::Batches(b) && tagged_stream(b@, 14, 10)
    &&& history[18] matches Reply::Batches(b) && tagged_stream(b@, 15, 10)
    &&& history[19] matches Reply::Batches(b) && tagged_stream(b@, 16, 10)
    &&& history[20] matches Reply::Batches(b) && tagged_stream(b@, 17, 10)
    &&& history[21] matches Reply::Batches(b) && tagged_stream(b@, 18, 10)
    &&& history[22] matches Reply::Batches(b) && tagged_stream(b@, 19, 10)
    &&& history[23] matches Reply::Batches(b) && tagged_stream(b@, 20, 10)
    &&& history[24] matches Reply::Batches(b) && tagged_stream(b@, 21, 10)
    &&& history[25] matches Reply::Batches(b) && tagged_stream(b@, 22, 10)
    &&& history[26] matches Reply::Batches(b) && tagged_stream(b@, 23, 10)
}

/// [`per_aggregate_order_across_shards`] passes exactly on the replies that it demands.
#[verifier::rlimit(60)]
pub proof fn per_aggregate_order_across_shards_passes(history: Seq<Reply>)
    ensures
        passes(per_aggregate_order_across_shards_steps(), history)
            <==> per_aggregate_order_across_shards_holds(history),
{
    broadcast use group_judgement;

    let steps = per_aggregate_order_across_shards_steps();
    passing_is_step_by_step(steps, history);
    reveal_with_fuel(met_before, 28);
}

/// The steps of [`large_values_long_stream_intact`].
pub open spec fn large_values_long_stream_intact_steps(key: AggregateKey) -> Seq<Step> {
    seq![
        start("p7_large", plain()),
        must(Action::Connect(Who::A)),
        step(
            Action::WriteSequence(Who::A, long_stream(key)),
            Expect::Accepted,
            "write {n}: {reply}",
        ),
        step(
            Action::ReadPairs(Who::A, long_stream(key)),
            Expect::Intact(60),
            "long stream: {fault}",
        ),
    ]
}

/// Large values over a long stream read back in order and byte for byte.
pub fn large_values_long_stream_intact(key: AggregateKey) -> (r: Vec<Step>)
    ensures
        r@ == large_values_long_stream_intact_steps(key),
{
    let steps: Vec<Step> = vec![
        start("p7_large", plain()),
        must(Action::Connect(Who::A)),
        step(
            Action::WriteSequence(Who::A, long_stream(key)),
            Expect::Accepted,
            "write {n}: {reply}",
        ),
        step(
            Action::ReadPairs(Who::A, long_stream(key)),
            Expect::Intact(60),
            "long stream: {fault}",
        ),
    ];
    assert(steps@ =~= large_values_long_stream_intact_steps(key));
    steps
}

/// What [`large_values_long_stream_intact`] demands of the replies, one for each of its steps.
pub open spec fn large_values_long_stream_intact_holds(history: Seq<Reply>) -> bool {
    &&& history.len() == 4
    &&& accepted_through(history, 0, 2)
    &&& history[3] matches Reply::Pairs(p) && intact(p@, 60)
}

/// [`large_values_long_stream_intact`] passes exactly on the replies that it demands.
pub proof fn large_values_long_stream_intact_passes(key: AggregateKey, history: Seq<Reply>)
    ensures
        passes(large_values_long_stream_intact_steps(key), history)
            <==> large_values_long_stream_intact_holds(history),
{
    broadcast use group_judgement;

    let steps = large_values_long_stream_intact_steps(key);
    passing_is_step_by_step(steps, history);
    reveal_with_fuel(met_before, 5);
}

/// [`concurrent_occ_writers_one_wins`] lets writers race that all expect the version at hand, so
/// that any of them can win and no second one can.
pub proof fn concurrent_occ_writers_one_wins_fits(key: AggregateKey, winner: u64)
    requires
        winner < 16,
    ensures
        all_fit(concurrent_occ_writers_one_wins_steps(key), winner),
{
    let steps = concurrent_occ_writers_one_wins_steps(key);
    reveal_with_fuel(server_at, 7);
    reveal_with_fuel(fit_before, 7);
    fitting_is_step_by_step(steps, winner, 6);
}

/// [`concurrent_creators_one_wins`] lets writers race to create one aggregate, so that any of them
/// can win and no second one can.
pub proof fn concurrent_creators_one_wins_fits(key: AggregateKey, winner: u64)
    requires
        winner < 16,
    ensures
        all_fit(concurrent_creators_one_wins_steps(key), winner),
{
    let steps = concurrent_creators_one_wins_steps(key);
    reveal_with_fuel(server_at, 6);
    reveal_with_fuel(fit_before, 6);
    fitting_is_step_by_step(steps, winner, 5);
}

/// [`concurrent_idempotent_retries_dedupe`] lets the same write race itself, so that it is taken
/// once and found repeated by all others.
pub proof fn concurrent_idempotent_retries_dedupe_fits(key: AggregateKey, winner: u64)
    requires
        winner < 16,
    ensures
        all_fit(concurrent_idempotent_retries_dedupe_steps(key), winner),
{
    let steps = concurrent_idempotent_retries_dedupe_steps(key);
    reveal_with_fuel(server_at, 6);
    reveal_with_fuel(fit_before, 6);
    fitting_is_step_by_step(steps, winner, 5);
}

/// [`large_values_long_stream_intact`] reads as many values as it wrote, in the order in which it
/// wrote them.
pub proof fn large_values_long_stream_intact_fits(key: AggregateKey, winner: u64)
    ensures
        all_fit(large_values_long_stream_intact_steps(key), winner),
{
    let steps = large_values_long_stream_intact_steps(key);
    reveal_with_fuel(server_at, 5);
    reveal_with_fuel(fit_before, 5);
    a_first_run_is_taken(
        nothing(),
        steps[2].action->WriteSequence_1,
        0,
        60,
    );
    fitting_is_step_by_step(steps, winner, 4);
}

/// [`per_aggregate_order_across_shards`] lets every writer fill an aggregate of its own, and reads
/// in each of them what that writer sent, in its order, and nothing of another.
pub proof fn per_aggregate_order_across_shards_fits(winner: u64)
    ensures
        all_fit(per_aggregate_order_across_shards_steps(), winner),
{
    let steps = per_aggregate_order_across_shards_steps();
    let q = steps[1].action->WriteMany_1;
    let started = server_at(steps, winner, 1);
    let full = server_at(steps, winner, 2);
    assert(started.held =~= Map::empty() && full == filled(started, q, 24)) by {
        reveal_with_fuel(server_at, 3);
    }
    assert(fits(steps, winner, 0));
    assert(fits(steps, winner, 1)) by {
        assert forall|w: u64| w < 24 implies #[trigger] all_taken(
            under(started, q.shifted(w).key),
            q.shifted(w),
            w,
            events_in(q),
        ) by {
            a_first_run_is_taken(nothing(), q.shifted(w), w, 10);
        }
    }
    assert forall|k: nat| 2 <= k < steps.len() implies #[trigger] fits(steps, winner, k) by {
        assert forall|m: int| 2 <= m < k implies (#[trigger] steps[m]).action is ReadAll
            || steps[m].action is Connect by {}
        reading_changes_nothing(steps, winner, 2, k);
        if k > 2 {
            let agg = (k - 3) as u64;
            assert(steps[k as int] == read_tagged(agg));
            writers_fill_their_own(started, q, 24, 24, agg);
            a_first_run_is_taken(nothing(), q.shifted(agg), agg, 10);
            let h = under(full, q.shifted(agg).key);
            assert(h.kept.skip(0) =~= h.kept);
            assert(reading_at(steps, winner, k) == Some((q.shifted(agg).key, 1nat)));
        }
    }
}

} // verus!
