//! Watches: what they report, what they refuse, and that following one misses nothing.

use crate::bench::{Node, NodeConfig, Who, named, plain, standalone};
use crate::expect::{Expect, NoticeRule, first_notice, group_judgement, turned_down};
use crate::model::{
    AggregateKey, INCOMPATIBLE_FILTERS, LATENCY_TOO_HIGH, Payload, Refusal, Sequence, Write, append,
};
use crate::reply::{Notice, Reply, counts_up};
use crate::script::{
    Action, Deletion, Step, accepted_through, either, keep_trying, memory_grows, met_before, must,
    passes, passing_is_step_by_step, recollection, step,
};
use vstd::prelude::*;

verus! {

/// The event type that these scenarios write.
pub const TYPE: u64 = 100;

/// The start of the node `A` on its own.
#[verifier::allow_in_spec]
pub fn start(name: &'static str, config: NodeConfig) -> Step
    returns
        (must(Action::StartNode { node: Node::A, port: named(name, 0), label: None, config })),
{
    must(Action::StartNode { node: Node::A, port: named(name, 0), label: None, config })
}

/// A watch on one aggregate.
#[verifier::allow_in_spec]
pub fn watch_aggregates(aggregate_id: u128) -> Action
    returns
        (Action::Watch { aggregate_id, latency_ms: 100 }),
{
    Action::Watch { aggregate_id, latency_ms: 100 }
}

/// Waits for a report on the aggregate.
#[verifier::allow_in_spec]
pub fn await_event(aggregate_id: u128, ranged: bool, fresh: bool) -> Step
    returns
        (keep_trying(
            Action::NextNotices(2_000),
            Expect::Notice(NoticeRule { aggregate_id, ranged, fresh }),
            8_000,
            0,
            "timed out waiting for a matching watch notification",
        )),
{
    keep_trying(
        Action::NextNotices(2_000),
        Expect::Notice(NoticeRule { aggregate_id, ranged, fresh }),
        8_000,
        0,
        "timed out waiting for a matching watch notification",
    )
}

/// An event with an empty value.
#[verifier::allow_in_spec]
pub fn plain_event(aggregate_id: u128, client_seq: u64, timestamp: u64, create: bool) -> Action
    returns
        (Action::Write(
            Who::A,
            Write {
                allow_create: create,
                ..append(
                    AggregateKey::new(1, 1, aggregate_id),
                    client_seq,
                    TYPE,
                    timestamp,
                    Payload::Text("{}"),
                )
            },
        )),
{
    Action::Write(
        Who::A,
        Write {
            allow_create: create,
            ..append(
                AggregateKey::new(1, 1, aggregate_id),
                client_seq,
                TYPE,
                timestamp,
                Payload::Text("{}"),
            )
        },
    )
}

/// The steps of [`watch_notifies_on_write`].
pub open spec fn watch_notifies_on_write_steps() -> Seq<Step> {
    seq![
        start("watch_notifies_on_write", plain()),
        must(Action::Connect(Who::A)),
        must(plain_event(314, 1, 1000, true)),
        must(watch_aggregates(314)),
        must(plain_event(314, 2, 1001, false)),
        await_event(314, true, false),
        step(
            Action::Recall(5),
            Expect::NoticeNames(1, 1),
            "notification identified wrong aggregate: {notice}",
        ),
        step(
            Action::Recall(5),
            Expect::NoticeReaches(2),
            "notification to_aggregate_version {reached}, expected >=2 for the appended batch",
        ),
    ]
}

/// A watch reports a write, names the aggregate, and says how far its versions reach.
pub fn watch_notifies_on_write() -> (r: Vec<Step>)
    ensures
        r@ == watch_notifies_on_write_steps(),
{
    let steps: Vec<Step> = vec![
        start("watch_notifies_on_write", plain()),
        must(Action::Connect(Who::A)),
        must(plain_event(314, 1, 1000, true)),
        must(watch_aggregates(314)),
        must(plain_event(314, 2, 1001, false)),
        await_event(314, true, false),
        step(
            Action::Recall(5),
            Expect::NoticeNames(1, 1),
            "notification identified wrong aggregate: {notice}",
        ),
        step(
            Action::Recall(5),
            Expect::NoticeReaches(2),
            "notification to_aggregate_version {reached}, expected >=2 for the appended batch",
        ),
    ];
    assert(steps@ =~= watch_notifies_on_write_steps());
    steps
}

/// The first report of an aggregate with a version range.
pub open spec fn ranged_notice(aggregate_id: u128, notices: Seq<Notice>) -> Option<Notice> {
    first_notice(NoticeRule { aggregate_id, ranged: true, fresh: false }, Seq::empty(), notices)
}

/// The first report of an aggregate with an operation that was not reported before.
pub open spec fn fresh_notice(
    aggregate_id: u128,
    before: Seq<u64>,
    notices: Seq<Notice>,
) -> Option<Notice> {
    first_notice(NoticeRule { aggregate_id, ranged: false, fresh: true }, before, notices)
}

/// What [`watch_notifies_on_write`] demands of the replies, one for each of its steps.
pub open spec fn watch_notifies_on_write_holds(history: Seq<Reply>) -> bool {
    &&& history.len() == 8
    &&& accepted_through(history, 0, 4)
    &&& history[5] matches Reply::Notices(notices) && (ranged_notice(314, notices@) matches Some(n)
        && n.org_id == 1 && n.aggregate_type_id == 1 && (n.to_aggregate_version matches Some(to)
        && to >= 2))
}

/// [`watch_notifies_on_write`] passes exactly on the replies that it demands.
pub proof fn watch_notifies_on_write_passes(history: Seq<Reply>)
    ensures
        passes(watch_notifies_on_write_steps(), history)
            <==> watch_notifies_on_write_holds(history),
{
    broadcast use group_judgement;

    let steps = watch_notifies_on_write_steps();
    passing_is_step_by_step(steps, history);
    reveal_with_fuel(met_before, 9);
    if history.len() == 8 {
        memory_grows(steps, history, 0);
        memory_grows(steps, history, 1);
        memory_grows(steps, history, 2);
        memory_grows(steps, history, 3);
        memory_grows(steps, history, 4);
        memory_grows(steps, history, 5);
        memory_grows(steps, history, 6);
    }
}

/// The steps of [`watch_create_notification_carries_version_range`].
pub open spec fn watch_create_notification_carries_version_range_steps() -> Seq<Step> {
    seq![
        start("watch_create_notification_carries_version_range", plain()),
        must(watch_aggregates(316)),
        must(Action::Connect(Who::A)),
        must(plain_event(316, 1, 1000, true)),
        await_event(316, true, false),
        step(
            Action::Recall(4),
            Expect::NoticeReaches(1),
            "create produced no ranged notification: to_aggregate_version is {reached}, expected Some(>=1)",
        ),
    ]
}

/// A watch that sees an aggregate come into being says how far its versions reach.
pub fn watch_create_notification_carries_version_range() -> (r: Vec<Step>)
    ensures
        r@ == watch_create_notification_carries_version_range_steps(),
{
    let steps: Vec<Step> = vec![
        start("watch_create_notification_carries_version_range", plain()),
        must(watch_aggregates(316)),
        must(Action::Connect(Who::A)),
        must(plain_event(316, 1, 1000, true)),
        await_event(316, true, false),
        step(
            Action::Recall(4),
            Expect::NoticeReaches(1),
            "create produced no ranged notification: to_aggregate_version is {reached}, expected Some(>=1)",
        ),
    ];
    assert(steps@ =~= watch_create_notification_carries_version_range_steps());
    steps
}

/// What [`watch_create_notification_carries_version_range`] demands of the replies, one for each of
/// its steps.
pub open spec fn watch_create_notification_carries_version_range_holds(
    history: Seq<Reply>,
) -> bool {
    &&& history.len() == 6
    &&& accepted_through(history, 0, 3)
    &&& history[4] matches Reply::Notices(notices) && (ranged_notice(316, notices@) matches Some(n)
        && (n.to_aggregate_version matches Some(to) && to >= 1))
}

/// [`watch_create_notification_carries_version_range`] passes exactly on the replies that it
/// demands.
pub proof fn watch_create_notification_carries_version_range_passes(history: Seq<Reply>)
    ensures
        passes(watch_create_notification_carries_version_range_steps(), history)
            <==> watch_create_notification_carries_version_range_holds(history),
{
    broadcast use group_judgement;

    let steps = watch_create_notification_carries_version_range_steps();
    passing_is_step_by_step(steps, history);
    reveal_with_fuel(met_before, 7);
    if history.len() == 6 {
        memory_grows(steps, history, 0);
        memory_grows(steps, history, 1);
        memory_grows(steps, history, 2);
        memory_grows(steps, history, 3);
        memory_grows(steps, history, 4);
    }
}

/// The steps of [`watch_incompatible_filter_rejected`].
pub open spec fn watch_incompatible_filter_rejected_steps() -> Seq<Step> {
    seq![
        start("watch_incompatible_filter_rejected", standalone(4)),
        must(Action::Connect(Who::A)),
        either(
            Action::WatchOrganisation(1),
            Expect::RefusedWith(INCOMPATIBLE_FILTERS),
            "org-only watch under aggregate_id routing was accepted; expected IncompatibleFilters (9002)",
            "expected IncompatibleFilters (9002), got error {reply}",
        ),
    ]
}

/// A watch whose filters do not fit the routing rule is refused.
pub fn watch_incompatible_filter_rejected() -> (r: Vec<Step>)
    ensures
        r@ == watch_incompatible_filter_rejected_steps(),
{
    let steps: Vec<Step> = vec![
        start("watch_incompatible_filter_rejected", standalone(4)),
        must(Action::Connect(Who::A)),
        either(
            Action::WatchOrganisation(1),
            Expect::RefusedWith(INCOMPATIBLE_FILTERS),
            "org-only watch under aggregate_id routing was accepted; expected IncompatibleFilters (9002)",
            "expected IncompatibleFilters (9002), got error {reply}",
        ),
    ];
    assert(steps@ =~= watch_incompatible_filter_rejected_steps());
    steps
}

/// What [`watch_incompatible_filter_rejected`] demands of the replies, one for each of its steps.
pub open spec fn watch_incompatible_filter_rejected_holds(history: Seq<Reply>) -> bool {
    &&& history.len() == 3
    &&& !turned_down(history[0])
    &&& !turned_down(history[1])
    &&& history[2] == Reply::Refused(Refusal::Coded(INCOMPATIBLE_FILTERS))
}

/// [`watch_incompatible_filter_rejected`] passes exactly on the replies that it demands.
pub proof fn watch_incompatible_filter_rejected_passes(history: Seq<Reply>)
    ensures
        passes(watch_incompatible_filter_rejected_steps(), history)
            <==> watch_incompatible_filter_rejected_holds(history),
{
    broadcast use group_judgement;

    let steps = watch_incompatible_filter_rejected_steps();
    passing_is_step_by_step(steps, history);
    reveal_with_fuel(met_before, 4);
}

/// The steps of [`watch_latency_too_high_rejected`].
pub open spec fn watch_latency_too_high_rejected_steps() -> Seq<Step> {
    seq![
        start("watch_latency_too_high_rejected", plain()),
        either(
            Action::Watch { aggregate_id: 1, latency_ms: 60_000 },
            Expect::RefusedWith(LATENCY_TOO_HIGH),
            "oversized requested_latency_ms was accepted; expected LatencyTooHigh (8001)",
            "expected WatchError::LatencyTooHigh, got error {reply}",
        ),
    ]
}

/// A watch that asks for a latency above the server's cap is refused.
pub fn watch_latency_too_high_rejected() -> (r: Vec<Step>)
    ensures
        r@ == watch_latency_too_high_rejected_steps(),
{
    let steps: Vec<Step> = vec![
        start("watch_latency_too_high_rejected", plain()),
        either(
            Action::Watch { aggregate_id: 1, latency_ms: 60_000 },
            Expect::RefusedWith(LATENCY_TOO_HIGH),
            "oversized requested_latency_ms was accepted; expected LatencyTooHigh (8001)",
            "expected WatchError::LatencyTooHigh, got error {reply}",
        ),
    ];
    assert(steps@ =~= watch_latency_too_high_rejected_steps());
    steps
}

/// What [`watch_latency_too_high_rejected`] demands of the replies, one for each of its steps.
pub open spec fn watch_latency_too_high_rejected_holds(history: Seq<Reply>) -> bool {
    &&& history.len() == 2
    &&& !turned_down(history[0])
    &&& history[1] == Reply::Refused(Refusal::Coded(LATENCY_TOO_HIGH))
}

/// [`watch_latency_too_high_rejected`] passes exactly on the replies that it demands.
pub proof fn watch_latency_too_high_rejected_passes(history: Seq<Reply>)
    ensures
        passes(watch_latency_too_high_rejected_steps(), history)
            <==> watch_latency_too_high_rejected_holds(history),
{
    broadcast use group_judgement;

    let steps = watch_latency_too_high_rejected_steps();
    passing_is_step_by_step(steps, history);
    reveal_with_fuel(met_before, 3);
}

/// The steps of [`watch_cursor_misses_no_events`].
pub open spec fn watch_cursor_misses_no_events_steps() -> Seq<Step> {
    seq![
        start("watch_cursor_misses_no_events", plain()),
        must(Action::Watch { aggregate_id: 271, latency_ms: 500 }),
        must(Action::Connect(Who::A)),
        must(
            Action::WriteSequence(
                Who::A,
                Sequence {
                    key: AggregateKey::new(1, 1, 271),
                    lo: 1,
                    hi: 30,
                    event_type_major: TYPE,
                    payload: Payload::Number,
                    guarded: false,
                },
            ),
        ),
        step(
            Action::FollowWatch {
                key: AggregateKey::new(1, 1, 271),
                versions: 30,
                within_ms: 12_000,
                report_within_ms: 3_000,
            },
            Expect::FollowedTo(30),
            "cursor-drain saw {got}, expected contiguous 1..=30",
        ),
    ]
}

/// Reports may be merged and never lost: reading on from the last version at every report shows
/// every version once.
pub fn watch_cursor_misses_no_events() -> (r: Vec<Step>)
    ensures
        r@ == watch_cursor_misses_no_events_steps(),
{
    let steps: Vec<Step> = vec![
        start("watch_cursor_misses_no_events", plain()),
        must(Action::Watch { aggregate_id: 271, latency_ms: 500 }),
        must(Action::Connect(Who::A)),
        must(
            Action::WriteSequence(
                Who::A,
                Sequence {
                    key: AggregateKey::new(1, 1, 271),
                    lo: 1,
                    hi: 30,
                    event_type_major: TYPE,
                    payload: Payload::Number,
                    guarded: false,
                },
            ),
        ),
        step(
            Action::FollowWatch {
                key: AggregateKey::new(1, 1, 271),
                versions: 30,
                within_ms: 12_000,
                report_within_ms: 3_000,
            },
            Expect::FollowedTo(30),
            "cursor-drain saw {got}, expected contiguous 1..=30",
        ),
    ];
    assert(steps@ =~= watch_cursor_misses_no_events_steps());
    steps
}

/// What [`watch_cursor_misses_no_events`] demands of the replies, one for each of its steps.
pub open spec fn watch_cursor_misses_no_events_holds(history: Seq<Reply>) -> bool {
    &&& history.len() == 5
    &&& accepted_through(history, 0, 3)
    &&& history[4] matches Reply::Followed(versions) && counts_up(versions@, 30)
}

/// [`watch_cursor_misses_no_events`] passes exactly on the replies that it demands.
pub proof fn watch_cursor_misses_no_events_passes(history: Seq<Reply>)
    ensures
        passes(watch_cursor_misses_no_events_steps(), history)
            <==> watch_cursor_misses_no_events_holds(history),
{
    broadcast use group_judgement;

    let steps = watch_cursor_misses_no_events_steps();
    passing_is_step_by_step(steps, history);
    reveal_with_fuel(met_before, 6);
}

/// The steps of [`watch_operations_are_distinct`].
pub open spec fn watch_operations_are_distinct_steps() -> Seq<Step> {
    seq![
        start("watch_operations_are_distinct", plain()),
        must(Action::Connect(Who::A)),
        must(
            Action::WriteSequence(
                Who::A,
                Sequence {
                    key: AggregateKey::new(1, 1, 999_001),
                    lo: 1,
                    hi: 4,
                    event_type_major: TYPE,
                    payload: Payload::Text("{}"),
                    guarded: false,
                },
            ),
        ),
        must(watch_aggregates(999_001)),
        must(plain_event(999_001, 5, 2000, false)),
        await_event(999_001, false, true),
        must(Action::Trim(Who::A, AggregateKey::new(1, 1, 999_001), 3)),
        await_event(999_001, false, true),
        must(
            Action::Delete(
                Who::A,
                Deletion {
                    key: AggregateKey::new(1, 1, 999_001),
                    allow_recreate: false,
                    allow_sequence_continuation: false,
                    expected_version: None,
                },
            ),
        ),
        await_event(999_001, false, true),
        step(
            Action::Recall(9),
            Expect::DistinctOperations(3),
            "operations not distinct: write={first_operation}, trim={second_operation}, delete={third_operation}",
        ),
    ]
}

/// A write, a trim and a deletion are reported as different operations.
pub fn watch_operations_are_distinct() -> (r: Vec<Step>)
    ensures
        r@ == watch_operations_are_distinct_steps(),
{
    let steps: Vec<Step> = vec![
        start("watch_operations_are_distinct", plain()),
        must(Action::Connect(Who::A)),
        must(
            Action::WriteSequence(
                Who::A,
                Sequence {
                    key: AggregateKey::new(1, 1, 999_001),
                    lo: 1,
                    hi: 4,
                    event_type_major: TYPE,
                    payload: Payload::Text("{}"),
                    guarded: false,
                },
            ),
        ),
        must(watch_aggregates(999_001)),
        must(plain_event(999_001, 5, 2000, false)),
        await_event(999_001, false, true),
        must(Action::Trim(Who::A, AggregateKey::new(1, 1, 999_001), 3)),
        await_event(999_001, false, true),
        must(
            Action::Delete(
                Who::A,
                Deletion {
                    key: AggregateKey::new(1, 1, 999_001),
                    allow_recreate: false,
                    allow_sequence_continuation: false,
                    expected_version: None,
                },
            ),
        ),
        await_event(999_001, false, true),
        step(
            Action::Recall(9),
            Expect::DistinctOperations(3),
            "operations not distinct: write={first_operation}, trim={second_operation}, delete={third_operation}",
        ),
    ];
    assert(steps@ =~= watch_operations_are_distinct_steps());
    steps
}

/// What [`watch_operations_are_distinct`] demands of the replies, one for each of its steps: a
/// write, a trim and a deletion are each reported under an operation of its own.
pub open spec fn watch_operations_are_distinct_holds(history: Seq<Reply>) -> bool {
    &&& history.len() == 11
    &&& accepted_through(history, 0, 4)
    &&& !turned_down(history[6])
    &&& !turned_down(history[8])
    &&& history[5] matches Reply::Notices(x) && (fresh_notice(
        999_001,
        Seq::empty(),
        x@,
    ) matches Some(write) && (history[7] matches Reply::Notices(y) && (fresh_notice(
        999_001,
        seq![write.operation],
        y@,
    ) matches Some(trim) && (history[9] matches Reply::Notices(z) && (fresh_notice(
        999_001,
        seq![write.operation, trim.operation],
        z@,
    ) matches Some(deletion) && write.operation != trim.operation && write.operation
        != deletion.operation && trim.operation != deletion.operation)))))
}

/// [`watch_operations_are_distinct`] passes exactly on the replies that it demands.
pub proof fn watch_operations_are_distinct_passes(history: Seq<Reply>)
    ensures
        passes(watch_operations_are_distinct_steps(), history)
            <==> watch_operations_are_distinct_holds(history),
{
    broadcast use group_judgement;

    let steps = watch_operations_are_distinct_steps();
    passing_is_step_by_step(steps, history);
    reveal_with_fuel(met_before, 12);
    if history.len() == 11 {
        memory_grows(steps, history, 0);
        memory_grows(steps, history, 1);
        memory_grows(steps, history, 2);
        memory_grows(steps, history, 3);
        memory_grows(steps, history, 4);
        memory_grows(steps, history, 5);
        memory_grows(steps, history, 6);
        memory_grows(steps, history, 7);
        memory_grows(steps, history, 8);
        memory_grows(steps, history, 9);
        let first = recollection(steps, history.take(6)).operations;
        if first.len() == 1 {
            assert(first =~= seq![first[0]]);
        }
        let second = recollection(steps, history.take(8)).operations;
        if second.len() == 2 {
            assert(second =~= seq![second[0], second[1]]);
        }
        let operations = recollection(steps, history.take(10)).operations;
        if operations.len() == 3 {
            assert(operations.no_duplicates() <==> operations[0] != operations[1] && operations[0]
                != operations[2] && operations[1] != operations[2]);
        }
    }
}

} // verus!
