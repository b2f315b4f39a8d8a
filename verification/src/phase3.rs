//! Retention: what a trim drops and keeps, and what a deletion leaves behind.

use crate::bench::{Node, NodeConfig, Who, named, plain, standalone};
use crate::expect::{
    Expect, NumberRule, StreamRule, group_judgement, holds_text, same_stream, turned_down,
};
use crate::judging::a_stream_read_again_is_the_same;
use crate::ledger::{
    a_first_run_is_taken, all_fit, fit_before, fits, fitting_is_step_by_step, looks_at, nothing,
    number_at, part_of, server_at, under,
};
use crate::model::{
    AggregateKey, DELETE_CONCURRENCY_VIOLATION, DELETE_MISSING, MULTIPLE_SHARDS, Payload,
    READ_MISSING, READ_UNAVAILABLE, RECREATE_NOT_ALLOWED, Refusal, Sequence, TRIM_MISSING,
    TRIM_OUT_OF_RANGE, Write, append,
};
use crate::reply::{Batch, Reply, versions_run};
use crate::script::{
    Action, Deletion, Step, accepted_through, met_at, met_before, must, passes,
    passing_is_step_by_step, recollection, step,
};
use vstd::prelude::*;

verus! {

/// The event type that these scenarios write.
pub const TYPE: u64 = 100;

/// The start of the node `A` on its own.
#[verifier::allow_in_spec]
pub fn start(name: &'static str, config: NodeConfig) -> Step
    returns
        (must(Action::StartNode { node: Node::A, port: named(name, 0), label: None, config })),
{
    must(Action::StartNode { node: Node::A, port: named(name, 0), label: None, config })
}

/// Events 1 to `n`, each with its number as its value.
#[verifier::allow_in_spec]
pub fn make_stream(key: AggregateKey, n: u64) -> Step
    returns
        (must(
            Action::WriteSequence(
                Who::A,
                Sequence {
                    key,
                    lo: 1,
                    hi: n,
                    event_type_major: TYPE,
                    payload: Payload::Number,
                    guarded: false,
                },
            ),
        )),
{
    must(
        Action::WriteSequence(
            Who::A,
            Sequence {
                key,
                lo: 1,
                hi: n,
                event_type_major: TYPE,
                payload: Payload::Number,
                guarded: false,
            },
        ),
    )
}

/// The deletion of one aggregate.
#[verifier::allow_in_spec]
pub fn delete_one(key: AggregateKey, allow_recreate: bool, continuation: bool) -> Deletion
    returns
        (Deletion {
            key,
            allow_recreate,
            allow_sequence_continuation: continuation,
            expected_version: None,
        }),
{
    Deletion {
        key,
        allow_recreate,
        allow_sequence_continuation: continuation,
        expected_version: None,
    }
}

/// A first event, written when the aggregate is gone.
#[verifier::allow_in_spec]
pub fn recreate(key: AggregateKey, payload: Payload) -> Write
    returns
        (Write { allow_create: true, ..append(key, 1, TYPE, 2000, payload) }),
{
    Write { allow_create: true, ..append(key, 1, TYPE, 2000, payload) }
}

/// The steps of [`trim_drops_prefix`].
pub open spec fn trim_drops_prefix_steps(key: AggregateKey) -> Seq<Step> {
    seq![
        start("trim_drops_prefix", plain()),
        must(Action::Connect(Who::A)),
        make_stream(key, 10),
        must(Action::Trim(Who::A, key, 5)),
        step(
            Action::Read(Who::A, key, 1),
            Expect::RefusedWith(READ_UNAVAILABLE),
            "read from 1 after trim: expected UnavailableBatchIndex, got {reply}",
        ),
        step(
            Action::Read(Who::A, key, 5),
            Expect::Stream(StreamRule::StartsAt(5)),
            "after trim, read from 5 began at {first}, expected 5",
        ),
        step(
            Action::Recall(5),
            Expect::Stream(StreamRule::EndsAt(10)),
            "after trim, read from 5 ended at {last}, expected 10",
        ),
        step(
            Action::Recall(5),
            Expect::Stream(StreamRule::Versions(5, 10)),
            "after trim, read from 5 gave {versions}, expected 5..=10",
        ),
    ]
}

/// After a trim the versions below the kept one are unavailable, and the others read as before.
pub fn trim_drops_prefix(key: AggregateKey) -> (r: Vec<Step>)
    ensures
        r@ == trim_drops_prefix_steps(key),
{
    let steps: Vec<Step> = vec![
        start("trim_drops_prefix", plain()),
        must(Action::Connect(Who::A)),
        make_stream(key, 10),
        must(Action::Trim(Who::A, key, 5)),
        step(
            Action::Read(Who::A, key, 1),
            Expect::RefusedWith(READ_UNAVAILABLE),
            "read from 1 after trim: expected UnavailableBatchIndex, got {reply}",
        ),
        step(
            Action::Read(Who::A, key, 5),
            Expect::Stream(StreamRule::StartsAt(5)),
            "after trim, read from 5 began at {first}, expected 5",
        ),
        step(
            Action::Recall(5),
            Expect::Stream(StreamRule::EndsAt(10)),
            "after trim, read from 5 ended at {last}, expected 10",
        ),
        step(
            Action::Recall(5),
            Expect::Stream(StreamRule::Versions(5, 10)),
            "after trim, read from 5 gave {versions}, expected 5..=10",
        ),
    ];
    assert(steps@ =~= trim_drops_prefix_steps(key));
    steps
}

/// What [`trim_drops_prefix`] demands of the replies, one for each of its steps.
pub open spec fn trim_drops_prefix_holds(history: Seq<Reply>) -> bool {
    &&& history.len() == 8
    &&& accepted_through(history, 0, 3)
    &&& history[4] == Reply::Refused(Refusal::Coded(READ_UNAVAILABLE))
    &&& history[5] matches Reply::Batches(b) && b@.len() > 0 && b@.first().version == 5
    &&& history[5] matches Reply::Batches(b) && b@.len() > 0 && b@.last().version == 10
    &&& history[5] matches Reply::Batches(b) && versions_run(b@, 5, 10)
}

/// [`trim_drops_prefix`] passes exactly on the replies that it demands.
pub proof fn trim_drops_prefix_passes(key: AggregateKey, history: Seq<Reply>)
    ensures
        passes(trim_drops_prefix_steps(key), history) <==> trim_drops_prefix_holds(history),
{
    broadcast use group_judgement;

    let steps = trim_drops_prefix_steps(key);
    passing_is_step_by_step(steps, history);
    reveal_with_fuel(met_before, 9);
}

/// The steps of [`trim_preserves_remaining`].
pub open spec fn trim_preserves_remaining_steps(key: AggregateKey) -> Seq<Step> {
    seq![
        start("trim_preserves_remaining", plain()),
        must(Action::Connect(Who::A)),
        make_stream(key, 8),
        must(Action::Read(Who::A, key, 4)),
        must(Action::Trim(Who::A, key, 4)),
        must(Action::Read(Who::A, key, 4)),
        step(
            Action::Recall(5),
            Expect::Stream(StreamRule::SameAs(3)),
            "trim altered retained events",
        ),
        step(
            Action::Recall(3),
            Expect::Stream(StreamRule::StartsAt(4)),
            "retained range did not start at the kept version",
        ),
    ]
}

/// A trim leaves the events that it keeps byte for byte as they were.
pub fn trim_preserves_remaining(key: AggregateKey) -> (r: Vec<Step>)
    ensures
        r@ == trim_preserves_remaining_steps(key),
{
    let steps: Vec<Step> = vec![
        start("trim_preserves_remaining", plain()),
        must(Action::Connect(Who::A)),
        make_stream(key, 8),
        must(Action::Read(Who::A, key, 4)),
        must(Action::Trim(Who::A, key, 4)),
        must(Action::Read(Who::A, key, 4)),
        step(
            Action::Recall(5),
            Expect::Stream(StreamRule::SameAs(3)),
            "trim altered retained events",
        ),
        step(
            Action::Recall(3),
            Expect::Stream(StreamRule::StartsAt(4)),
            "retained range did not start at the kept version",
        ),
    ];
    assert(steps@ =~= trim_preserves_remaining_steps(key));
    steps
}

/// What [`trim_preserves_remaining`] demands of the replies, one for each of its steps.
pub open spec fn trim_preserves_remaining_holds(history: Seq<Reply>) -> bool {
    &&& history.len() == 8
    &&& accepted_through(history, 0, 5)
    &&& history[3] matches Reply::Batches(e)
        && (history[5] matches Reply::Batches(b) && same_stream(e@, b@))
    &&& history[3] matches Reply::Batches(b) && b@.len() > 0 && b@.first().version == 4
}

/// [`trim_preserves_remaining`] passes exactly on the replies that it demands.
pub proof fn trim_preserves_remaining_passes(key: AggregateKey, history: Seq<Reply>)
    ensures
        passes(trim_preserves_remaining_steps(key), history)
            <==> trim_preserves_remaining_holds(history),
{
    broadcast use group_judgement;

    let steps = trim_preserves_remaining_steps(key);
    passing_is_step_by_step(steps, history);
    reveal_with_fuel(met_before, 9);
}

/// The steps of [`trim_out_of_range_rejected`].
pub open spec fn trim_out_of_range_rejected_steps(key: AggregateKey) -> Seq<Step> {
    seq![
        start("trim_out_of_range_rejected", plain()),
        must(Action::Connect(Who::A)),
        make_stream(key, 3),
        step(
            Action::Trim(Who::A, key, 99),
            Expect::RefusedWith(TRIM_OUT_OF_RANGE),
            "expected TrimError::IndexOutOfRange, got {reply}",
        ),
    ]
}

/// A trim to a version that the stream does not have is refused.
pub fn trim_out_of_range_rejected(key: AggregateKey) -> (r: Vec<Step>)
    ensures
        r@ == trim_out_of_range_rejected_steps(key),
{
    let steps: Vec<Step> = vec![
        start("trim_out_of_range_rejected", plain()),
        must(Action::Connect(Who::A)),
        make_stream(key, 3),
        step(
            Action::Trim(Who::A, key, 99),
            Expect::RefusedWith(TRIM_OUT_OF_RANGE),
            "expected TrimError::IndexOutOfRange, got {reply}",
        ),
    ];
    assert(steps@ =~= trim_out_of_range_rejected_steps(key));
    steps
}

/// What [`trim_out_of_range_rejected`] demands of the replies, one for each of its steps.
pub open spec fn trim_out_of_range_rejected_holds(history: Seq<Reply>) -> bool {
    &&& history.len() == 4
    &&& accepted_through(history, 0, 2)
    &&& history[3] == Reply::Refused(Refusal::Coded(TRIM_OUT_OF_RANGE))
}

/// [`trim_out_of_range_rejected`] passes exactly on the replies that it demands.
pub proof fn trim_out_of_range_rejected_passes(key: AggregateKey, history: Seq<Reply>)
    ensures
        passes(trim_out_of_range_rejected_steps(key), history)
            <==> trim_out_of_range_rejected_holds(history),
{
    broadcast use group_judgement;

    let steps = trim_out_of_range_rejected_steps(key);
    passing_is_step_by_step(steps, history);
    reveal_with_fuel(met_before, 5);
}

/// The steps of [`trim_missing_rejected`].
pub open spec fn trim_missing_rejected_steps(key: AggregateKey) -> Seq<Step> {
    seq![
        start("trim_missing_rejected", plain()),
        must(Action::Connect(Who::A)),
        step(
            Action::Trim(Who::A, key, 1),
            Expect::RefusedWith(TRIM_MISSING),
            "expected TrimError::AggregateNotExists, got {reply}",
        ),
    ]
}

/// A trim of an aggregate that does not exist is refused.
pub fn trim_missing_rejected(key: AggregateKey) -> (r: Vec<Step>)
    ensures
        r@ == trim_missing_rejected_steps(key),
{
    let steps: Vec<Step> = vec![
        start("trim_missing_rejected", plain()),
        must(Action::Connect(Who::A)),
        step(
            Action::Trim(Who::A, key, 1),
            Expect::RefusedWith(TRIM_MISSING),
            "expected TrimError::AggregateNotExists, got {reply}",
        ),
    ];
    assert(steps@ =~= trim_missing_rejected_steps(key));
    steps
}

/// What [`trim_missing_rejected`] demands of the replies, one for each of its steps.
pub open spec fn trim_missing_rejected_holds(history: Seq<Reply>) -> bool {
    &&& history.len() == 3
    &&& !turned_down(history[0])
    &&& !turned_down(history[1])
    &&& history[2] == Reply::Refused(Refusal::Coded(TRIM_MISSING))
}

/// [`trim_missing_rejected`] passes exactly on the replies that it demands.
pub proof fn trim_missing_rejected_passes(key: AggregateKey, history: Seq<Reply>)
    ensures
        passes(trim_missing_rejected_steps(key), history) <==> trim_missing_rejected_holds(history),
{
    broadcast use group_judgement;

    let steps = trim_missing_rejected_steps(key);
    passing_is_step_by_step(steps, history);
    reveal_with_fuel(met_before, 4);
}

/// The steps of [`delete_removes_aggregate`].
pub open spec fn delete_removes_aggregate_steps(key: AggregateKey) -> Seq<Step> {
    seq![
        start("delete_removes_aggregate", plain()),
        must(Action::Connect(Who::A)),
        make_stream(key, 3),
        must(Action::Delete(Who::A, delete_one(key, false, false))),
        step(
            Action::Read(Who::A, key, 1),
            Expect::RefusedWith(READ_MISSING),
            "after delete, read: expected AggregateNotExists, got {reply}",
        ),
    ]
}

/// A deleted aggregate is gone.
pub fn delete_removes_aggregate(key: AggregateKey) -> (r: Vec<Step>)
    ensures
        r@ == delete_removes_aggregate_steps(key),
{
    let steps: Vec<Step> = vec![
        start("delete_removes_aggregate", plain()),
        must(Action::Connect(Who::A)),
        make_stream(key, 3),
        must(Action::Delete(Who::A, delete_one(key, false, false))),
        step(
            Action::Read(Who::A, key, 1),
            Expect::RefusedWith(READ_MISSING),
            "after delete, read: expected AggregateNotExists, got {reply}",
        ),
    ];
    assert(steps@ =~= delete_removes_aggregate_steps(key));
    steps
}

/// What [`delete_removes_aggregate`] demands of the replies, one for each of its steps.
pub open spec fn delete_removes_aggregate_holds(history: Seq<Reply>) -> bool {
    &&& history.len() == 5
    &&& accepted_through(history, 0, 3)
    &&& history[4] == Reply::Refused(Refusal::Coded(READ_MISSING))
}

/// [`delete_removes_aggregate`] passes exactly on the replies that it demands.
pub proof fn delete_removes_aggregate_passes(key: AggregateKey, history: Seq<Reply>)
    ensures
        passes(delete_removes_aggregate_steps(key), history)
            <==> delete_removes_aggregate_holds(history),
{
    broadcast use group_judgement;

    let steps = delete_removes_aggregate_steps(key);
    passing_is_step_by_step(steps, history);
    reveal_with_fuel(met_before, 6);
}

/// The steps of [`delete_no_recreate_blocks_rewrite`].
pub open spec fn delete_no_recreate_blocks_rewrite_steps(key: AggregateKey) -> Seq<Step> {
    seq![
        start("delete_no_recreate_blocks_rewrite", plain()),
        must(Action::Connect(Who::A)),
        make_stream(key, 2),
        must(Action::Delete(Who::A, delete_one(key, false, false))),
        step(
            Action::Write(Who::A, recreate(key, Payload::Text("{}"))),
            Expect::RefusedWith(RECREATE_NOT_ALLOWED),
            "expected WriteError::AggregateRecreateNotAllowed, got {reply}",
        ),
    ]
}

/// A key that was deleted for good cannot be written again.
pub fn delete_no_recreate_blocks_rewrite(key: AggregateKey) -> (r: Vec<Step>)
    ensures
        r@ == delete_no_recreate_blocks_rewrite_steps(key),
{
    let steps: Vec<Step> = vec![
        start("delete_no_recreate_blocks_rewrite", plain()),
        must(Action::Connect(Who::A)),
        make_stream(key, 2),
        must(Action::Delete(Who::A, delete_one(key, false, false))),
        step(
            Action::Write(Who::A, recreate(key, Payload::Text("{}"))),
            Expect::RefusedWith(RECREATE_NOT_ALLOWED),
            "expected WriteError::AggregateRecreateNotAllowed, got {reply}",
        ),
    ];
    assert(steps@ =~= delete_no_recreate_blocks_rewrite_steps(key));
    steps
}

/// What [`delete_no_recreate_blocks_rewrite`] demands of the replies, one for each of its steps.
pub open spec fn delete_no_recreate_blocks_rewrite_holds(history: Seq<Reply>) -> bool {
    &&& history.len() == 5
    &&& accepted_through(history, 0, 3)
    &&& history[4] == Reply::Refused(Refusal::Coded(RECREATE_NOT_ALLOWED))
}

/// [`delete_no_recreate_blocks_rewrite`] passes exactly on the replies that it demands.
pub proof fn delete_no_recreate_blocks_rewrite_passes(key: AggregateKey, history: Seq<Reply>)
    ensures
        passes(delete_no_recreate_blocks_rewrite_steps(key), history)
            <==> delete_no_recreate_blocks_rewrite_holds(history),
{
    broadcast use group_judgement;

    let steps = delete_no_recreate_blocks_rewrite_steps(key);
    passing_is_step_by_step(steps, history);
    reveal_with_fuel(met_before, 6);
}

/// The steps of [`delete_recreate_allows_rewrite`].
pub open spec fn delete_recreate_allows_rewrite_steps(key: AggregateKey) -> Seq<Step> {
    seq![
        start("delete_recreate_allows_rewrite", plain()),
        must(Action::Connect(Who::A)),
        make_stream(key, 2),
        must(Action::Delete(Who::A, delete_one(key, true, false))),
        must(Action::Write(Who::A, recreate(key, Payload::Text("{\"reborn\":true}")))),
        step(
            Action::ReadAll(Who::A, key),
            Expect::Stream(StreamRule::NotEmpty),
            "recreated aggregate has no events",
        ),
        step(
            Action::Recall(5),
            Expect::Stream(StreamRule::LastHolds("reborn")),
            "recreated aggregate missing the new event, last payload: {last_payload}",
        ),
    ]
}

/// A key that was deleted with leave to come back can be written again.
pub fn delete_recreate_allows_rewrite(key: AggregateKey) -> (r: Vec<Step>)
    ensures
        r@ == delete_recreate_allows_rewrite_steps(key),
{
    let steps: Vec<Step> = vec![
        start("delete_recreate_allows_rewrite", plain()),
        must(Action::Connect(Who::A)),
        make_stream(key, 2),
        must(Action::Delete(Who::A, delete_one(key, true, false))),
        must(Action::Write(Who::A, recreate(key, Payload::Text("{\"reborn\":true}")))),
        step(
            Action::ReadAll(Who::A, key),
            Expect::Stream(StreamRule::NotEmpty),
            "recreated aggregate has no events",
        ),
        step(
            Action::Recall(5),
            Expect::Stream(StreamRule::LastHolds("reborn")),
            "recreated aggregate missing the new event, last payload: {last_payload}",
        ),
    ];
    assert(steps@ =~= delete_recreate_allows_rewrite_steps(key));
    steps
}

/// What [`delete_recreate_allows_rewrite`] demands of the replies, one for each of its steps.
pub open spec fn delete_recreate_allows_rewrite_holds(history: Seq<Reply>) -> bool {
    &&& history.len() == 7
    &&& accepted_through(history, 0, 4)
    &&& history[5] matches Reply::Batches(b) && b@.len() > 0
    &&& history[5] matches Reply::Batches(b)
        && b@.len() > 0
        && b@.last().events@.len() > 0
        && holds_text(b@.last().events@[0].value@, "reborn"@)
}

/// [`delete_recreate_allows_rewrite`] passes exactly on the replies that it demands.
pub proof fn delete_recreate_allows_rewrite_passes(key: AggregateKey, history: Seq<Reply>)
    ensures
        passes(delete_recreate_allows_rewrite_steps(key), history)
            <==> delete_recreate_allows_rewrite_holds(history),
{
    broadcast use group_judgement;

    let steps = delete_recreate_allows_rewrite_steps(key);
    passing_is_step_by_step(steps, history);
    reveal_with_fuel(met_before, 8);
}

/// The steps of [`delete_conditional_guard`].
pub open spec fn delete_conditional_guard_steps(key: AggregateKey) -> Seq<Step> {
    seq![
        start("delete_conditional_guard", plain()),
        must(Action::Connect(Who::A)),
        make_stream(key, 3),
        step(
            Action::Delete(
                Who::A,
                Deletion { expected_version: Some(1), ..delete_one(key, false, false) },
            ),
            Expect::RefusedWith(DELETE_CONCURRENCY_VIOLATION),
            "expected DeleteError::OptimisticConcurrencyViolation, got {reply}",
        ),
        step(
            Action::Read(Who::A, key, 1),
            Expect::Stream(StreamRule::NotEmpty),
            "guarded delete still removed the aggregate",
        ),
    ]
}

/// A deletion that expects an older version is refused, and the aggregate stays.
pub fn delete_conditional_guard(key: AggregateKey) -> (r: Vec<Step>)
    ensures
        r@ == delete_conditional_guard_steps(key),
{
    let steps: Vec<Step> = vec![
        start("delete_conditional_guard", plain()),
        must(Action::Connect(Who::A)),
        make_stream(key, 3),
        step(
            Action::Delete(
                Who::A,
                Deletion { expected_version: Some(1), ..delete_one(key, false, false) },
            ),
            Expect::RefusedWith(DELETE_CONCURRENCY_VIOLATION),
            "expected DeleteError::OptimisticConcurrencyViolation, got {reply}",
        ),
        step(
            Action::Read(Who::A, key, 1),
            Expect::Stream(StreamRule::NotEmpty),
            "guarded delete still removed the aggregate",
        ),
    ];
    assert(steps@ =~= delete_conditional_guard_steps(key));
    steps
}

/// What [`delete_conditional_guard`] demands of the replies, one for each of its steps.
pub open spec fn delete_conditional_guard_holds(history: Seq<Reply>) -> bool {
    &&& history.len() == 5
    &&& accepted_through(history, 0, 2)
    &&& history[3] == Reply::Refused(Refusal::Coded(DELETE_CONCURRENCY_VIOLATION))
    &&& history[4] matches Reply::Batches(b) && b@.len() > 0
}

/// [`delete_conditional_guard`] passes exactly on the replies that it demands.
pub proof fn delete_conditional_guard_passes(key: AggregateKey, history: Seq<Reply>)
    ensures
        passes(delete_conditional_guard_steps(key), history)
            <==> delete_conditional_guard_holds(history),
{
    broadcast use group_judgement;

    let steps = delete_conditional_guard_steps(key);
    passing_is_step_by_step(steps, history);
    reveal_with_fuel(met_before, 6);
}

/// The steps of [`delete_missing_rejected`].
pub open spec fn delete_missing_rejected_steps(key: AggregateKey) -> Seq<Step> {
    seq![
        start("delete_missing_rejected", plain()),
        must(Action::Connect(Who::A)),
        step(
            Action::Delete(Who::A, delete_one(key, false, false)),
            Expect::RefusedWith(DELETE_MISSING),
            "expected DeleteError::AggregateNotExists, got {reply}",
        ),
    ]
}

/// A deletion of an aggregate that does not exist is refused.
pub fn delete_missing_rejected(key: AggregateKey) -> (r: Vec<Step>)
    ensures
        r@ == delete_missing_rejected_steps(key),
{
    let steps: Vec<Step> = vec![
        start("delete_missing_rejected", plain()),
        must(Action::Connect(Who::A)),
        step(
            Action::Delete(Who::A, delete_one(key, false, false)),
            Expect::RefusedWith(DELETE_MISSING),
            "expected DeleteError::AggregateNotExists, got {reply}",
        ),
    ];
    assert(steps@ =~= delete_missing_rejected_steps(key));
    steps
}

/// What [`delete_missing_rejected`] demands of the replies, one for each of its steps.
pub open spec fn delete_missing_rejected_holds(history: Seq<Reply>) -> bool {
    &&& history.len() == 3
    &&& !turned_down(history[0])
    &&& !turned_down(history[1])
    &&& history[2] == Reply::Refused(Refusal::Coded(DELETE_MISSING))
}

/// [`delete_missing_rejected`] passes exactly on the replies that it demands.
pub proof fn delete_missing_rejected_passes(key: AggregateKey, history: Seq<Reply>)
    ensures
        passes(delete_missing_rejected_steps(key), history)
            <==> delete_missing_rejected_holds(history),
{
    broadcast use group_judgement;

    let steps = delete_missing_rejected_steps(key);
    passing_is_step_by_step(steps, history);
    reveal_with_fuel(met_before, 4);
}

/// The steps of [`delete_sequence_continuation`].
pub open spec fn delete_sequence_continuation_steps(continued: AggregateKey, restarted: AggregateKey) -> Seq<Step> {
    seq![
        start("delete_sequence_continuation", plain()),
        must(Action::Connect(Who::A)),
        must(
            Action::WriteSequence(
                Who::A,
                Sequence {
                    key: continued,
                    lo: 1,
                    hi: 3,
                    event_type_major: TYPE,
                    payload: Payload::Text("{}"),
                    guarded: false,
                },
            ),
        ),
        must(Action::LastSequence(Who::A, continued)),
        must(Action::Delete(Who::A, delete_one(continued, true, true))),
        must(Action::Write(Who::A, recreate(continued, Payload::Text("{}")))),
        must(Action::LastSequence(Who::A, continued)),
        must(
            Action::WriteSequence(
                Who::A,
                Sequence {
                    key: restarted,
                    lo: 1,
                    hi: 3,
                    event_type_major: TYPE,
                    payload: Payload::Text("{}"),
                    guarded: false,
                },
            ),
        ),
        must(Action::LastSequence(Who::A, restarted)),
        must(Action::Delete(Who::A, delete_one(restarted, true, false))),
        must(Action::Write(Who::A, recreate(restarted, Payload::Text("{}")))),
        must(Action::LastSequence(Who::A, restarted)),
        step(
            Action::Recall(6),
            Expect::Number(NumberRule::Next(3)),
            "continuation=true: max_event_seq {got}, expected pre+1 = {next}",
        ),
        step(
            Action::Recall(11),
            Expect::Number(NumberRule::NotAbove(8)),
            "continuation=false: max_event_seq advanced to {got} past pre {was}; expected no continuation",
        ),
        step(
            Action::Recall(6),
            Expect::Number(NumberRule::Differs(11)),
            "continuation flag had no effect: both ended at max_event_seq {got}",
        ),
    ]
}

/// Whether a stream that comes back counts on from where it ended is for the deletion to say: with
/// continuation its next number follows the last. Without it the numbers begin anew; what can be
/// read is the highest number so far, which never falls, so it may stay where it was but not rise.
pub fn delete_sequence_continuation(
    continued: AggregateKey,
    restarted: AggregateKey,
) -> (r: Vec<Step>)
    ensures
        r@ == delete_sequence_continuation_steps(continued, restarted),
{
    let steps: Vec<Step> = vec![
        start("delete_sequence_continuation", plain()),
        must(Action::Connect(Who::A)),
        must(
            Action::WriteSequence(
                Who::A,
                Sequence {
                    key: continued,
                    lo: 1,
                    hi: 3,
                    event_type_major: TYPE,
                    payload: Payload::Text("{}"),
                    guarded: false,
                },
            ),
        ),
        must(Action::LastSequence(Who::A, continued)),
        must(Action::Delete(Who::A, delete_one(continued, true, true))),
        must(Action::Write(Who::A, recreate(continued, Payload::Text("{}")))),
        must(Action::LastSequence(Who::A, continued)),
        must(
            Action::WriteSequence(
                Who::A,
                Sequence {
                    key: restarted,
                    lo: 1,
                    hi: 3,
                    event_type_major: TYPE,
                    payload: Payload::Text("{}"),
                    guarded: false,
                },
            ),
        ),
        must(Action::LastSequence(Who::A, restarted)),
        must(Action::Delete(Who::A, delete_one(restarted, true, false))),
        must(Action::Write(Who::A, recreate(restarted, Payload::Text("{}")))),
        must(Action::LastSequence(Who::A, restarted)),
        step(
            Action::Recall(6),
            Expect::Number(NumberRule::Next(3)),
            "continuation=true: max_event_seq {got}, expected pre+1 = {next}",
        ),
        step(
            Action::Recall(11),
            Expect::Number(NumberRule::NotAbove(8)),
            "continuation=false: max_event_seq advanced to {got} past pre {was}; expected no continuation",
        ),
        step(
            Action::Recall(6),
            Expect::Number(NumberRule::Differs(11)),
            "continuation flag had no effect: both ended at max_event_seq {got}",
        ),
    ];
    assert(steps@ =~= delete_sequence_continuation_steps(continued, restarted));
    steps
}

/// What [`delete_sequence_continuation`] demands of the replies, one for each of its steps.
pub open spec fn delete_sequence_continuation_holds(history: Seq<Reply>) -> bool {
    &&& history.len() == 15
    &&& accepted_through(history, 0, 11)
    &&& history[3] matches Reply::Number(m) && (history[6] matches Reply::Number(n) && n == m + 1)
    &&& history[8] matches Reply::Number(m) && (history[11] matches Reply::Number(n) && n <= m)
    &&& history[11] matches Reply::Number(m) && (history[6] matches Reply::Number(n) && n != m)
}

/// [`delete_sequence_continuation`] passes exactly on the replies that it demands.
pub proof fn delete_sequence_continuation_passes(
    continued: AggregateKey,
    restarted: AggregateKey,
    history: Seq<Reply>,
)
    ensures
        passes(delete_sequence_continuation_steps(continued, restarted), history)
            <==> delete_sequence_continuation_holds(history),
{
    broadcast use group_judgement;

    let steps = delete_sequence_continuation_steps(continued, restarted);
    passing_is_step_by_step(steps, history);
    reveal_with_fuel(met_before, 16);
}

/// The steps of [`delete_cross_shard_rejected`].
pub open spec fn delete_cross_shard_rejected_steps() -> Seq<Step> {
    seq![
        start("p3_delete_cross_shard", standalone(4)),
        must(Action::Connect(Who::A)),
        must(
            Action::Write(
                Who::A,
                Write {
                    allow_create: true,
                    ..append(AggregateKey::new(1, 1, 1000), 1, TYPE, 1000, Payload::Text("{}"))
                },
            ),
        ),
        must(
            Action::Write(
                Who::A,
                Write {
                    allow_create: true,
                    ..append(AggregateKey::new(1, 1, 1001), 1, TYPE, 1000, Payload::Text("{}"))
                },
            ),
        ),
        step(
            Action::DeleteTogether(
                Who::A,
                delete_one(AggregateKey::new(1, 1, 1000), false, false),
                delete_one(AggregateKey::new(1, 1, 1001), false, false),
            ),
            Expect::RefusedWith(MULTIPLE_SHARDS),
            "expected ShardRouting 9001 for cross-shard delete, got {reply}",
        ),
        step(
            Action::ReadAll(Who::A, AggregateKey::new(1, 1, 1000)),
            Expect::Stream(StreamRule::Count(1)),
            "cross-shard delete affected (1, 1, 1000); the whole request must be rejected",
        ),
        step(
            Action::ReadAll(Who::A, AggregateKey::new(1, 1, 1001)),
            Expect::Stream(StreamRule::Count(1)),
            "cross-shard delete affected (1, 1, 1001); the whole request must be rejected",
        ),
    ]
}

/// A deletion of aggregates of different shards is refused as a whole.
pub fn delete_cross_shard_rejected() -> (r: Vec<Step>)
    ensures
        r@ == delete_cross_shard_rejected_steps(),
{
    let steps: Vec<Step> = vec![
        start("p3_delete_cross_shard", standalone(4)),
        must(Action::Connect(Who::A)),
        must(
            Action::Write(
                Who::A,
                Write {
                    allow_create: true,
                    ..append(AggregateKey::new(1, 1, 1000), 1, TYPE, 1000, Payload::Text("{}"))
                },
            ),
        ),
        must(
            Action::Write(
                Who::A,
                Write {
                    allow_create: true,
                    ..append(AggregateKey::new(1, 1, 1001), 1, TYPE, 1000, Payload::Text("{}"))
                },
            ),
        ),
        step(
            Action::DeleteTogether(
                Who::A,
                delete_one(AggregateKey::new(1, 1, 1000), false, false),
                delete_one(AggregateKey::new(1, 1, 1001), false, false),
            ),
            Expect::RefusedWith(MULTIPLE_SHARDS),
            "expected ShardRouting 9001 for cross-shard delete, got {reply}",
        ),
        step(
            Action::ReadAll(Who::A, AggregateKey::new(1, 1, 1000)),
            Expect::Stream(StreamRule::Count(1)),
            "cross-shard delete affected (1, 1, 1000); the whole request must be rejected",
        ),
        step(
            Action::ReadAll(Who::A, AggregateKey::new(1, 1, 1001)),
            Expect::Stream(StreamRule::Count(1)),
            "cross-shard delete affected (1, 1, 1001); the whole request must be rejected",
        ),
    ];
    assert(steps@ =~= delete_cross_shard_rejected_steps());
    steps
}

/// What [`delete_cross_shard_rejected`] demands of the replies, one for each of its steps.
pub open spec fn delete_cross_shard_rejected_holds(history: Seq<Reply>) -> bool {
    &&& history.len() == 7
    &&& accepted_through(history, 0, 3)
    &&& history[4] == Reply::Refused(Refusal::Coded(MULTIPLE_SHARDS))
    &&& history[5] matches Reply::Batches(b) && b@.len() == 1
    &&& history[6] matches Reply::Batches(b) && b@.len() == 1
}

/// [`delete_cross_shard_rejected`] passes exactly on the replies that it demands.
pub proof fn delete_cross_shard_rejected_passes(history: Seq<Reply>)
    ensures
        passes(delete_cross_shard_rejected_steps(), history)
            <==> delete_cross_shard_rejected_holds(history),
{
    broadcast use group_judgement;

    let steps = delete_cross_shard_rejected_steps();
    passing_is_step_by_step(steps, history);
    reveal_with_fuel(met_before, 8);
}

/// [`trim_drops_prefix`] reads what is left of a stream from the version that was kept to its end,
/// and asks for the refusal of a read from before that.
pub proof fn trim_drops_prefix_fits(key: AggregateKey, winner: u64)
    ensures
        all_fit(trim_drops_prefix_steps(key), winner),
{
    let steps = trim_drops_prefix_steps(key);
    reveal_with_fuel(server_at, 9);
    reveal_with_fuel(fit_before, 9);
    a_first_run_is_taken(
        nothing(),
        steps[2].action->WriteSequence_1,
        0,
        10,
    );
    fitting_is_step_by_step(steps, winner, 8);
}

/// [`trim_preserves_remaining`] reads the same versions before and after what stands in front of
/// them is dropped.
pub proof fn trim_preserves_remaining_fits(key: AggregateKey, winner: u64)
    ensures
        all_fit(trim_preserves_remaining_steps(key), winner),
{
    let steps = trim_preserves_remaining_steps(key);
    reveal_with_fuel(server_at, 9);
    reveal_with_fuel(fit_before, 9);
    a_first_run_is_taken(
        nothing(),
        steps[2].action->WriteSequence_1,
        0,
        8,
    );
    assert(looks_at(steps[7], 3));
    assert(looks_at(steps[6], 5));
    let h = under(server_at(steps, winner, 3), key);
    assert(h.kept.skip(3).skip(0) =~= h.kept.skip(3));
    fitting_is_step_by_step(steps, winner, 8);
}

/// Where [`trim_preserves_remaining`] passes, the stream that was read after the trim has the
/// versions, the events and the bytes of the one that was read before it.
pub proof fn trim_preserves_remaining_keeps_every_byte(
    key: AggregateKey,
    history: Seq<Reply>,
    before: Vec<Batch>,
    after: Vec<Batch>,
    i: int,
    k: int,
    p: int,
)
    requires
        passes(trim_preserves_remaining_steps(key), history),
        history[3] == Reply::Batches(before),
        history[5] == Reply::Batches(after),
        0 <= i < before@.len(),
        0 <= k < before@[i].events@.len(),
        0 <= p < before@[i].events@[k].value@.len(),
    ensures
        after@.len() == before@.len(),
        after@[i].version == before@[i].version,
        after@[i].events@.len() == before@[i].events@.len(),
        after@[i].events@[k].client_seq == before@[i].events@[k].client_seq,
        after@[i].events@[k].value@.len() == before@[i].events@[k].value@.len(),
        after@[i].events@[k].value@[p] == before@[i].events@[k].value@[p],
{
    let steps = trim_preserves_remaining_steps(key);
    assert(met_at(steps, history, 6));
    a_stream_read_again_is_the_same(
        3,
        history.take(6),
        recollection(steps, history.take(6)),
        before,
        after,
        i,
        k,
        p,
    );
}

/// [`trim_out_of_range_rejected`] keeps from a version that the stream has not reached.
pub proof fn trim_out_of_range_rejected_fits(key: AggregateKey, winner: u64)
    ensures
        all_fit(trim_out_of_range_rejected_steps(key), winner),
{
    let steps = trim_out_of_range_rejected_steps(key);
    reveal_with_fuel(server_at, 5);
    reveal_with_fuel(fit_before, 5);
    a_first_run_is_taken(
        nothing(),
        steps[2].action->WriteSequence_1,
        0,
        3,
    );
    fitting_is_step_by_step(steps, winner, 4);
}

/// [`trim_missing_rejected`] trims an aggregate that was never written to.
pub proof fn trim_missing_rejected_fits(key: AggregateKey, winner: u64)
    ensures
        all_fit(trim_missing_rejected_steps(key), winner),
{
    let steps = trim_missing_rejected_steps(key);
    reveal_with_fuel(server_at, 4);
    reveal_with_fuel(fit_before, 4);
    fitting_is_step_by_step(steps, winner, 3);
}

/// [`delete_removes_aggregate`] deletes an aggregate that exists and finds it missing.
pub proof fn delete_removes_aggregate_fits(key: AggregateKey, winner: u64)
    ensures
        all_fit(delete_removes_aggregate_steps(key), winner),
{
    let steps = delete_removes_aggregate_steps(key);
    reveal_with_fuel(server_at, 6);
    reveal_with_fuel(fit_before, 6);
    a_first_run_is_taken(
        nothing(),
        steps[2].action->WriteSequence_1,
        0,
        3,
    );
    fitting_is_step_by_step(steps, winner, 5);
}

/// [`delete_no_recreate_blocks_rewrite`] deletes for good, and asks for the refusal of a write
/// that would create the aggregate.
pub proof fn delete_no_recreate_blocks_rewrite_fits(key: AggregateKey, winner: u64)
    ensures
        all_fit(delete_no_recreate_blocks_rewrite_steps(key), winner),
{
    let steps = delete_no_recreate_blocks_rewrite_steps(key);
    reveal_with_fuel(server_at, 6);
    reveal_with_fuel(fit_before, 6);
    a_first_run_is_taken(
        nothing(),
        steps[2].action->WriteSequence_1,
        0,
        2,
    );
    fitting_is_step_by_step(steps, winner, 5);
}

/// [`delete_recreate_allows_rewrite`] deletes an aggregate that may come back, makes it again and
/// reads the write that did so last.
pub proof fn delete_recreate_allows_rewrite_fits(key: AggregateKey, winner: u64)
    ensures
        all_fit(delete_recreate_allows_rewrite_steps(key), winner),
{
    let steps = delete_recreate_allows_rewrite_steps(key);
    reveal_with_fuel(server_at, 8);
    reveal_with_fuel(fit_before, 8);
    a_first_run_is_taken(
        nothing(),
        steps[2].action->WriteSequence_1,
        0,
        2,
    );
    lemma_reborn();
    fitting_is_step_by_step(steps, winner, 7);
}

proof fn lemma_reborn()
    ensures
        part_of("reborn"@, "{\"reborn\":true}"@),
{
    reveal_strlit("{\"reborn\":true}");
    reveal_strlit("reborn");
    let part = "reborn"@;
    assert("{\"reborn\":true}"@.subrange(2int, 2int + part.len()) =~= part);
}

/// [`delete_conditional_guard`] deletes at a version that the stream has passed, which must be
/// refused, and reads the stream.
pub proof fn delete_conditional_guard_fits(key: AggregateKey, winner: u64)
    ensures
        all_fit(delete_conditional_guard_steps(key), winner),
{
    let steps = delete_conditional_guard_steps(key);
    reveal_with_fuel(server_at, 6);
    reveal_with_fuel(fit_before, 6);
    a_first_run_is_taken(
        nothing(),
        steps[2].action->WriteSequence_1,
        0,
        3,
    );
    fitting_is_step_by_step(steps, winner, 5);
}

/// [`delete_missing_rejected`] deletes an aggregate that was never written to.
pub proof fn delete_missing_rejected_fits(key: AggregateKey, winner: u64)
    ensures
        all_fit(delete_missing_rejected_steps(key), winner),
{
    let steps = delete_missing_rejected_steps(key);
    reveal_with_fuel(server_at, 4);
    reveal_with_fuel(fit_before, 4);
    fitting_is_step_by_step(steps, winner, 3);
}

/// [`delete_sequence_continuation`] deletes two aggregates and makes them again; the events of the
/// one are counted on and those of the other from the start.
pub proof fn delete_sequence_continuation_fits(
    continued: AggregateKey,
    restarted: AggregateKey,
    winner: u64,
)
    requires
        continued != restarted,
    ensures
        all_fit(delete_sequence_continuation_steps(continued, restarted), winner),
{
    let steps = delete_sequence_continuation_steps(continued, restarted);
    lemma_continued(continued, restarted, winner);
    lemma_restarted(continued, restarted, winner);
    assert forall|k: nat| k < steps.len() implies #[trigger] fits(steps, winner, k) by {
        if k >= 12 {
            assert(k == 12 || k == 13 || k == 14);
        }
    }
}

proof fn lemma_continued(continued: AggregateKey, restarted: AggregateKey, winner: u64)
    requires
        continued != restarted,
    ensures
        ({
            let steps = delete_sequence_continuation_steps(continued, restarted);
            &&& forall|k: nat| k < 7 ==> #[trigger] fits(steps, winner, k)
            &&& number_at(steps, winner, 3) == Some(3nat)
            &&& number_at(steps, winner, 6) == Some(4nat)
            &&& under(server_at(steps, winner, 7), restarted) == nothing()
        }),
{
    let steps = delete_sequence_continuation_steps(continued, restarted);
    reveal_with_fuel(server_at, 8);
    a_first_run_is_taken(nothing(), steps[2].action->WriteSequence_1, 0, 3);
    assert(looks_at(steps[12], 3));
    assert(looks_at(steps[12], 6));
}

proof fn lemma_restarted(continued: AggregateKey, restarted: AggregateKey, winner: u64)
    requires
        continued != restarted,
    ensures
        ({
            let steps = delete_sequence_continuation_steps(continued, restarted);
            &&& forall|k: nat| 7 <= k < 12 ==> #[trigger] fits(steps, winner, k)
            &&& number_at(steps, winner, 8) == Some(3nat)
            &&& number_at(steps, winner, 11) == Some(1nat)
        }),
{
    let steps = delete_sequence_continuation_steps(continued, restarted);
    lemma_continued(continued, restarted, winner);
    reveal_with_fuel(server_at, 6);
    a_first_run_is_taken(nothing(), steps[7].action->WriteSequence_1, 0, 3);
    assert(looks_at(steps[13], 8));
    assert(looks_at(steps[13], 11));
}

/// [`delete_cross_shard_rejected`] deletes two aggregates of different shards, each of which could
/// be deleted alone, and reads both.
pub proof fn delete_cross_shard_rejected_fits(winner: u64)
    ensures
        all_fit(delete_cross_shard_rejected_steps(), winner),
{
    let steps = delete_cross_shard_rejected_steps();
    reveal_with_fuel(server_at, 8);
    reveal_with_fuel(fit_before, 8);
    fitting_is_step_by_step(steps, winner, 7);
}

} // verus!
