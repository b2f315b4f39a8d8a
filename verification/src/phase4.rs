//! Schemas: what is held against one, and what is not.

use crate::bench::{Node, NodeConfig, Who, named, plain};
use crate::expect::{Expect, StreamRule, group_judgement, holds_text, turned_down};
use crate::model::{
    AggregateKey, Payload, READ_MISSING, Refusal, SCHEMA_EXISTS, SCHEMA_INVALID,
    SCHEMA_VALIDATION_FAILED, Write, append,
};
use crate::reply::Reply;
use crate::script::{
    Action, Step, accepted_through, either, met_before, must, passes, passing_is_step_by_step, step,
};
use vstd::prelude::*;

verus! {

/// The organisation whose events are held against schemas.
pub const ORG: u128 = 7000;

/// The aggregate type whose events are held against schemas.
pub const ATYPE: u128 = 42;

/// The registration of a schema that wants an integer `amount`.
#[verifier::allow_in_spec]
pub fn register(major: u64, minor: u64) -> Action
    returns
        (Action::RegisterSchema {
            org: ORG,
            kind: ATYPE,
            major,
            minor,
            schema: "{\"type\":\"object\",\"properties\":{\"amount\":{\"type\":\"integer\"}},\"required\":[\"amount\"]}",
        }),
{
    Action::RegisterSchema {
        org: ORG,
        kind: ATYPE,
        major,
        minor,
        schema: "{\"type\":\"object\",\"properties\":{\"amount\":{\"type\":\"integer\"}},\"required\":[\"amount\"]}",
    }
}

/// A first event of type 1 and the minor version `minor`.
#[verifier::allow_in_spec]
pub fn typed(aggregate_id: u128, minor: u64, text: &'static str) -> Write
    returns
        (Write {
            allow_create: true,
            event_type_minor: minor,
            ..append(AggregateKey::new(ORG, ATYPE, aggregate_id), 1, 1, 1000, Payload::Text(text))
        }),
{
    Write {
        allow_create: true,
        event_type_minor: minor,
        ..append(AggregateKey::new(ORG, ATYPE, aggregate_id), 1, 1, 1000, Payload::Text(text))
    }
}

/// The start of the node `A` on its own.
#[verifier::allow_in_spec]
pub fn start(name: &'static str, config: NodeConfig) -> Step
    returns
        (must(Action::StartNode { node: Node::A, port: named(name, 0), label: None, config })),
{
    must(Action::StartNode { node: Node::A, port: named(name, 0), label: None, config })
}

/// The steps of [`schema_rejects_bad_event`].
pub open spec fn schema_rejects_bad_event_steps() -> Seq<Step> {
    seq![
        start("schema_rejects_bad_event", plain()),
        must(Action::Connect(Who::A)),
        must(register(1, 0)),
        step(
            Action::Write(Who::A, typed(1, 0, "{\"amount\":\"not-an-integer\"}")),
            Expect::RefusedWith(SCHEMA_VALIDATION_FAILED),
            "expected SchemaError::ValidationFailed, got {reply}",
        ),
        either(
            Action::ReadAll(Who::A, AggregateKey::new(ORG, ATYPE, 1)),
            Expect::NothingStored,
            "rejected event still created {got} batches",
            "unexpected read error after rejected write: {reply}",
        ),
    ]
}

/// An event that does not conform to its schema is refused, and nothing is appended.
pub fn schema_rejects_bad_event() -> (r: Vec<Step>)
    ensures
        r@ == schema_rejects_bad_event_steps(),
{
    let steps: Vec<Step> = vec![
        start("schema_rejects_bad_event", plain()),
        must(Action::Connect(Who::A)),
        must(register(1, 0)),
        step(
            Action::Write(Who::A, typed(1, 0, "{\"amount\":\"not-an-integer\"}")),
            Expect::RefusedWith(SCHEMA_VALIDATION_FAILED),
            "expected SchemaError::ValidationFailed, got {reply}",
        ),
        either(
            Action::ReadAll(Who::A, AggregateKey::new(ORG, ATYPE, 1)),
            Expect::NothingStored,
            "rejected event still created {got} batches",
            "unexpected read error after rejected write: {reply}",
        ),
    ];
    assert(steps@ =~= schema_rejects_bad_event_steps());
    steps
}

/// What [`schema_rejects_bad_event`] demands of the replies, one for each of its steps.
pub open spec fn schema_rejects_bad_event_holds(history: Seq<Reply>) -> bool {
    &&& history.len() == 5
    &&& accepted_through(history, 0, 2)
    &&& history[3] == Reply::Refused(Refusal::Coded(SCHEMA_VALIDATION_FAILED))
    &&& history[4] == Reply::Refused(Refusal::Coded(READ_MISSING)) || (
        history[4] matches Reply::Batches(b) && b@.len() == 0
    )
}

/// [`schema_rejects_bad_event`] passes exactly on the replies that it demands.
pub proof fn schema_rejects_bad_event_passes(history: Seq<Reply>)
    ensures
        passes(schema_rejects_bad_event_steps(), history)
            <==> schema_rejects_bad_event_holds(history),
{
    broadcast use group_judgement;

    let steps = schema_rejects_bad_event_steps();
    passing_is_step_by_step(steps, history);
    reveal_with_fuel(met_before, 6);
}

/// The steps of [`schema_accepts_good_event`].
pub open spec fn schema_accepts_good_event_steps() -> Seq<Step> {
    seq![
        start("schema_accepts_good_event", plain()),
        must(Action::Connect(Who::A)),
        must(register(1, 0)),
        must(Action::Write(Who::A, typed(2, 0, "{\"amount\":42}"))),
        step(
            Action::ReadAll(Who::A, AggregateKey::new(ORG, ATYPE, 2)),
            Expect::Stream(StreamRule::Count(1)),
            "conforming event: expected 1 batch, got {got}",
        ),
        step(
            Action::Recall(4),
            Expect::Stream(StreamRule::FirstHolds("\"amount\":42")),
            "stored payload altered: {first_payload}",
        ),
    ]
}

/// An event that conforms to its schema is appended as it is.
pub fn schema_accepts_good_event() -> (r: Vec<Step>)
    ensures
        r@ == schema_accepts_good_event_steps(),
{
    let steps: Vec<Step> = vec![
        start("schema_accepts_good_event", plain()),
        must(Action::Connect(Who::A)),
        must(register(1, 0)),
        must(Action::Write(Who::A, typed(2, 0, "{\"amount\":42}"))),
        step(
            Action::ReadAll(Who::A, AggregateKey::new(ORG, ATYPE, 2)),
            Expect::Stream(StreamRule::Count(1)),
            "conforming event: expected 1 batch, got {got}",
        ),
        step(
            Action::Recall(4),
            Expect::Stream(StreamRule::FirstHolds("\"amount\":42")),
            "stored payload altered: {first_payload}",
        ),
    ];
    assert(steps@ =~= schema_accepts_good_event_steps());
    steps
}

/// What [`schema_accepts_good_event`] demands of the replies, one for each of its steps.
pub open spec fn schema_accepts_good_event_holds(history: Seq<Reply>) -> bool {
    &&& history.len() == 6
    &&& accepted_through(history, 0, 3)
    &&& history[4] matches Reply::Batches(b) && b@.len() == 1
    &&& history[4] matches Reply::Batches(b)
        && b@.len() > 0
        && b@.first().events@.len() > 0
        && holds_text(b@.first().events@[0].value@, "\"amount\":42"@)
}

/// [`schema_accepts_good_event`] passes exactly on the replies that it demands.
pub proof fn schema_accepts_good_event_passes(history: Seq<Reply>)
    ensures
        passes(schema_accepts_good_event_steps(), history)
            <==> schema_accepts_good_event_holds(history),
{
    broadcast use group_judgement;

    let steps = schema_accepts_good_event_steps();
    passing_is_step_by_step(steps, history);
    reveal_with_fuel(met_before, 7);
}

/// The steps of [`schema_duplicate_register_rejected`].
pub open spec fn schema_duplicate_register_rejected_steps() -> Seq<Step> {
    seq![
        start("schema_duplicate_register_rejected", plain()),
        must(Action::Connect(Who::A)),
        must(register(5, 0)),
        step(
            register(5, 0),
            Expect::RefusedWith(SCHEMA_EXISTS),
            "expected SchemaError::AlreadyExists, got {reply}",
        ),
    ]
}

/// A schema is registered once.
pub fn schema_duplicate_register_rejected() -> (r: Vec<Step>)
    ensures
        r@ == schema_duplicate_register_rejected_steps(),
{
    let steps: Vec<Step> = vec![
        start("schema_duplicate_register_rejected", plain()),
        must(Action::Connect(Who::A)),
        must(register(5, 0)),
        step(
            register(5, 0),
            Expect::RefusedWith(SCHEMA_EXISTS),
            "expected SchemaError::AlreadyExists, got {reply}",
        ),
    ];
    assert(steps@ =~= schema_duplicate_register_rejected_steps());
    steps
}

/// What [`schema_duplicate_register_rejected`] demands of the replies, one for each of its steps.
pub open spec fn schema_duplicate_register_rejected_holds(history: Seq<Reply>) -> bool {
    &&& history.len() == 4
    &&& accepted_through(history, 0, 2)
    &&& history[3] == Reply::Refused(Refusal::Coded(SCHEMA_EXISTS))
}

/// [`schema_duplicate_register_rejected`] passes exactly on the replies that it demands.
pub proof fn schema_duplicate_register_rejected_passes(history: Seq<Reply>)
    ensures
        passes(schema_duplicate_register_rejected_steps(), history)
            <==> schema_duplicate_register_rejected_holds(history),
{
    broadcast use group_judgement;

    let steps = schema_duplicate_register_rejected_steps();
    passing_is_step_by_step(steps, history);
    reveal_with_fuel(met_before, 5);
}

/// The steps of [`schema_invalid_register_rejected`].
pub open spec fn schema_invalid_register_rejected_steps() -> Seq<Step> {
    seq![
        start("schema_invalid_register_rejected", plain()),
        must(Action::Connect(Who::A)),
        step(
            Action::RegisterSchema {
                org: ORG,
                kind: ATYPE,
                major: 6,
                minor: 0,
                schema: "{ this is not valid json schema ",
            },
            Expect::RefusedWith(SCHEMA_INVALID),
            "expected SchemaError::Invalid, got {reply}",
        ),
    ]
}

/// What is no schema is refused at its registration.
pub fn schema_invalid_register_rejected() -> (r: Vec<Step>)
    ensures
        r@ == schema_invalid_register_rejected_steps(),
{
    let steps: Vec<Step> = vec![
        start("schema_invalid_register_rejected", plain()),
        must(Action::Connect(Who::A)),
        step(
            Action::RegisterSchema {
                org: ORG,
                kind: ATYPE,
                major: 6,
                minor: 0,
                schema: "{ this is not valid json schema ",
            },
            Expect::RefusedWith(SCHEMA_INVALID),
            "expected SchemaError::Invalid, got {reply}",
        ),
    ];
    assert(steps@ =~= schema_invalid_register_rejected_steps());
    steps
}

/// What [`schema_invalid_register_rejected`] demands of the replies, one for each of its steps.
pub open spec fn schema_invalid_register_rejected_holds(history: Seq<Reply>) -> bool {
    &&& history.len() == 3
    &&& !turned_down(history[0])
    &&& !turned_down(history[1])
    &&& history[2] == Reply::Refused(Refusal::Coded(SCHEMA_INVALID))
}

/// [`schema_invalid_register_rejected`] passes exactly on the replies that it demands.
pub proof fn schema_invalid_register_rejected_passes(history: Seq<Reply>)
    ensures
        passes(schema_invalid_register_rejected_steps(), history)
            <==> schema_invalid_register_rejected_holds(history),
{
    broadcast use group_judgement;

    let steps = schema_invalid_register_rejected_steps();
    passing_is_step_by_step(steps, history);
    reveal_with_fuel(met_before, 4);
}

/// The steps of [`schema_unregistered_version_unvalidated`].
pub open spec fn schema_unregistered_version_unvalidated_steps() -> Seq<Step> {
    seq![
        start("schema_unregistered_version_unvalidated", plain()),
        must(Action::Connect(Who::A)),
        must(register(1, 0)),
        must(Action::Write(Who::A, typed(3, 1, "{\"totally\":\"unrelated\"}"))),
        step(
            Action::ReadAll(Who::A, AggregateKey::new(ORG, ATYPE, 3)),
            Expect::Stream(StreamRule::Count(1)),
            "unvalidated version: expected 1 batch, got {got}",
        ),
        step(
            Action::Recall(4),
            Expect::Stream(StreamRule::FirstMinor(1)),
            "stored event lost its minor version",
        ),
    ]
}

/// An event of a version that has no schema is not held against another version's.
pub fn schema_unregistered_version_unvalidated() -> (r: Vec<Step>)
    ensures
        r@ == schema_unregistered_version_unvalidated_steps(),
{
    let steps: Vec<Step> = vec![
        start("schema_unregistered_version_unvalidated", plain()),
        must(Action::Connect(Who::A)),
        must(register(1, 0)),
        must(Action::Write(Who::A, typed(3, 1, "{\"totally\":\"unrelated\"}"))),
        step(
            Action::ReadAll(Who::A, AggregateKey::new(ORG, ATYPE, 3)),
            Expect::Stream(StreamRule::Count(1)),
            "unvalidated version: expected 1 batch, got {got}",
        ),
        step(
            Action::Recall(4),
            Expect::Stream(StreamRule::FirstMinor(1)),
            "stored event lost its minor version",
        ),
    ];
    assert(steps@ =~= schema_unregistered_version_unvalidated_steps());
    steps
}

/// What [`schema_unregistered_version_unvalidated`] demands of the replies, one for each of its
/// steps.
pub open spec fn schema_unregistered_version_unvalidated_holds(history: Seq<Reply>) -> bool {
    &&& history.len() == 6
    &&& accepted_through(history, 0, 3)
    &&& history[4] matches Reply::Batches(b) && b@.len() == 1
    &&& history[4] matches Reply::Batches(b)
        && b@.len() > 0
        && b@.first().events@.len() > 0
        && b@.first().events@[0].event_type_minor == 1
}

/// [`schema_unregistered_version_unvalidated`] passes exactly on the replies that it demands.
pub proof fn schema_unregistered_version_unvalidated_passes(history: Seq<Reply>)
    ensures
        passes(schema_unregistered_version_unvalidated_steps(), history)
            <==> schema_unregistered_version_unvalidated_holds(history),
{
    broadcast use group_judgement;

    let steps = schema_unregistered_version_unvalidated_steps();
    passing_is_step_by_step(steps, history);
    reveal_with_fuel(met_before, 7);
}

} // verus!
