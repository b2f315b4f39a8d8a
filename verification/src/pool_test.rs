//! A pool of connections: its calls, the connections that it lends, and what a request that was
//! dropped leaves behind.

use crate::bench::{Port, run_port};
use crate::codec::random_id;
use crate::expect::{DetailsRule, Expect, StreamRule, group_judgement, turned_down};
use crate::model::{AggregateKey, Payload, Refusal};
use crate::reply::Reply;
use crate::script::{
    Action, Deletion, PoolCall, PoolWrite, Step, accepted_through, either, met_before, must, note,
    passes, passing_is_step_by_step, step,
};
use crate::text::{decimal, push_decimal};
use vstd::prelude::*;

verus! {

/// One event of these scenarios, as it goes out.
#[derive(Debug)]
pub struct PoolEvent {
    pub client_seq: u64,
    pub event_id: Option<u128>,
    pub timestamp: u64,
    pub event_type_major: u64,
    pub event_type_minor: u64,
    pub value: String,
}

/// An event of type 1.0 with this id and time.
pub fn make_event(client_seq: u64, payload: &str, event_id: u128, now_ms: u64) -> (r: PoolEvent)
    ensures
        r.client_seq == client_seq,
        r.event_id == Some(event_id),
        r.timestamp == now_ms,
        r.event_type_major == 1,
        r.event_type_minor == 0,
        r.value@ == payload@,
{
    PoolEvent {
        client_seq,
        event_id: Some(event_id),
        timestamp: now_ms,
        event_type_major: 1,
        event_type_minor: 0,
        value: payload.to_owned(),
    }
}

/// An event of type 1.0 with this time and an id that is drawn for it. Which id that is, nothing
/// says.
pub fn fresh_event(client_seq: u64, payload: &str, now_ms: u64) -> (r: PoolEvent)
    ensures
        r.client_seq == client_seq,
        r.event_id is Some,
        r.timestamp == now_ms,
        r.event_type_major == 1,
        r.event_type_minor == 0,
        r.value@ == payload@,
{
    make_event(client_seq, payload, random_id(), now_ms)
}

/// The aggregate that these scenarios number from 2001 on.
#[verifier::allow_in_spec]
pub fn key(aggregate_id: u128) -> AggregateKey
    returns
        (AggregateKey::new(20, 1, aggregate_id)),
{
    AggregateKey::new(20, 1, aggregate_id)
}

/// The aggregate that the scenarios with a dropped request number from 3001 on.
#[verifier::allow_in_spec]
pub fn other_key(aggregate_id: u128) -> AggregateKey
    returns
        (AggregateKey::new(21, 1, aggregate_id)),
{
    AggregateKey::new(21, 1, aggregate_id)
}

/// A first event, by the shorter call and as the client does it by itself.
#[verifier::allow_in_spec]
pub fn first_event(aggregate_id: u128, payload: Payload) -> Action
    returns
        (Action::Pool(
            PoolCall::WriteEvents(
                PoolWrite {
                    key: key(aggregate_id),
                    client_seq: 0,
                    payload,
                    client_id: 0,
                    guard: None,
                },
            ),
        )),
{
    Action::Pool(
        PoolCall::WriteEvents(
            PoolWrite { key: key(aggregate_id), client_seq: 0, payload, client_id: 0, guard: None },
        ),
    )
}

/// A first event that expects that there is none.
#[verifier::allow_in_spec]
pub fn creation(aggregate_id: u128, payload: Payload) -> PoolWrite
    returns
        (PoolWrite {
            key: key(aggregate_id),
            client_seq: 0,
            payload,
            client_id: 1,
            guard: Some((true, 0)),
        }),
{
    PoolWrite {
        key: key(aggregate_id),
        client_seq: 0,
        payload,
        client_id: 1,
        guard: Some((true, 0)),
    }
}

/// Event `i` of a stream, bound to the version before it.
#[verifier::allow_in_spec]
pub fn batch(key: AggregateKey, i: u64, payload: Payload, client_id: u128) -> Action
    returns
        (Action::Pool(
            PoolCall::WriteEvents(
                PoolWrite { key, client_seq: i, payload, client_id, guard: Some((i == 0, i)) },
            ),
        )),
{
    Action::Pool(
        PoolCall::WriteEvents(
            PoolWrite { key, client_seq: i, payload, client_id, guard: Some((i == 0, i)) },
        ),
    )
}

/// Event `i` of those that take a stream to a version of its own.
#[verifier::allow_in_spec]
pub fn seed(aggregate_id: u128, i: u64, name: &'static str) -> Step
    returns
        (step(
            batch(other_key(aggregate_id), i, Payload::Text("cancellation seed"), 2),
            Expect::Accepted,
            name,
        )),
{
    step(
        batch(other_key(aggregate_id), i, Payload::Text("cancellation seed"), 2),
        Expect::Accepted,
        name,
    )
}

/// A pool of one connection, so that the next request gets the connection of the one before.
#[verifier::allow_in_spec]
pub fn single_connection() -> Step
    returns
        (must(
            Action::Pool(PoolCall::Open { max_connections: Some(1), request_timeout_s: None }),
        )),
{
    must(Action::Pool(PoolCall::Open { max_connections: Some(1), request_timeout_s: None }))
}

/// A question for the details of a stream.
#[verifier::allow_in_spec]
pub fn details_req(aggregate_id: u128) -> Action
    returns
        (Action::Pool(PoolCall::Details(other_key(aggregate_id)))),
{
    Action::Pool(PoolCall::Details(other_key(aggregate_id)))
}

/// A question over the connection that was taken out.
#[verifier::allow_in_spec]
pub fn leased_details(aggregate_id: u128) -> Action
    returns
        (Action::Pool(PoolCall::LeasedDetails(other_key(aggregate_id)))),
{
    Action::Pool(PoolCall::LeasedDetails(other_key(aggregate_id)))
}

/// The steps of [`test_pool_write`].
pub open spec fn test_pool_write_steps() -> Seq<Step> {
    seq![
        step(
            Action::Pool(PoolCall::Write(creation(2001, Payload::Text("pool write")))),
            Expect::Accepted,
            "pool.write() -- {reply}",
        ),
    ]
}

/// A request that is spelled out is accepted.
pub fn test_pool_write() -> (r: Vec<Step>)
    ensures
        r@ == test_pool_write_steps(),
{
    let steps: Vec<Step> = vec![
        step(
            Action::Pool(PoolCall::Write(creation(2001, Payload::Text("pool write")))),
            Expect::Accepted,
            "pool.write() -- {reply}",
        ),
    ];
    assert(steps@ =~= test_pool_write_steps());
    steps
}

/// What [`test_pool_write`] demands of the replies, one for each of its steps.
pub open spec fn test_pool_write_holds(history: Seq<Reply>) -> bool {
    &&& history.len() == 1
    &&& !turned_down(history[0])
}

/// [`test_pool_write`] passes exactly on the replies that it demands.
pub proof fn test_pool_write_passes(history: Seq<Reply>)
    ensures
        passes(test_pool_write_steps(), history) <==> test_pool_write_holds(history),
{
    broadcast use group_judgement;

    let steps = test_pool_write_steps();
    passing_is_step_by_step(steps, history);
    reveal_with_fuel(met_before, 2);
}

/// The steps of [`test_pool_write_events`].
pub open spec fn test_pool_write_events_steps() -> Seq<Step> {
    seq![
        step(
            first_event(2002, Payload::Text("pool write_events")),
            Expect::Accepted,
            "pool.write_events(, 0) -- {reply}",
        ),
    ]
}

/// The shorter call is accepted.
pub fn test_pool_write_events() -> (r: Vec<Step>)
    ensures
        r@ == test_pool_write_events_steps(),
{
    let steps: Vec<Step> = vec![
        step(
            first_event(2002, Payload::Text("pool write_events")),
            Expect::Accepted,
            "pool.write_events(, 0) -- {reply}",
        ),
    ];
    assert(steps@ =~= test_pool_write_events_steps());
    steps
}

/// What [`test_pool_write_events`] demands of the replies, one for each of its steps.
pub open spec fn test_pool_write_events_holds(history: Seq<Reply>) -> bool {
    &&& history.len() == 1
    &&& !turned_down(history[0])
}

/// [`test_pool_write_events`] passes exactly on the replies that it demands.
pub proof fn test_pool_write_events_passes(history: Seq<Reply>)
    ensures
        passes(test_pool_write_events_steps(), history) <==> test_pool_write_events_holds(history),
{
    broadcast use group_judgement;

    let steps = test_pool_write_events_steps();
    passing_is_step_by_step(steps, history);
    reveal_with_fuel(met_before, 2);
}

/// The steps of [`test_pool_read`].
pub open spec fn test_pool_read_steps() -> Seq<Step> {
    seq![
        note(first_event(2003, Payload::Text("read me back via pool"))),
        step(
            Action::Pool(PoolCall::Read(key(2003), 1)),
            Expect::Accepted,
            "pool.read() -- {reply}",
        ),
        step(
            Action::Recall(1),
            Expect::Stream(StreamRule::NotEmpty),
            "pool.read() -- expected batches -- {reply}",
        ),
    ]
}

/// What was written is read back.
pub fn test_pool_read() -> (r: Vec<Step>)
    ensures
        r@ == test_pool_read_steps(),
{
    let steps: Vec<Step> = vec![
        note(first_event(2003, Payload::Text("read me back via pool"))),
        step(
            Action::Pool(PoolCall::Read(key(2003), 1)),
            Expect::Accepted,
            "pool.read() -- {reply}",
        ),
        step(
            Action::Recall(1),
            Expect::Stream(StreamRule::NotEmpty),
            "pool.read() -- expected batches -- {reply}",
        ),
    ];
    assert(steps@ =~= test_pool_read_steps());
    steps
}

/// What [`test_pool_read`] demands of the replies, one for each of its steps.
pub open spec fn test_pool_read_holds(history: Seq<Reply>) -> bool {
    &&& history.len() == 3
    &&& !turned_down(history[1])
    &&& history[1] matches Reply::Batches(b) && b@.len() > 0
}

/// [`test_pool_read`] passes exactly on the replies that it demands.
pub proof fn test_pool_read_passes(history: Seq<Reply>)
    ensures
        passes(test_pool_read_steps(), history) <==> test_pool_read_holds(history),
{
    broadcast use group_judgement;

    let steps = test_pool_read_steps();
    passing_is_step_by_step(steps, history);
    reveal_with_fuel(met_before, 4);
}

/// The steps of [`test_pool_aggregate_details`].
pub open spec fn test_pool_aggregate_details_steps() -> Seq<Step> {
    seq![
        note(first_event(2004, Payload::Text("details test"))),
        step(
            Action::Pool(PoolCall::Details(key(2004))),
            Expect::Accepted,
            "pool.aggregate_details() -- {reply}",
        ),
        step(
            Action::Recall(1),
            Expect::Details(DetailsRule::Present),
            "pool.aggregate_details() -- unexpected values -- {reply}",
        ),
    ]
}

/// A stream that was written is not deleted.
pub fn test_pool_aggregate_details() -> (r: Vec<Step>)
    ensures
        r@ == test_pool_aggregate_details_steps(),
{
    let steps: Vec<Step> = vec![
        note(first_event(2004, Payload::Text("details test"))),
        step(
            Action::Pool(PoolCall::Details(key(2004))),
            Expect::Accepted,
            "pool.aggregate_details() -- {reply}",
        ),
        step(
            Action::Recall(1),
            Expect::Details(DetailsRule::Present),
            "pool.aggregate_details() -- unexpected values -- {reply}",
        ),
    ];
    assert(steps@ =~= test_pool_aggregate_details_steps());
    steps
}

/// What [`test_pool_aggregate_details`] demands of the replies, one for each of its steps.
pub open spec fn test_pool_aggregate_details_holds(history: Seq<Reply>) -> bool {
    &&& history.len() == 3
    &&& !turned_down(history[1])
    &&& history[1] matches Reply::Details(_, deleted) && !deleted
}

/// [`test_pool_aggregate_details`] passes exactly on the replies that it demands.
pub proof fn test_pool_aggregate_details_passes(history: Seq<Reply>)
    ensures
        passes(test_pool_aggregate_details_steps(), history)
            <==> test_pool_aggregate_details_holds(history),
{
    broadcast use group_judgement;

    let steps = test_pool_aggregate_details_steps();
    passing_is_step_by_step(steps, history);
    reveal_with_fuel(met_before, 4);
}

/// The steps of [`test_pool_delete`].
pub open spec fn test_pool_delete_steps() -> Seq<Step> {
    seq![
        note(first_event(2005, Payload::Text("to delete via pool"))),
        step(
            Action::Pool(
                PoolCall::Delete(
                    Deletion {
                        key: key(2005),
                        allow_recreate: false,
                        allow_sequence_continuation: false,
                        expected_version: None,
                    },
                ),
            ),
            Expect::Accepted,
            "pool.delete() -- {reply}",
        ),
        step(
            Action::Pool(PoolCall::Details(key(2005))),
            Expect::Details(DetailsRule::Gone),
            "pool.delete() -- aggregate still appears undeleted -- ()",
        ),
    ]
}

/// A stream that was deleted is gone: its details say so, or there are none.
pub fn test_pool_delete() -> (r: Vec<Step>)
    ensures
        r@ == test_pool_delete_steps(),
{
    let steps: Vec<Step> = vec![
        note(first_event(2005, Payload::Text("to delete via pool"))),
        step(
            Action::Pool(
                PoolCall::Delete(
                    Deletion {
                        key: key(2005),
                        allow_recreate: false,
                        allow_sequence_continuation: false,
                        expected_version: None,
                    },
                ),
            ),
            Expect::Accepted,
            "pool.delete() -- {reply}",
        ),
        step(
            Action::Pool(PoolCall::Details(key(2005))),
            Expect::Details(DetailsRule::Gone),
            "pool.delete() -- aggregate still appears undeleted -- ()",
        ),
    ];
    assert(steps@ =~= test_pool_delete_steps());
    steps
}

/// What [`test_pool_delete`] demands of the replies, one for each of its steps.
pub open spec fn test_pool_delete_holds(history: Seq<Reply>) -> bool {
    &&& history.len() == 3
    &&& !turned_down(history[1])
    &&& turned_down(history[2]) || (history[2] matches Reply::Details(_, deleted) && deleted)
}

/// [`test_pool_delete`] passes exactly on the replies that it demands.
pub proof fn test_pool_delete_passes(history: Seq<Reply>)
    ensures
        passes(test_pool_delete_steps(), history) <==> test_pool_delete_holds(history),
{
    broadcast use group_judgement;

    let steps = test_pool_delete_steps();
    passing_is_step_by_step(steps, history);
    reveal_with_fuel(met_before, 4);
}

/// The steps of [`test_pool_read_all`].
pub open spec fn test_pool_read_all_steps() -> Seq<Step> {
    seq![
        step(
            batch(key(2006), 0, Payload::Text("read_all batch 0"), 1),
            Expect::Accepted,
            "pool.read_all() setup write -- {reply}",
        ),
        step(
            batch(key(2006), 1, Payload::Text("read_all batch 1"), 1),
            Expect::Accepted,
            "pool.read_all() setup write -- {reply}",
        ),
        step(
            batch(key(2006), 2, Payload::Text("read_all batch 2"), 1),
            Expect::Accepted,
            "pool.read_all() setup write -- {reply}",
        ),
        step(
            batch(key(2006), 3, Payload::Text("read_all batch 3"), 1),
            Expect::Accepted,
            "pool.read_all() setup write -- {reply}",
        ),
        step(
            Action::Pool(PoolCall::ReadAll(key(2006))),
            Expect::Accepted,
            "pool.read_all() -- {reply}",
        ),
        step(
            Action::Pool(PoolCall::CollectBatches),
            Expect::Accepted,
            "pool.read_all() collect -- {reply}",
        ),
        step(
            Action::Recall(5),
            Expect::Stream(StreamRule::Count(4)),
            "pool.read_all() -- expected 4 batches -- {got}",
        ),
    ]
}

/// A stream of four batches is read whole.
pub fn test_pool_read_all() -> (r: Vec<Step>)
    ensures
        r@ == test_pool_read_all_steps(),
{
    let steps: Vec<Step> = vec![
        step(
            batch(key(2006), 0, Payload::Text("read_all batch 0"), 1),
            Expect::Accepted,
            "pool.read_all() setup write -- {reply}",
        ),
        step(
            batch(key(2006), 1, Payload::Text("read_all batch 1"), 1),
            Expect::Accepted,
            "pool.read_all() setup write -- {reply}",
        ),
        step(
            batch(key(2006), 2, Payload::Text("read_all batch 2"), 1),
            Expect::Accepted,
            "pool.read_all() setup write -- {reply}",
        ),
        step(
            batch(key(2006), 3, Payload::Text("read_all batch 3"), 1),
            Expect::Accepted,
            "pool.read_all() setup write -- {reply}",
        ),
        step(
            Action::Pool(PoolCall::ReadAll(key(2006))),
            Expect::Accepted,
            "pool.read_all() -- {reply}",
        ),
        step(
            Action::Pool(PoolCall::CollectBatches),
            Expect::Accepted,
            "pool.read_all() collect -- {reply}",
        ),
        step(
            Action::Recall(5),
            Expect::Stream(StreamRule::Count(4)),
            "pool.read_all() -- expected 4 batches -- {got}",
        ),
    ];
    assert(steps@ =~= test_pool_read_all_steps());
    steps
}

/// What [`test_pool_read_all`] demands of the replies, one for each of its steps.
pub open spec fn test_pool_read_all_holds(history: Seq<Reply>) -> bool {
    &&& history.len() == 7
    &&& accepted_through(history, 0, 5)
    &&& history[5] matches Reply::Batches(b) && b@.len() == 4
}

/// [`test_pool_read_all`] passes exactly on the replies that it demands.
pub proof fn test_pool_read_all_passes(history: Seq<Reply>)
    ensures
        passes(test_pool_read_all_steps(), history) <==> test_pool_read_all_holds(history),
{
    broadcast use group_judgement;

    let steps = test_pool_read_all_steps();
    passing_is_step_by_step(steps, history);
    reveal_with_fuel(met_before, 8);
}

/// The steps of [`test_connection_reuse`].
pub open spec fn test_connection_reuse_steps() -> Seq<Step> {
    seq![
        step(
            first_event(2007, Payload::Text("first request")),
            Expect::Accepted,
            "connection reuse -- first write -- {reply}",
        ),
        step(
            Action::Pool(PoolCall::Read(key(2007), 1)),
            Expect::Accepted,
            "connection reuse -- second request -- {reply}",
        ),
        step(
            Action::Recall(1),
            Expect::Stream(StreamRule::NotEmpty),
            "connection reuse -- empty read response -- ()",
        ),
    ]
}

/// A second request goes over the connection of the first.
pub fn test_connection_reuse() -> (r: Vec<Step>)
    ensures
        r@ == test_connection_reuse_steps(),
{
    let steps: Vec<Step> = vec![
        step(
            first_event(2007, Payload::Text("first request")),
            Expect::Accepted,
            "connection reuse -- first write -- {reply}",
        ),
        step(
            Action::Pool(PoolCall::Read(key(2007), 1)),
            Expect::Accepted,
            "connection reuse -- second request -- {reply}",
        ),
        step(
            Action::Recall(1),
            Expect::Stream(StreamRule::NotEmpty),
            "connection reuse -- empty read response -- ()",
        ),
    ];
    assert(steps@ =~= test_connection_reuse_steps());
    steps
}

/// What [`test_connection_reuse`] demands of the replies, one for each of its steps.
pub open spec fn test_connection_reuse_holds(history: Seq<Reply>) -> bool {
    &&& history.len() == 3
    &&& !turned_down(history[0])
    &&& !turned_down(history[1])
    &&& history[1] matches Reply::Batches(b) && b@.len() > 0
}

/// [`test_connection_reuse`] passes exactly on the replies that it demands.
pub proof fn test_connection_reuse_passes(history: Seq<Reply>)
    ensures
        passes(test_connection_reuse_steps(), history) <==> test_connection_reuse_holds(history),
{
    broadcast use group_judgement;

    let steps = test_connection_reuse_steps();
    passing_is_step_by_step(steps, history);
    reveal_with_fuel(met_before, 4);
}

/// The steps of [`test_get_connection`].
pub open spec fn test_get_connection_steps() -> Seq<Step> {
    seq![
        note(first_event(2008, Payload::Text("get_connection test"))),
        step(
            Action::Pool(PoolCall::Lease),
            Expect::Accepted,
            "pool.get_connection() -- {reply}",
        ),
        step(
            Action::Pool(PoolCall::LeasedRead(key(2008), 1)),
            Expect::Accepted,
            "pool.get_connection() read -- {reply}",
        ),
        step(
            Action::Recall(2),
            Expect::Stream(StreamRule::NotEmpty),
            "pool.get_connection() -- empty read -- ()",
        ),
        note(Action::Pool(PoolCall::Return)),
    ]
}

/// A connection that was taken out of the pool serves a read.
pub fn test_get_connection() -> (r: Vec<Step>)
    ensures
        r@ == test_get_connection_steps(),
{
    let steps: Vec<Step> = vec![
        note(first_event(2008, Payload::Text("get_connection test"))),
        step(
            Action::Pool(PoolCall::Lease),
            Expect::Accepted,
            "pool.get_connection() -- {reply}",
        ),
        step(
            Action::Pool(PoolCall::LeasedRead(key(2008), 1)),
            Expect::Accepted,
            "pool.get_connection() read -- {reply}",
        ),
        step(
            Action::Recall(2),
            Expect::Stream(StreamRule::NotEmpty),
            "pool.get_connection() -- empty read -- ()",
        ),
        note(Action::Pool(PoolCall::Return)),
    ];
    assert(steps@ =~= test_get_connection_steps());
    steps
}

/// What [`test_get_connection`] demands of the replies, one for each of its steps.
pub open spec fn test_get_connection_holds(history: Seq<Reply>) -> bool {
    &&& history.len() == 5
    &&& !turned_down(history[1])
    &&& !turned_down(history[2])
    &&& history[2] matches Reply::Batches(b) && b@.len() > 0
}

/// [`test_get_connection`] passes exactly on the replies that it demands.
pub proof fn test_get_connection_passes(history: Seq<Reply>)
    ensures
        passes(test_get_connection_steps(), history) <==> test_get_connection_holds(history),
{
    broadcast use group_judgement;

    let steps = test_get_connection_steps();
    passing_is_step_by_step(steps, history);
    reveal_with_fuel(met_before, 6);
}

/// The steps of [`test_get_leader_connection`].
pub open spec fn test_get_leader_connection_steps() -> Seq<Step> {
    seq![
        step(
            Action::Pool(PoolCall::LeaseLeader),
            Expect::Accepted,
            "pool.get_leader_connection() -- {reply}",
        ),
        step(
            Action::Pool(
                PoolCall::LeasedWrite(creation(2009, Payload::Text("leader connection write"))),
            ),
            Expect::Accepted,
            "pool.get_leader_connection() write -- {reply}",
        ),
        note(Action::Pool(PoolCall::Return)),
    ]
}

/// A connection to the leader serves a write.
pub fn test_get_leader_connection() -> (r: Vec<Step>)
    ensures
        r@ == test_get_leader_connection_steps(),
{
    let steps: Vec<Step> = vec![
        step(
            Action::Pool(PoolCall::LeaseLeader),
            Expect::Accepted,
            "pool.get_leader_connection() -- {reply}",
        ),
        step(
            Action::Pool(
                PoolCall::LeasedWrite(creation(2009, Payload::Text("leader connection write"))),
            ),
            Expect::Accepted,
            "pool.get_leader_connection() write -- {reply}",
        ),
        note(Action::Pool(PoolCall::Return)),
    ];
    assert(steps@ =~= test_get_leader_connection_steps());
    steps
}

/// What [`test_get_leader_connection`] demands of the replies, one for each of its steps.
pub open spec fn test_get_leader_connection_holds(history: Seq<Reply>) -> bool {
    &&& history.len() == 3
    &&& !turned_down(history[0])
    &&& !turned_down(history[1])
}

/// [`test_get_leader_connection`] passes exactly on the replies that it demands.
pub proof fn test_get_leader_connection_passes(history: Seq<Reply>)
    ensures
        passes(test_get_leader_connection_steps(), history)
            <==> test_get_leader_connection_holds(history),
{
    broadcast use group_judgement;

    let steps = test_get_leader_connection_steps();
    passing_is_step_by_step(steps, history);
    reveal_with_fuel(met_before, 4);
}

/// The steps of [`test_custom_pool_options`].
pub open spec fn test_custom_pool_options_steps() -> Seq<Step> {
    seq![
        must(
            Action::Pool(PoolCall::Open { max_connections: Some(5), request_timeout_s: Some(60) }),
        ),
        step(
            first_event(2010, Payload::Text("custom options write")),
            Expect::Accepted,
            "custom pool options -- {reply}",
        ),
    ]
}

/// A pool with a timeout and a limit of its own serves a write.
pub fn test_custom_pool_options() -> (r: Vec<Step>)
    ensures
        r@ == test_custom_pool_options_steps(),
{
    let steps: Vec<Step> = vec![
        must(
            Action::Pool(PoolCall::Open { max_connections: Some(5), request_timeout_s: Some(60) }),
        ),
        step(
            first_event(2010, Payload::Text("custom options write")),
            Expect::Accepted,
            "custom pool options -- {reply}",
        ),
    ];
    assert(steps@ =~= test_custom_pool_options_steps());
    steps
}

/// What [`test_custom_pool_options`] demands of the replies, one for each of its steps.
pub open spec fn test_custom_pool_options_holds(history: Seq<Reply>) -> bool {
    &&& history.len() == 2
    &&& !turned_down(history[0])
    &&& !turned_down(history[1])
}

/// [`test_custom_pool_options`] passes exactly on the replies that it demands.
pub proof fn test_custom_pool_options_passes(history: Seq<Reply>)
    ensures
        passes(test_custom_pool_options_steps(), history)
            <==> test_custom_pool_options_holds(history),
{
    broadcast use group_judgement;

    let steps = test_custom_pool_options_steps();
    passing_is_step_by_step(steps, history);
    reveal_with_fuel(met_before, 3);
}

/// The steps of [`test_pool_auto_compression`].
pub open spec fn test_pool_auto_compression_steps() -> Seq<Step> {
    seq![
        step(
            first_event(2011, Payload::Repeated(2048)),
            Expect::Accepted,
            "pool auto-compression -- {reply}",
        ),
    ]
}

/// A value above the size from which values are compressed is accepted.
pub fn test_pool_auto_compression() -> (r: Vec<Step>)
    ensures
        r@ == test_pool_auto_compression_steps(),
{
    let steps: Vec<Step> = vec![
        step(
            first_event(2011, Payload::Repeated(2048)),
            Expect::Accepted,
            "pool auto-compression -- {reply}",
        ),
    ];
    assert(steps@ =~= test_pool_auto_compression_steps());
    steps
}

/// What [`test_pool_auto_compression`] demands of the replies, one for each of its steps.
pub open spec fn test_pool_auto_compression_holds(history: Seq<Reply>) -> bool {
    &&& history.len() == 1
    &&& !turned_down(history[0])
}

/// [`test_pool_auto_compression`] passes exactly on the replies that it demands.
pub proof fn test_pool_auto_compression_passes(history: Seq<Reply>)
    ensures
        passes(test_pool_auto_compression_steps(), history)
            <==> test_pool_auto_compression_holds(history),
{
    broadcast use group_judgement;

    let steps = test_pool_auto_compression_steps();
    passing_is_step_by_step(steps, history);
    reveal_with_fuel(met_before, 2);
}

/// The steps of [`test_pool_list_orgs`].
pub open spec fn test_pool_list_orgs_steps() -> Seq<Step> {
    seq![
        step(
            Action::Pool(PoolCall::ListOrgs),
            Expect::Accepted,
            "pool.list_orgs() -- {reply}",
        ),
        step(
            Action::Pool(PoolCall::CollectIds),
            Expect::Accepted,
            "pool.list_orgs() collect -- {reply}",
        ),
        step(
            Action::Recall(1),
            Expect::Lists(20),
            "pool.list_orgs() -- org_id 20 not found -- {got}",
        ),
    ]
}

/// The organisation of the streams before is listed.
pub fn test_pool_list_orgs() -> (r: Vec<Step>)
    ensures
        r@ == test_pool_list_orgs_steps(),
{
    let steps: Vec<Step> = vec![
        step(
            Action::Pool(PoolCall::ListOrgs),
            Expect::Accepted,
            "pool.list_orgs() -- {reply}",
        ),
        step(
            Action::Pool(PoolCall::CollectIds),
            Expect::Accepted,
            "pool.list_orgs() collect -- {reply}",
        ),
        step(
            Action::Recall(1),
            Expect::Lists(20),
            "pool.list_orgs() -- org_id 20 not found -- {got}",
        ),
    ];
    assert(steps@ =~= test_pool_list_orgs_steps());
    steps
}

/// What [`test_pool_list_orgs`] demands of the replies, one for each of its steps.
pub open spec fn test_pool_list_orgs_holds(history: Seq<Reply>) -> bool {
    &&& history.len() == 3
    &&& !turned_down(history[0])
    &&& !turned_down(history[1])
    &&& history[1] matches Reply::Ids(ids) && ids@.contains(20)
}

/// [`test_pool_list_orgs`] passes exactly on the replies that it demands.
pub proof fn test_pool_list_orgs_passes(history: Seq<Reply>)
    ensures
        passes(test_pool_list_orgs_steps(), history) <==> test_pool_list_orgs_holds(history),
{
    broadcast use group_judgement;

    let steps = test_pool_list_orgs_steps();
    passing_is_step_by_step(steps, history);
    reveal_with_fuel(met_before, 4);
}

/// The steps of [`test_pool_list_aggregate_types`].
pub open spec fn test_pool_list_aggregate_types_steps() -> Seq<Step> {
    seq![
        step(
            Action::Pool(PoolCall::ListTypes(20)),
            Expect::Accepted,
            "pool.list_aggregate_types() -- {reply}",
        ),
        step(
            Action::Pool(PoolCall::CollectIds),
            Expect::Accepted,
            "pool.list_aggregate_types() collect -- {reply}",
        ),
        step(
            Action::Recall(1),
            Expect::Lists(1),
            "pool.list_aggregate_types() -- aggregate_type_id 1 not found -- {got}",
        ),
    ]
}

/// The type of the streams before is listed.
pub fn test_pool_list_aggregate_types() -> (r: Vec<Step>)
    ensures
        r@ == test_pool_list_aggregate_types_steps(),
{
    let steps: Vec<Step> = vec![
        step(
            Action::Pool(PoolCall::ListTypes(20)),
            Expect::Accepted,
            "pool.list_aggregate_types() -- {reply}",
        ),
        step(
            Action::Pool(PoolCall::CollectIds),
            Expect::Accepted,
            "pool.list_aggregate_types() collect -- {reply}",
        ),
        step(
            Action::Recall(1),
            Expect::Lists(1),
            "pool.list_aggregate_types() -- aggregate_type_id 1 not found -- {got}",
        ),
    ];
    assert(steps@ =~= test_pool_list_aggregate_types_steps());
    steps
}

/// What [`test_pool_list_aggregate_types`] demands of the replies, one for each of its steps.
pub open spec fn test_pool_list_aggregate_types_holds(history: Seq<Reply>) -> bool {
    &&& history.len() == 3
    &&& !turned_down(history[0])
    &&& !turned_down(history[1])
    &&& history[1] matches Reply::Ids(ids) && ids@.contains(1)
}

/// [`test_pool_list_aggregate_types`] passes exactly on the replies that it demands.
pub proof fn test_pool_list_aggregate_types_passes(history: Seq<Reply>)
    ensures
        passes(test_pool_list_aggregate_types_steps(), history)
            <==> test_pool_list_aggregate_types_holds(history),
{
    broadcast use group_judgement;

    let steps = test_pool_list_aggregate_types_steps();
    passing_is_step_by_step(steps, history);
    reveal_with_fuel(met_before, 4);
}

/// The steps of [`test_pool_list_aggregates`].
pub open spec fn test_pool_list_aggregates_steps() -> Seq<Step> {
    seq![
        step(
            Action::Pool(PoolCall::ListAggregates(20)),
            Expect::Accepted,
            "pool.list_aggregates() -- {reply}",
        ),
        step(
            Action::Pool(PoolCall::CollectIds),
            Expect::Accepted,
            "pool.list_aggregates() collect -- {reply}",
        ),
        step(
            Action::Recall(1),
            Expect::ListsSome,
            "pool.list_aggregates() -- expected at least one aggregate -- ()",
        ),
    ]
}

/// Some aggregate of the streams before is listed.
pub fn test_pool_list_aggregates() -> (r: Vec<Step>)
    ensures
        r@ == test_pool_list_aggregates_steps(),
{
    let steps: Vec<Step> = vec![
        step(
            Action::Pool(PoolCall::ListAggregates(20)),
            Expect::Accepted,
            "pool.list_aggregates() -- {reply}",
        ),
        step(
            Action::Pool(PoolCall::CollectIds),
            Expect::Accepted,
            "pool.list_aggregates() collect -- {reply}",
        ),
        step(
            Action::Recall(1),
            Expect::ListsSome,
            "pool.list_aggregates() -- expected at least one aggregate -- ()",
        ),
    ];
    assert(steps@ =~= test_pool_list_aggregates_steps());
    steps
}

/// What [`test_pool_list_aggregates`] demands of the replies, one for each of its steps.
pub open spec fn test_pool_list_aggregates_holds(history: Seq<Reply>) -> bool {
    &&& history.len() == 3
    &&& !turned_down(history[0])
    &&& !turned_down(history[1])
    &&& history[1] matches Reply::Ids(ids) && ids@.len() > 0
}

/// [`test_pool_list_aggregates`] passes exactly on the replies that it demands.
pub proof fn test_pool_list_aggregates_passes(history: Seq<Reply>)
    ensures
        passes(test_pool_list_aggregates_steps(), history)
            <==> test_pool_list_aggregates_holds(history),
{
    broadcast use group_judgement;

    let steps = test_pool_list_aggregates_steps();
    passing_is_step_by_step(steps, history);
    reveal_with_fuel(met_before, 4);
}

/// The steps of [`test_cancelled_request_does_not_leak_response`].
pub open spec fn test_cancelled_request_does_not_leak_response_steps() -> Seq<Step> {
    seq![
        single_connection(),
        seed(3001, 0, "cancelled request -- next borrower gets its own response -- {reply}"),
        seed(3001, 1, "cancelled request -- next borrower gets its own response -- {reply}"),
        seed(3001, 2, "cancelled request -- next borrower gets its own response -- {reply}"),
        seed(3001, 3, "cancelled request -- next borrower gets its own response -- {reply}"),
        seed(3001, 4, "cancelled request -- next borrower gets its own response -- {reply}"),
        seed(3002, 0, "cancelled request -- next borrower gets its own response -- {reply}"),
        step(
            details_req(3001),
            Expect::Accepted,
            "cancelled request -- next borrower gets its own response -- {reply}",
        ),
        step(
            Action::Pool(PoolCall::Lease),
            Expect::Accepted,
            "cancelled request -- next borrower gets its own response -- \"no lease: {reply}\"",
        ),
        step(
            Action::Pool(PoolCall::LeasedPollOnce(other_key(3001))),
            Expect::Flag(false),
            "cancelled request -- next borrower gets its own response -- \"request resolved inside one poll -- nothing was cancelled\"",
        ),
        step(
            leased_details(3001),
            Expect::OutOfStep,
            "cancelled request -- next borrower gets its own response -- \"the cancelled request never reached the socket -- reuse gave {reply}\"",
        ),
        note(Action::Pool(PoolCall::Return)),
        either(
            details_req(3002),
            Expect::Details(DetailsRule::Version(1)),
            "cancelled request -- next borrower gets its own response -- \"asked for aggregate 3002 (version 1), got version {got} -- the cancelled request's aggregate 3001 is version 5\"",
            "cancelled request -- next borrower gets its own response -- {reply}",
        ),
    ]
}

/// The answer to a request that was dropped never reaches the next borrower of its connection.
///
/// The stream of the dropped request has five versions and the next one's has one, so that the
/// answer of the one cannot be taken for that of the other. That the client will not use the
/// connection shows that the request did go out.
pub fn test_cancelled_request_does_not_leak_response() -> (r: Vec<Step>)
    ensures
        r@ == test_cancelled_request_does_not_leak_response_steps(),
{
    let steps: Vec<Step> = vec![
        single_connection(),
        seed(3001, 0, "cancelled request -- next borrower gets its own response -- {reply}"),
        seed(3001, 1, "cancelled request -- next borrower gets its own response -- {reply}"),
        seed(3001, 2, "cancelled request -- next borrower gets its own response -- {reply}"),
        seed(3001, 3, "cancelled request -- next borrower gets its own response -- {reply}"),
        seed(3001, 4, "cancelled request -- next borrower gets its own response -- {reply}"),
        seed(3002, 0, "cancelled request -- next borrower gets its own response -- {reply}"),
        step(
            details_req(3001),
            Expect::Accepted,
            "cancelled request -- next borrower gets its own response -- {reply}",
        ),
        step(
            Action::Pool(PoolCall::Lease),
            Expect::Accepted,
            "cancelled request -- next borrower gets its own response -- \"no lease: {reply}\"",
        ),
        step(
            Action::Pool(PoolCall::LeasedPollOnce(other_key(3001))),
            Expect::Flag(false),
            "cancelled request -- next borrower gets its own response -- \"request resolved inside one poll -- nothing was cancelled\"",
        ),
        step(
            leased_details(3001),
            Expect::OutOfStep,
            "cancelled request -- next borrower gets its own response -- \"the cancelled request never reached the socket -- reuse gave {reply}\"",
        ),
        note(Action::Pool(PoolCall::Return)),
        either(
            details_req(3002),
            Expect::Details(DetailsRule::Version(1)),
            "cancelled request -- next borrower gets its own response -- \"asked for aggregate 3002 (version 1), got version {got} -- the cancelled request's aggregate 3001 is version 5\"",
            "cancelled request -- next borrower gets its own response -- {reply}",
        ),
    ];
    assert(steps@ =~= test_cancelled_request_does_not_leak_response_steps());
    steps
}

/// What [`test_cancelled_request_does_not_leak_response`] demands of the replies, one for each of
/// its steps.
pub open spec fn test_cancelled_request_does_not_leak_response_holds(history: Seq<Reply>) -> bool {
    &&& history.len() == 13
    &&& accepted_through(history, 0, 8)
    &&& history[9] == Reply::Flag(false)
    &&& history[10] == Reply::Refused(Refusal::OutOfStep)
    &&& history[12] matches Reply::Details(version, _) && version == 1
}

/// [`test_cancelled_request_does_not_leak_response`] passes exactly on the replies that it demands.
pub proof fn test_cancelled_request_does_not_leak_response_passes(history: Seq<Reply>)
    ensures
        passes(test_cancelled_request_does_not_leak_response_steps(), history)
            <==> test_cancelled_request_does_not_leak_response_holds(history),
{
    broadcast use group_judgement;

    let steps = test_cancelled_request_does_not_leak_response_steps();
    passing_is_step_by_step(steps, history);
    reveal_with_fuel(met_before, 14);
}

/// The steps of [`test_pool_usable_after_cancellation`].
pub open spec fn test_pool_usable_after_cancellation_steps() -> Seq<Step> {
    seq![
        single_connection(),
        seed(3010, 0, "pool serves correct responses to every borrower after a cancellation -- {reply}"),
        seed(3010, 1, "pool serves correct responses to every borrower after a cancellation -- {reply}"),
        seed(3010, 2, "pool serves correct responses to every borrower after a cancellation -- {reply}"),
        seed(3010, 3, "pool serves correct responses to every borrower after a cancellation -- {reply}"),
        seed(3010, 4, "pool serves correct responses to every borrower after a cancellation -- {reply}"),
        seed(3010, 5, "pool serves correct responses to every borrower after a cancellation -- {reply}"),
        seed(3010, 6, "pool serves correct responses to every borrower after a cancellation -- {reply}"),
        seed(3010, 7, "pool serves correct responses to every borrower after a cancellation -- {reply}"),
        seed(3010, 8, "pool serves correct responses to every borrower after a cancellation -- {reply}"),
        seed(3011, 0, "pool serves correct responses to every borrower after a cancellation -- {reply}"),
        seed(3012, 0, "pool serves correct responses to every borrower after a cancellation -- {reply}"),
        seed(3012, 1, "pool serves correct responses to every borrower after a cancellation -- {reply}"),
        seed(3013, 0, "pool serves correct responses to every borrower after a cancellation -- {reply}"),
        seed(3013, 1, "pool serves correct responses to every borrower after a cancellation -- {reply}"),
        seed(3013, 2, "pool serves correct responses to every borrower after a cancellation -- {reply}"),
        seed(3014, 0, "pool serves correct responses to every borrower after a cancellation -- {reply}"),
        seed(3014, 1, "pool serves correct responses to every borrower after a cancellation -- {reply}"),
        seed(3014, 2, "pool serves correct responses to every borrower after a cancellation -- {reply}"),
        seed(3014, 3, "pool serves correct responses to every borrower after a cancellation -- {reply}"),
        step(
            details_req(3010),
            Expect::Accepted,
            "pool serves correct responses to every borrower after a cancellation -- {reply}",
        ),
        step(
            Action::Pool(PoolCall::Lease),
            Expect::Accepted,
            "pool serves correct responses to every borrower after a cancellation -- \"no lease: {reply}\"",
        ),
        step(
            Action::Pool(PoolCall::LeasedPollOnce(other_key(3010))),
            Expect::Flag(false),
            "pool serves correct responses to every borrower after a cancellation -- \"request resolved inside one poll -- nothing was cancelled\"",
        ),
        step(
            leased_details(3010),
            Expect::OutOfStep,
            "pool serves correct responses to every borrower after a cancellation -- \"the cancelled request never reached the socket -- reuse gave {reply}\"",
        ),
        note(Action::Pool(PoolCall::Return)),
        either(
            details_req(3011),
            Expect::Details(DetailsRule::Version(1)),
            "pool serves correct responses to every borrower after a cancellation -- \"asked for aggregate 3011 (version 1), got version {got}\"",
            "pool serves correct responses to every borrower after a cancellation -- {reply}",
        ),
        either(
            details_req(3012),
            Expect::Details(DetailsRule::Version(2)),
            "pool serves correct responses to every borrower after a cancellation -- \"asked for aggregate 3012 (version 2), got version {got}\"",
            "pool serves correct responses to every borrower after a cancellation -- {reply}",
        ),
        either(
            details_req(3013),
            Expect::Details(DetailsRule::Version(3)),
            "pool serves correct responses to every borrower after a cancellation -- \"asked for aggregate 3013 (version 3), got version {got}\"",
            "pool serves correct responses to every borrower after a cancellation -- {reply}",
        ),
        either(
            details_req(3014),
            Expect::Details(DetailsRule::Version(4)),
            "pool serves correct responses to every borrower after a cancellation -- \"asked for aggregate 3014 (version 4), got version {got}\"",
            "pool serves correct responses to every borrower after a cancellation -- {reply}",
        ),
    ]
}

/// Every borrower after a dropped request gets its own answer, not that of the borrower before.
pub fn test_pool_usable_after_cancellation() -> (r: Vec<Step>)
    ensures
        r@ == test_pool_usable_after_cancellation_steps(),
{
    let steps: Vec<Step> = vec![
        single_connection(),
        seed(3010, 0, "pool serves correct responses to every borrower after a cancellation -- {reply}"),
        seed(3010, 1, "pool serves correct responses to every borrower after a cancellation -- {reply}"),
        seed(3010, 2, "pool serves correct responses to every borrower after a cancellation -- {reply}"),
        seed(3010, 3, "pool serves correct responses to every borrower after a cancellation -- {reply}"),
        seed(3010, 4, "pool serves correct responses to every borrower after a cancellation -- {reply}"),
        seed(3010, 5, "pool serves correct responses to every borrower after a cancellation -- {reply}"),
        seed(3010, 6, "pool serves correct responses to every borrower after a cancellation -- {reply}"),
        seed(3010, 7, "pool serves correct responses to every borrower after a cancellation -- {reply}"),
        seed(3010, 8, "pool serves correct responses to every borrower after a cancellation -- {reply}"),
        seed(3011, 0, "pool serves correct responses to every borrower after a cancellation -- {reply}"),
        seed(3012, 0, "pool serves correct responses to every borrower after a cancellation -- {reply}"),
        seed(3012, 1, "pool serves correct responses to every borrower after a cancellation -- {reply}"),
        seed(3013, 0, "pool serves correct responses to every borrower after a cancellation -- {reply}"),
        seed(3013, 1, "pool serves correct responses to every borrower after a cancellation -- {reply}"),
        seed(3013, 2, "pool serves correct responses to every borrower after a cancellation -- {reply}"),
        seed(3014, 0, "pool serves correct responses to every borrower after a cancellation -- {reply}"),
        seed(3014, 1, "pool serves correct responses to every borrower after a cancellation -- {reply}"),
        seed(3014, 2, "pool serves correct responses to every borrower after a cancellation -- {reply}"),
        seed(3014, 3, "pool serves correct responses to every borrower after a cancellation -- {reply}"),
        step(
            details_req(3010),
            Expect::Accepted,
            "pool serves correct responses to every borrower after a cancellation -- {reply}",
        ),
        step(
            Action::Pool(PoolCall::Lease),
            Expect::Accepted,
            "pool serves correct responses to every borrower after a cancellation -- \"no lease: {reply}\"",
        ),
        step(
            Action::Pool(PoolCall::LeasedPollOnce(other_key(3010))),
            Expect::Flag(false),
            "pool serves correct responses to every borrower after a cancellation -- \"request resolved inside one poll -- nothing was cancelled\"",
        ),
        step(
            leased_details(3010),
            Expect::OutOfStep,
            "pool serves correct responses to every borrower after a cancellation -- \"the cancelled request never reached the socket -- reuse gave {reply}\"",
        ),
        note(Action::Pool(PoolCall::Return)),
        either(
            details_req(3011),
            Expect::Details(DetailsRule::Version(1)),
            "pool serves correct responses to every borrower after a cancellation -- \"asked for aggregate 3011 (version 1), got version {got}\"",
            "pool serves correct responses to every borrower after a cancellation -- {reply}",
        ),
        either(
            details_req(3012),
            Expect::Details(DetailsRule::Version(2)),
            "pool serves correct responses to every borrower after a cancellation -- \"asked for aggregate 3012 (version 2), got version {got}\"",
            "pool serves correct responses to every borrower after a cancellation -- {reply}",
        ),
        either(
            details_req(3013),
            Expect::Details(DetailsRule::Version(3)),
            "pool serves correct responses to every borrower after a cancellation -- \"asked for aggregate 3013 (version 3), got version {got}\"",
            "pool serves correct responses to every borrower after a cancellation -- {reply}",
        ),
        either(
            details_req(3014),
            Expect::Details(DetailsRule::Version(4)),
            "pool serves correct responses to every borrower after a cancellation -- \"asked for aggregate 3014 (version 4), got version {got}\"",
            "pool serves correct responses to every borrower after a cancellation -- {reply}",
        ),
    ];
    assert(steps@ =~= test_pool_usable_after_cancellation_steps());
    steps
}

/// What [`test_pool_usable_after_cancellation`] demands of the replies, one for each of its steps.
pub open spec fn test_pool_usable_after_cancellation_holds(history: Seq<Reply>) -> bool {
    &&& history.len() == 29
    &&& accepted_through(history, 0, 21)
    &&& history[22] == Reply::Flag(false)
    &&& history[23] == Reply::Refused(Refusal::OutOfStep)
    &&& history[25] matches Reply::Details(version, _) && version == 1
    &&& history[26] matches Reply::Details(version, _) && version == 2
    &&& history[27] matches Reply::Details(version, _) && version == 3
    &&& history[28] matches Reply::Details(version, _) && version == 4
}

/// [`test_pool_usable_after_cancellation`] passes exactly on the replies that it demands.
#[verifier::rlimit(60)]
pub proof fn test_pool_usable_after_cancellation_passes(history: Seq<Reply>)
    ensures
        passes(test_pool_usable_after_cancellation_steps(), history)
            <==> test_pool_usable_after_cancellation_holds(history),
{
    broadcast use group_judgement;

    let steps = test_pool_usable_after_cancellation_steps();
    passing_is_step_by_step(steps, history);
    reveal_with_fuel(met_before, 30);
}

/// The steps of [`test_same_lease_reuse_after_cancellation`].
pub open spec fn test_same_lease_reuse_after_cancellation_steps() -> Seq<Step> {
    seq![
        single_connection(),
        seed(3101, 0, "same-lease reuse after cancellation -- {reply}"),
        seed(3101, 1, "same-lease reuse after cancellation -- {reply}"),
        seed(3101, 2, "same-lease reuse after cancellation -- {reply}"),
        seed(3101, 3, "same-lease reuse after cancellation -- {reply}"),
        seed(3101, 4, "same-lease reuse after cancellation -- {reply}"),
        seed(3101, 5, "same-lease reuse after cancellation -- {reply}"),
        seed(3101, 6, "same-lease reuse after cancellation -- {reply}"),
        seed(3102, 0, "same-lease reuse after cancellation -- {reply}"),
        step(
            Action::Pool(PoolCall::Lease),
            Expect::Accepted,
            "same-lease reuse after cancellation -- {reply}",
        ),
        step(
            leased_details(3101),
            Expect::Accepted,
            "same-lease reuse after cancellation -- {reply}",
        ),
        step(
            Action::Pool(PoolCall::LeasedPollOnce(other_key(3101))),
            Expect::Flag(false),
            "same-lease reuse after cancellation -- \"request resolved inside one poll -- nothing was cancelled\"",
        ),
        step(
            leased_details(3102),
            Expect::OutOfStep,
            "same-lease reuse after cancellation -- \"first reuse after cancellation was not refused\"",
        ),
        either(
            leased_details(3102),
            Expect::OutOfStep,
            "same-lease reuse after cancellation -- \"same-lease crosstalk: asked for 3102 (version 1), got version {got} -- 3101 is version 7\"",
            "same-lease reuse after cancellation -- \"expected ProtocolError, got {reply}\"",
        ),
        note(Action::Pool(PoolCall::Return)),
    ]
}

/// A connection with a dropped request on it refuses every further request of the same borrower:
/// the second refusal shows that the first did not clear what it goes by.
pub fn test_same_lease_reuse_after_cancellation() -> (r: Vec<Step>)
    ensures
        r@ == test_same_lease_reuse_after_cancellation_steps(),
{
    let steps: Vec<Step> = vec![
        single_connection(),
        seed(3101, 0, "same-lease reuse after cancellation -- {reply}"),
        seed(3101, 1, "same-lease reuse after cancellation -- {reply}"),
        seed(3101, 2, "same-lease reuse after cancellation -- {reply}"),
        seed(3101, 3, "same-lease reuse after cancellation -- {reply}"),
        seed(3101, 4, "same-lease reuse after cancellation -- {reply}"),
        seed(3101, 5, "same-lease reuse after cancellation -- {reply}"),
        seed(3101, 6, "same-lease reuse after cancellation -- {reply}"),
        seed(3102, 0, "same-lease reuse after cancellation -- {reply}"),
        step(
            Action::Pool(PoolCall::Lease),
            Expect::Accepted,
            "same-lease reuse after cancellation -- {reply}",
        ),
        step(
            leased_details(3101),
            Expect::Accepted,
            "same-lease reuse after cancellation -- {reply}",
        ),
        step(
            Action::Pool(PoolCall::LeasedPollOnce(other_key(3101))),
            Expect::Flag(false),
            "same-lease reuse after cancellation -- \"request resolved inside one poll -- nothing was cancelled\"",
        ),
        step(
            leased_details(3102),
            Expect::OutOfStep,
            "same-lease reuse after cancellation -- \"first reuse after cancellation was not refused\"",
        ),
        either(
            leased_details(3102),
            Expect::OutOfStep,
            "same-lease reuse after cancellation -- \"same-lease crosstalk: asked for 3102 (version 1), got version {got} -- 3101 is version 7\"",
            "same-lease reuse after cancellation -- \"expected ProtocolError, got {reply}\"",
        ),
        note(Action::Pool(PoolCall::Return)),
    ];
    assert(steps@ =~= test_same_lease_reuse_after_cancellation_steps());
    steps
}

/// What [`test_same_lease_reuse_after_cancellation`] demands of the replies, one for each of its
/// steps.
pub open spec fn test_same_lease_reuse_after_cancellation_holds(history: Seq<Reply>) -> bool {
    &&& history.len() == 15
    &&& accepted_through(history, 0, 10)
    &&& history[11] == Reply::Flag(false)
    &&& history[12] == Reply::Refused(Refusal::OutOfStep)
    &&& history[13] == Reply::Refused(Refusal::OutOfStep)
}

/// [`test_same_lease_reuse_after_cancellation`] passes exactly on the replies that it demands.
pub proof fn test_same_lease_reuse_after_cancellation_passes(history: Seq<Reply>)
    ensures
        passes(test_same_lease_reuse_after_cancellation_steps(), history)
            <==> test_same_lease_reuse_after_cancellation_holds(history),
{
    broadcast use group_judgement;

    let steps = test_same_lease_reuse_after_cancellation_steps();
    passing_is_step_by_step(steps, history);
    reveal_with_fuel(met_before, 16);
}

/// One scenario and the part of the run that it belongs to.
pub struct PoolCase {
    pub section: &'static str,
    pub steps: Vec<Step>,
}

/// [`PoolCase`] as plain values.
pub open spec fn case_view(c: PoolCase) -> (Seq<char>, Seq<Step>) {
    (c.section@, c.steps@)
}

/// All scenarios, in the order in which they run. Those that make no pool of their own share one.
pub open spec fn cases() -> Seq<(Seq<char>, Seq<Step>)> {
    seq![
        ("Basic Pool Operations"@, test_pool_write_steps()),
        ("Basic Pool Operations"@, test_pool_write_events_steps()),
        ("Basic Pool Operations"@, test_pool_read_steps()),
        ("Basic Pool Operations"@, test_pool_aggregate_details_steps()),
        ("Basic Pool Operations"@, test_pool_delete_steps()),
        ("Basic Pool Operations"@, test_pool_read_all_steps()),
        ("Connection Lifecycle"@, test_connection_reuse_steps()),
        ("Connection Lifecycle"@, test_get_connection_steps()),
        ("Connection Lifecycle"@, test_get_leader_connection_steps()),
        ("Pool Configuration"@, test_custom_pool_options_steps()),
        ("Pool Configuration"@, test_pool_auto_compression_steps()),
        ("List Operations"@, test_pool_list_orgs_steps()),
        ("List Operations"@, test_pool_list_aggregate_types_steps()),
        ("List Operations"@, test_pool_list_aggregates_steps()),
        ("Cancellation Safety"@, test_cancelled_request_does_not_leak_response_steps()),
        ("Cancellation Safety"@, test_pool_usable_after_cancellation_steps()),
        ("Cancellation Safety"@, test_same_lease_reuse_after_cancellation_steps()),
    ]
}

/// The port of the server that all scenarios share.
#[verifier::allow_in_spec]
pub fn server_port() -> Port
    returns
        (run_port(10600, 0)),
{
    run_port(10600, 0)
}

/// All scenarios, in the order in which they run.
pub fn run() -> (r: Vec<PoolCase>)
    ensures
        r@.map_values(|c: PoolCase| case_view(c)) == cases(),
{
    let r: Vec<PoolCase> = vec![
        PoolCase { section: "Basic Pool Operations", steps: test_pool_write() },
        PoolCase { section: "Basic Pool Operations", steps: test_pool_write_events() },
        PoolCase { section: "Basic Pool Operations", steps: test_pool_read() },
        PoolCase { section: "Basic Pool Operations", steps: test_pool_aggregate_details() },
        PoolCase { section: "Basic Pool Operations", steps: test_pool_delete() },
        PoolCase { section: "Basic Pool Operations", steps: test_pool_read_all() },
        PoolCase { section: "Connection Lifecycle", steps: test_connection_reuse() },
        PoolCase { section: "Connection Lifecycle", steps: test_get_connection() },
        PoolCase { section: "Connection Lifecycle", steps: test_get_leader_connection() },
        PoolCase { section: "Pool Configuration", steps: test_custom_pool_options() },
        PoolCase { section: "Pool Configuration", steps: test_pool_auto_compression() },
        PoolCase { section: "List Operations", steps: test_pool_list_orgs() },
        PoolCase { section: "List Operations", steps: test_pool_list_aggregate_types() },
        PoolCase { section: "List Operations", steps: test_pool_list_aggregates() },
        PoolCase {
            section: "Cancellation Safety",
            steps: test_cancelled_request_does_not_leak_response(),
        },
        PoolCase { section: "Cancellation Safety", steps: test_pool_usable_after_cancellation() },
        PoolCase {
            section: "Cancellation Safety",
            steps: test_same_lease_reuse_after_cancellation(),
        },
    ];
    assert(r@.map_values(|c: PoolCase| case_view(c)) =~= cases());
    r
}

/// How many of `outcomes` are failures.
pub open spec fn failed_of(outcomes: Seq<bool>) -> nat
    decreases outcomes.len(),
{
    if outcomes.len() == 0 {
        0
    } else {
        failed_of(outcomes.drop_last()) + if outcomes.last() {
            0nat
        } else {
            1
        }
    }
}

/// What the run ends with, by whether each scenario passed: an error where any failed. A failure
/// does not keep the others from running.
pub fn verdict(outcomes: &Vec<bool>) -> (r: Result<(), String>)
    ensures
        match r {
            Ok(()) => failed_of(outcomes@) == 0,
            Err(text) => failed_of(outcomes@) > 0 && text@ == decimal(failed_of(outcomes@))
                + " pool test(s) failed"@,
        },
{
    let mut failures: usize = 0;
    assert(outcomes@.take(0) =~= Seq::empty());
    for i in 0..outcomes.len()
        invariant
            failures == failed_of(outcomes@.take(i as int)),
            failures <= i,
    {
        assert(outcomes@.take(i + 1).drop_last() =~= outcomes@.take(i as int));
        if !outcomes[i] {
            failures = failures + 1;
        }
    }
    assert(outcomes@.take(outcomes@.len() as int) =~= outcomes@);
    if failures > 0 {
        let mut out: String = String::new();
        push_decimal(&mut out, failures as u128);
        out.append(" pool test(s) failed");
        assert(out@ =~= decimal(failures as nat) + " pool test(s) failed"@);
        Err(out)
    } else {
        Ok(())
    }
}

/// A failure is never forgotten: none were counted exactly where every scenario passed.
pub proof fn any_failure_shows(outcomes: Seq<bool>)
    ensures
        failed_of(outcomes) == 0 <==> forall|i: int| 0 <= i < outcomes.len() ==> outcomes[i],
    decreases outcomes.len(),
{
    if outcomes.len() > 0 {
        any_failure_shows(outcomes.drop_last());
        if failed_of(outcomes) == 0 {
            assert forall|i: int| 0 <= i < outcomes.len() implies outcomes[i] by {
                if i < outcomes.len() - 1 {
                    assert(outcomes.drop_last()[i]);
                }
            }
        } else if outcomes.last() {
            let i = choose|i: int|
                0 <= i < outcomes.drop_last().len() && !outcomes.drop_last()[i];
            assert(!outcomes[i]);
        }
    }
}

/// A run that passes shows that the next borrower got the answer to its own question: the version
/// of its stream, and not that of the request that was dropped; and that the request had gone out.
pub proof fn the_next_borrower_gets_its_own_answer(history: Seq<Reply>)
    requires
        passes(test_cancelled_request_does_not_leak_response_steps(), history),
    ensures
        history[9] == Reply::Flag(false) || turned_down(history[9]),
        history[10] == Reply::Refused(Refusal::OutOfStep),
        history[12] matches Reply::Details(version, _) && version == 1,
{
    test_cancelled_request_does_not_leak_response_passes(history);
}

/// A run that passes shows that the borrower was refused twice, and answered neither time.
pub proof fn the_same_borrower_is_refused_twice(history: Seq<Reply>)
    requires
        passes(test_same_lease_reuse_after_cancellation_steps(), history),
    ensures
        history[12] == Reply::Refused(Refusal::OutOfStep),
        history[13] == Reply::Refused(Refusal::OutOfStep),
{
    test_same_lease_reuse_after_cancellation_passes(history);
}

} // verus!
