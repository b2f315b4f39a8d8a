//! The steps that the scenarios around the object store share.

use crate::bench::{Node, NodeConfig, Who, run_port};
use crate::expect::{Expect, NumberRule};
use crate::model::{AggregateKey, LAST_EVENT, Refusal, numbered_event};
use crate::reply::{Reply, count_batch_events, event_total};
use crate::script::{Action, Step, assertion_eq, await_events, must, note};
use vstd::prelude::*;

verus! {

/// The aggregate that most of these scenarios write to.
#[verifier::allow_in_spec]
pub fn main_key() -> AggregateKey
    returns
        (AggregateKey::new(1, 1, 1)),
{
    AggregateKey::new(1, 1, 1)
}

/// The start of the object store, ten ports above the block's first.
#[verifier::allow_in_spec]
pub fn store(base: u16, bucket: Option<&'static str>) -> Step
    returns
        (must(Action::StartStore { port: run_port(base, 10), bucket })),
{
    must(Action::StartStore { port: run_port(base, 10), bucket })
}

/// The start of node A at the block's first port.
#[verifier::allow_in_spec]
pub fn node_a(base: u16, label: Option<&'static str>, config: NodeConfig) -> Step
    returns
        (must(Action::StartNode { node: Node::A, port: run_port(base, 0), label, config })),
{
    must(Action::StartNode { node: Node::A, port: run_port(base, 0), label, config })
}

/// The start of node B a hundred ports above the block's first.
#[verifier::allow_in_spec]
pub fn node_b(base: u16, label: Option<&'static str>, config: NodeConfig) -> Step
    returns
        (must(Action::StartNode { node: Node::B, port: run_port(base, 100), label, config })),
{
    must(Action::StartNode { node: Node::B, port: run_port(base, 100), label, config })
}

/// A pause.
#[verifier::allow_in_spec]
pub fn pause(ms: u64) -> Step
    returns
        (note(Action::Sleep(ms))),
{
    note(Action::Sleep(ms))
}

/// The write of event `n` to an aggregate, which the first event may create.
#[verifier::allow_in_spec]
pub fn event_to(who: Who, key: AggregateKey, n: u64) -> Step
    requires
        n <= LAST_EVENT,
    returns
        (must(Action::Write(who, numbered_event(key, n, n == 1)))),
{
    must(Action::Write(who, numbered_event(key, n, n == 1)))
}

/// The write of event `n` to the main aggregate, which the first event may create.
#[verifier::allow_in_spec]
pub fn event(who: Who, n: u64) -> Step
    requires
        n <= LAST_EVENT,
    returns
        (event_to(who, main_key(), n)),
{
    event_to(who, main_key(), n)
}

/// The number of events that a node must have of the main aggregate.
#[verifier::allow_in_spec]
pub fn has_events(who: Who, n: u64, message: &'static str) -> Step
    returns
        (assertion_eq(Action::Count(who, main_key()), Expect::Number(NumberRule::Is(n)), message)),
{
    assertion_eq(Action::Count(who, main_key()), Expect::Number(NumberRule::Is(n)), message)
}

/// The number of events of the main aggregate that a node must come up to.
#[verifier::allow_in_spec]
pub fn converges(who: Who, n: u64, message: &'static str) -> Step
    returns
        (assertion_eq(
            Action::AwaitConverged(who, main_key(), n),
            Expect::Number(NumberRule::Is(n)),
            message,
        )),
{
    assertion_eq(
        Action::AwaitConverged(who, main_key(), n),
        Expect::Number(NumberRule::Is(n)),
        message,
    )
}

/// The number of events of the main aggregate that is waited for.
#[verifier::allow_in_spec]
pub fn awaits_events(who: Who, n: u64, within_ms: u64) -> Step
    returns
        (await_events(who, main_key(), n, within_ms)),
{
    await_events(who, main_key(), n, within_ms)
}

/// How many events the answer to a read shows: those of its batches, none where the server says
/// that there is nothing to read, and no number where the answer is something else.
pub open spec fn events_shown(reply: Reply) -> Option<nat> {
    match reply {
        Reply::Batches(batches) => Some(event_total(batches@)),
        Reply::Refused(Refusal::Coded(_)) => Some(0),
        _ => None,
    }
}

/// How many events the answer to a read shows.
pub fn count_events(reply: &Reply) -> (r: Option<u64>)
    requires
        events_shown(*reply) matches Some(n) ==> n <= u64::MAX,
    ensures
        match r {
            Some(n) => events_shown(*reply) == Some(n as nat),
            None => events_shown(*reply) is None,
        },
{
    match reply {
        Reply::Batches(batches) => Some(count_batch_events(batches)),
        Reply::Refused(Refusal::Coded(_)) => Some(0),
        _ => None,
    }
}

/// A write that must be turned down.
#[verifier::allow_in_spec]
pub fn refuses(who: Who, key: AggregateKey, n: u64, create: bool, message: &'static str) -> Step
    requires
        n <= LAST_EVENT,
    returns
        (crate::script::step(
            Action::Write(who, numbered_event(key, n, create)),
            Expect::Rejected,
            message,
        )),
{
    crate::script::step(
        Action::Write(who, numbered_event(key, n, create)),
        Expect::Rejected,
        message,
    )
}

} // verus!
