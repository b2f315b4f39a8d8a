//! What scenarios are made of: keys, events, writes, servers and the refusals of a server.

use crate::text::{decimal, push_decimal};
use vstd::prelude::*;

verus! {

/// The address of an aggregate.
#[derive(Debug, Clone, Copy, PartialEq, Eq, Structural)]
pub struct AggregateKey {
    pub org_id: u128,
    pub aggregate_type_id: u128,
    pub aggregate_id: u128,
}

impl AggregateKey {
    #[verifier::allow_in_spec]
    pub fn new(org_id: u128, aggregate_type_id: u128, aggregate_id: u128) -> AggregateKey
        returns
            (AggregateKey { org_id, aggregate_type_id, aggregate_id }),
    {
        AggregateKey { org_id, aggregate_type_id, aggregate_id }
    }
}

/// The value that an event carries.
#[derive(Debug, Clone, Copy)]
pub enum Payload {
    /// The text itself.
    Text(&'static str),
    /// `{"event":N}` for the event's number.
    EventNumber,
    /// `{"n":N}` for the event's number.
    Number,
    /// `{"LABEL":W}` for the number of the writer that sends it.
    Writer(&'static str),
    /// `{"agg":W,"seq":N}` for the writer's number and the event's number.
    Tagged,
    /// `LEN` times the letter `x`.
    Repeated(usize),
    /// `LEN` bytes that do not compress, drawn from one generator in the order of the writes.
    Random(usize),
    /// `LEN` bytes that do not compress, seeded by the event's number.
    Seeded(usize),
    /// `LEN` bytes that do not compress, seeded by a multiple of the event's number.
    Scattered(usize),
}

/// What keeps the seeds of neighbouring events apart.
pub const SCATTER: u64 = 0x9E37_79B9;

/// The length of a seeded payload and the seed that event number `n` gives it.
#[verifier::allow_in_spec]
pub fn seed_of(p: Payload, n: u64) -> Option<(usize, u64)>
    returns
        (match p {
            Payload::Seeded(len) => Some((len, n)),
            Payload::Scattered(len) => Some((len, n.wrapping_mul(SCATTER))),
            _ => None,
        }),
{
    match p {
        Payload::Seeded(len) => Some((len, n)),
        Payload::Scattered(len) => Some((len, n.wrapping_mul(SCATTER))),
        _ => None,
    }
}

/// Text between two numbers, as a payload spells it.
pub open spec fn numbered(before: Seq<char>, n: nat, after: Seq<char>) -> Seq<char> {
    before + decimal(n) + after
}

/// `before`, the decimal spelling of `n`, and `after`.
pub fn numbered_text(before: &str, n: u64, after: &str) -> (r: String)
    ensures
        r@ == numbered(before@, n as nat, after@),
{
    let mut out: String = before.to_owned();
    push_decimal(&mut out, n as u128);
    out.append(after);
    out
}

/// The text of a payload that is text, for event number `n` of writer `w`.
pub open spec fn payload_text(p: Payload, w: u64, n: u64) -> Option<Seq<char>> {
    match p {
        Payload::Text(s) => Some(s@),
        Payload::EventNumber => Some(numbered("{\"event\":"@, n as nat, "}"@)),
        Payload::Number => Some(numbered("{\"n\":"@, n as nat, "}"@)),
        Payload::Writer(label) => Some(numbered("{\""@ + label@ + "\":"@, w as nat, "}"@)),
        Payload::Tagged => Some(
            numbered(numbered("{\"agg\":"@, w as nat, ",\"seq\":"@), n as nat, "}"@),
        ),
        _ => None,
    }
}

/// The text of a payload that is text, for event number `n` of writer `w`.
pub fn render_payload(p: Payload, w: u64, n: u64) -> (r: Option<String>)
    ensures
        match (r, payload_text(p, w, n)) {
            (Some(s), Some(t)) => s@ == t,
            (None, None) => true,
            _ => false,
        },
{
    match p {
        Payload::Text(s) => Some(s.to_owned()),
        Payload::EventNumber => Some(numbered_text("{\"event\":", n, "}")),
        Payload::Number => Some(numbered_text("{\"n\":", n, "}")),
        Payload::Writer(label) => {
            let mut head: String = "{\"".to_owned();
            head.append(label);
            head.append("\":");
            Some(numbered_text(head.as_str(), w, "}"))
        },
        Payload::Tagged => {
            let head: String = numbered_text("{\"agg\":", w, ",\"seq\":");
            Some(numbered_text(head.as_str(), n, "}"))
        },
        _ => None,
    }
}

/// One event to append, with the conditions under which the server is to accept it.
#[derive(Debug, Clone, Copy)]
pub struct Write {
    pub key: AggregateKey,
    /// The client's own number for the event.
    pub client_seq: u64,
    pub event_type_major: u64,
    pub event_type_minor: u64,
    pub timestamp: u64,
    pub payload: Payload,
    pub client_id: u128,
    pub allow_create: bool,
    pub expected_version: Option<u64>,
    pub enforce_client_idempotency: bool,
}

/// An unconditional append by client 0.
#[verifier::allow_in_spec]
pub fn append(
    key: AggregateKey,
    client_seq: u64,
    event_type_major: u64,
    timestamp: u64,
    payload: Payload,
) -> Write
    returns
        (Write {
            key,
            client_seq,
            event_type_major,
            event_type_minor: 0,
            timestamp,
            payload,
            client_id: 0,
            allow_create: false,
            expected_version: None,
            enforce_client_idempotency: false,
        }),
{
    Write {
        key,
        client_seq,
        event_type_major,
        event_type_minor: 0,
        timestamp,
        payload,
        client_id: 0,
        allow_create: false,
        expected_version: None,
        enforce_client_idempotency: false,
    }
}

/// The last event number that still has a timestamp.
pub const LAST_EVENT: u64 = 18446744073709550615;

/// Events `lo` to `hi` of one aggregate, one write each: event `i` has the timestamp `1000 + i`,
/// the first may create the aggregate, and a guarded run binds event `i` to version `i`.
#[derive(Debug, Clone, Copy)]
pub struct Sequence {
    pub key: AggregateKey,
    pub lo: u64,
    pub hi: u64,
    pub event_type_major: u64,
    pub payload: Payload,
    pub guarded: bool,
}

impl Sequence {
    /// Whether every event number can be turned into a timestamp and a version.
    pub open spec fn fits(self) -> bool {
        1 <= self.lo && self.hi <= LAST_EVENT
    }

    /// The write of event `i`.
    pub open spec fn write(self, i: u64) -> Write {
        Write {
            key: self.key,
            client_seq: i,
            event_type_major: self.event_type_major,
            event_type_minor: 0,
            timestamp: (1000 + i) as u64,
            payload: self.payload,
            client_id: 0,
            allow_create: i == 1,
            expected_version: if self.guarded {
                Some((i - 1) as u64)
            } else {
                None
            },
            enforce_client_idempotency: false,
        }
    }

    /// The write of event `i`.
    pub fn write_at(&self, i: u64) -> (r: Write)
        requires
            self.fits(),
            self.lo <= i <= self.hi,
        ensures
            r == self.write(i),
    {
        Write {
            key: self.key,
            client_seq: i,
            event_type_major: self.event_type_major,
            event_type_minor: 0,
            timestamp: 1000 + i,
            payload: self.payload,
            client_id: 0,
            allow_create: i == 1,
            expected_version: if self.guarded {
                Some(i - 1)
            } else {
                None
            },
            enforce_client_idempotency: false,
        }
    }
}

impl Sequence {
    /// The same events for the aggregate that is `w` further on.
    pub open spec fn shifted(self, w: u64) -> Sequence {
        Sequence {
            key: AggregateKey {
                aggregate_id: (self.key.aggregate_id + w) as u128,
                ..self.key
            },
            ..self
        }
    }

    /// The same events for the aggregate that is `w` further on: those of writer `w`.
    pub fn for_writer(&self, w: u64) -> (r: Sequence)
        requires
            self.key.aggregate_id + w <= u128::MAX,
        ensures
            r == self.shifted(w),
    {
        Sequence {
            key: AggregateKey { aggregate_id: self.key.aggregate_id + w as u128, ..self.key },
            ..*self
        }
    }
}

/// Writers with different numbers write to different aggregates.
pub proof fn writers_have_keys_of_their_own(s: Sequence, v: u64, w: u64)
    requires
        v != w,
        s.key.aggregate_id + v <= u128::MAX,
        s.key.aggregate_id + w <= u128::MAX,
    ensures
        s.shifted(v).key != s.shifted(w).key,
{
}

/// In a guarded sequence the version that each write leaves behind is the one that the next
/// write expects, so a lost or doubled event stops the sequence.
pub proof fn guarded_writes_chain(s: Sequence, i: u64)
    requires
        s.fits(),
        s.guarded,
        s.lo <= i < s.hi,
    ensures
        s.write((i + 1) as u64).expected_version == Some(s.write(i).client_seq),
        s.write(i).client_seq == i,
{
}

/// The event that counts the writes of a replication scenario: number `n`, with its number as its
/// value. The first of a stream expects that there is none.
#[verifier::allow_in_spec]
pub fn numbered_event(key: AggregateKey, n: u64, allow_create: bool) -> Write
    requires
        n <= LAST_EVENT,
    returns
        (Write {
            key,
            client_seq: n,
            event_type_major: 100,
            event_type_minor: 0,
            timestamp: (1000 + n) as u64,
            payload: Payload::EventNumber,
            client_id: 999,
            allow_create,
            expected_version: if n == 1 {
                Some(0u64)
            } else {
                None
            },
            enforce_client_idempotency: false,
        }),
{
    Write {
        key,
        client_seq: n,
        event_type_major: 100,
        event_type_minor: 0,
        timestamp: 1000 + n,
        payload: Payload::EventNumber,
        client_id: 999,
        allow_create,
        expected_version: if n == 1 {
            Some(0u64)
        } else {
            None
        },
        enforce_client_idempotency: false,
    }
}

/// Why a server, or the client on its behalf, turned a request down.
#[derive(Debug, Clone, Copy, PartialEq, Eq, Structural)]
pub enum Refusal {
    /// The server's own error code.
    Coded(u32),
    /// The node is not the leader and does not know who is.
    NotLeader,
    /// Nothing came back in time.
    TimedOut,
    /// There was no connection to send it on.
    Unreachable,
    /// The client will not use a connection on which an answer is still due.
    OutOfStep,
    /// Anything else.
    Other,
}

/// The requested range starts before the first version that is kept.
pub const READ_UNAVAILABLE: u32 = 1000;

/// The aggregate that was to be read does not exist.
pub const READ_MISSING: u32 = 1001;

/// A write repeats a client's sequence number.
pub const CLIENT_IDEMPOTENCY_VIOLATION: u32 = 2002;

/// A write expected another version.
pub const OPTIMISTIC_CONCURRENCY_VIOLATION: u32 = 2003;

/// The aggregate was deleted for good.
pub const RECREATE_NOT_ALLOWED: u32 = 2006;

/// The follower cannot keep up: the client is to back off.
pub const SERVER_BUSY: u32 = 2012;

/// The same write is still under way.
pub const INFLIGHT_DUPLICATE: u32 = 2013;

/// A schema of that type and version is registered already.
pub const SCHEMA_EXISTS: u32 = 2020;

/// The text is no schema.
pub const SCHEMA_INVALID: u32 = 2021;

/// The event does not conform to its schema.
pub const SCHEMA_VALIDATION_FAILED: u32 = 2022;

/// The aggregate that was to be trimmed does not exist.
pub const TRIM_MISSING: u32 = 3000;

/// The version to keep from is outside the stream.
pub const TRIM_OUT_OF_RANGE: u32 = 3004;

/// The aggregate that was to be deleted does not exist.
pub const DELETE_MISSING: u32 = 4000;

/// A deletion expected another version.
pub const DELETE_CONCURRENCY_VIOLATION: u32 = 4002;

/// The requested latency is above the server's cap.
pub const LATENCY_TOO_HIGH: u32 = 8001;

/// The keys of one request belong to different shards.
pub const MULTIPLE_SHARDS: u32 = 9001;

/// The filters of a watch do not fit the routing rule.
pub const INCOMPATIBLE_FILTERS: u32 = 9002;

/// The signature does not verify.
pub const INVALID_SIGNATURE: u32 = 10002;

/// A write names another client than the one identified.
pub const IDENTITY_MISMATCH: u32 = 10003;

/// The server wants an identity and got none.
pub const IDENTITY_REQUIRED: u32 = 10004;

/// How a racing write came out.
#[derive(Debug, Clone, Copy, PartialEq, Eq, Structural)]
pub enum Outcome {
    Won,
    /// Another writer had moved the version.
    OccLost,
    /// The server had the same write already, or was busy with it.
    Deduped,
    Other,
}

/// What the reply to a racing write means: accepted, lost to another writer, dropped as a
/// duplicate, or something else.
#[verifier::allow_in_spec]
pub fn classify(refusal: Option<Refusal>) -> Outcome
    returns
        (match refusal {
            None => Outcome::Won,
            Some(Refusal::Coded(code)) => if code == 2003 {
                Outcome::OccLost
            } else if code == 2002 || code == 2013 {
                Outcome::Deduped
            } else {
                Outcome::Other
            },
            Some(_) => Outcome::Other,
        }),
{
    match refusal {
        None => Outcome::Won,
        Some(Refusal::Coded(code)) => if code == OPTIMISTIC_CONCURRENCY_VIOLATION {
            Outcome::OccLost
        } else if code == CLIENT_IDEMPOTENCY_VIOLATION || code == INFLIGHT_DUPLICATE {
            Outcome::Deduped
        } else {
            Outcome::Other
        },
        Some(_) => Outcome::Other,
    }
}

/// From one event of a replication scenario to the next the number and the time go up by one, and only
/// the first expects that there is none before it.
pub proof fn numbered_events_follow_each_other(key: AggregateKey, n: u64, create: bool)
    requires
        1 <= n < LAST_EVENT,
    ensures
        ({
            let (a, b) = (numbered_event(key, n, create), numbered_event(key, (n + 1) as u64, create));
            &&& b.client_seq - a.client_seq == 1
            &&& b.timestamp - a.timestamp == 1
            &&& a.client_seq == n
            &&& b.expected_version is None
            &&& a.expected_version is Some <==> n == 1
            &&& a.expected_version is Some ==> a.expected_version == Some((a.client_seq - 1) as u64)
            &&& a.key == b.key && a.client_id == b.client_id && a.payload == b.payload
        }),
{
}

/// From one event of a sequence to the next the number and the time go up by one and the version that is
/// expected, where one is, goes along; only the very first may create the aggregate.
pub proof fn events_of_a_sequence_follow_each_other(s: Sequence, i: u64)
    requires
        s.fits(),
        s.lo <= i < s.hi,
    ensures
        ({
            let (a, b) = (s.write(i), s.write((i + 1) as u64));
            &&& b.client_seq - a.client_seq == 1
            &&& b.timestamp - a.timestamp == 1
            &&& a.client_seq == i
            &&& a.allow_create <==> i == 1
            &&& !b.allow_create
            &&& s.guarded ==> b.expected_version == Some(a.client_seq) && a.expected_version is Some
            &&& !s.guarded ==> a.expected_version is None
            &&& a.key == s.key && b.key == s.key
        }),
{
}

/// A server that refuses one code is not taken for one that refuses another: what a racing write's reply
/// means is told by its code alone.
pub proof fn codes_tell_outcomes_apart(code: u32)
    ensures
        classify(None) == Outcome::Won,
        classify(Some(Refusal::Coded(code))) == Outcome::OccLost <==> code == 2003,
        classify(Some(Refusal::Coded(code))) == Outcome::Deduped <==> code == 2002 || code == 2013,
        classify(Some(Refusal::Coded(code))) != Outcome::Won,
        classify(Some(Refusal::NotLeader)) == Outcome::Other,
{
}

} // verus!
