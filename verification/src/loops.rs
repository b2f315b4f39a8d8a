//! The loops that a single action of a scenario stands for: what each does next, and when it ends.

use crate::model::{AggregateKey, Refusal, SERVER_BUSY, Sequence, Write, numbered_event};
use crate::reply::{Batch, Pair, Reply};
use vstd::prelude::*;

verus! {

/// The writes of a sequence, one after the other, up to the first refusal.
pub struct Sender {
    pub sequence: Sequence,
    /// How many were accepted.
    pub accepted: u64,
    pub refused: Option<Refusal>,
}

impl Sender {
    /// The next write is in the sequence, or right behind it.
    pub open spec fn wf(&self) -> bool {
        &&& self.sequence.fits()
        &&& self.accepted <= self.length()
        &&& self.refused is Some ==> self.accepted < self.length()
    }

    /// How many writes there are.
    pub open spec fn length(&self) -> int {
        if self.sequence.hi < self.sequence.lo {
            0
        } else {
            self.sequence.hi - self.sequence.lo + 1
        }
    }

    /// A sequence before its first write.
    pub fn new(sequence: Sequence) -> (r: Sender)
        requires
            sequence.fits(),
        ensures
            r.wf(),
            r.sequence == sequence,
            r.accepted == 0,
            r.refused is None,
    {
        Sender { sequence, accepted: 0, refused: None }
    }

    /// The next write; nothing once all are sent or one was refused.
    pub fn next(&self) -> (r: Option<Write>)
        requires
            self.wf(),
        ensures
            r == if self.refused is None && self.accepted < self.length() {
                Some(self.sequence.write((self.sequence.lo + self.accepted) as u64))
            } else {
                None
            },
    {
        if self.refused.is_some() || self.sequence.hi < self.sequence.lo || self.accepted
            > self.sequence.hi - self.sequence.lo {
            None
        } else {
            Some(self.sequence.write_at(self.sequence.lo + self.accepted))
        }
    }

    /// Takes the reply to a write; `None` is an acknowledgement.
    pub fn observe(&mut self, reply: Option<Refusal>)
        requires
            old(self).wf(),
            old(self).refused is None,
            old(self).accepted < old(self).length(),
        ensures
            final(self).wf(),
            final(self).sequence == old(self).sequence,
            final(self).refused == reply,
            final(self).accepted == old(self).accepted + if reply is None {
                1int
            } else {
                0
            },
    {
        match reply {
            None => {
                self.accepted = self.accepted + 1;
            },
            Some(r) => {
                self.refused = Some(r);
            },
        }
    }
}

impl Sender {
    /// What the writes that writer `writer` sent came to.
    pub fn outcome(&self, writer: u64) -> (r: Reply)
        requires
            self.wf(),
        ensures
            r == match self.refused {
                Some(refusal) => Reply::Halted {
                    writer,
                    event: (self.sequence.lo + self.accepted) as u64,
                    refusal,
                },
                None => Reply::Done,
            },
    {
        match self.refused {
            Some(refusal) => Reply::Halted {
                writer,
                event: self.sequence.lo + self.accepted,
                refusal,
            },
            None => Reply::Done,
        }
    }
}

/// Writes that go on whether or not each is accepted, until so many were sent or a time has passed.
/// Only an accepted write moves the number of the event on.
pub struct Pour {
    pub sequence: Sequence,
    /// How many writes may be sent.
    pub total: u64,
    pub deadline: u64,
    pub sent: u64,
    pub acked: u64,
    /// How many the server turned down as too much for it.
    pub busy: u64,
    /// How many were turned down in another way.
    pub rejected: u64,
}

impl Pour {
    /// Every write that was sent was acknowledged or turned down.
    pub open spec fn wf(&self) -> bool {
        &&& self.sequence.fits()
        &&& self.sequence.lo + self.total <= self.sequence.hi + 1
        &&& self.sent <= self.total
        &&& self.acked + self.busy + self.rejected == self.sent
    }

    /// A pour before its first write.
    pub fn new(sequence: Sequence, total: u64, deadline: u64) -> (r: Pour)
        requires
            sequence.fits(),
            sequence.lo + total <= sequence.hi + 1,
        ensures
            r.wf(),
            r.sequence == sequence,
            r.total == total,
            r.deadline == deadline,
            r.sent == 0,
    {
        Pour { sequence, total, deadline, sent: 0, acked: 0, busy: 0, rejected: 0 }
    }

    /// The next write at the time `now`.
    pub fn next(&self, now: u64) -> (r: Option<Write>)
        requires
            self.wf(),
        ensures
            r == if self.sent < self.total && now < self.deadline {
                Some(self.sequence.write((self.sequence.lo + self.acked) as u64))
            } else {
                None
            },
    {
        if self.sent < self.total && now < self.deadline {
            Some(self.sequence.write_at(self.sequence.lo + self.acked))
        } else {
            None
        }
    }

    /// Takes the reply to a write; `None` is an acknowledgement.
    pub fn observe(&mut self, reply: Option<Refusal>)
        requires
            old(self).wf(),
            old(self).sent < old(self).total,
        ensures
            final(self).wf(),
            final(self).sequence == old(self).sequence,
            final(self).total == old(self).total,
            final(self).deadline == old(self).deadline,
            final(self).sent == old(self).sent + 1,
            match reply {
                None => {
                    &&& final(self).acked == old(self).acked + 1
                    &&& final(self).busy == old(self).busy
                    &&& final(self).rejected == old(self).rejected
                },
                Some(r) => {
                    &&& final(self).acked == old(self).acked
                    &&& if r == Refusal::Coded(SERVER_BUSY) {
                        &&& final(self).busy == old(self).busy + 1
                        &&& final(self).rejected == old(self).rejected
                    } else {
                        &&& final(self).busy == old(self).busy
                        &&& final(self).rejected == old(self).rejected + 1
                    }
                },
            },
    {
        self.sent = self.sent + 1;
        match reply {
            None => {
                self.acked = self.acked + 1;
            },
            Some(r) => {
                if r == Refusal::Coded(SERVER_BUSY) {
                    self.busy = self.busy + 1;
                } else {
                    self.rejected = self.rejected + 1;
                }
            },
        }
    }
}

/// A write that was turned down is sent again under its number: no number is skipped, so the events
/// that were acknowledged are numbered without a gap.
pub proof fn a_refused_write_keeps_its_number(before: Pour, after: Pour)
    requires
        before.wf(),
        after.wf(),
        after.sequence == before.sequence,
        after.acked == before.acked,
        before.sent < after.sent < after.total,
    ensures
        after.sequence.write((after.sequence.lo + after.acked) as u64) == before.sequence.write(
            (before.sequence.lo + before.acked) as u64,
        ),
{
}

/// A stream that is read on from the last version seen, at every report of a watch.
pub struct CursorDrain {
    /// How many versions are waited for.
    pub versions: u64,
    pub deadline: u64,
    /// The first version that was not seen yet.
    pub cursor: u64,
    pub seen: Vec<u64>,
}

/// The cursor behind the last of `versions`, or where it was.
pub open spec fn behind(cursor: u64, versions: Seq<u64>) -> int {
    if versions.len() == 0 {
        cursor as int
    } else {
        versions.last() + 1
    }
}

impl CursorDrain {
    /// A drain that has seen nothing.
    pub fn new(versions: u64, deadline: u64) -> (r: CursorDrain)
        ensures
            r.versions == versions,
            r.deadline == deadline,
            r.cursor == 1,
            r.seen@.len() == 0,
    {
        CursorDrain { versions, deadline, cursor: 1, seen: Vec::new() }
    }

    /// Whether another report is waited for at the time `now`.
    pub fn goes_on(&self, now: u64) -> (r: bool)
        ensures
            r == (self.seen@.len() < self.versions && now < self.deadline),
    {
        (self.seen.len() as u64) < self.versions && now < self.deadline
    }

    /// Takes the versions that were read from the cursor on.
    pub fn observe(&mut self, versions: &Vec<u64>)
        requires
            forall|i: int| 0 <= i < versions@.len() ==> #[trigger] versions@[i] < u64::MAX,
        ensures
            final(self).versions == old(self).versions,
            final(self).deadline == old(self).deadline,
            final(self).seen@ == old(self).seen@ + versions@,
            final(self).cursor == behind(old(self).cursor, versions@),
    {
        for i in 0..versions.len()
            invariant
                forall|k: int| 0 <= k < versions@.len() ==> #[trigger] versions@[k] < u64::MAX,
                self.versions == old(self).versions,
                self.deadline == old(self).deadline,
                self.seen@ == old(self).seen@ + versions@.take(i as int),
                self.cursor == behind(old(self).cursor, versions@.take(i as int)),
        {
            assert(versions@.take(i + 1) =~= versions@.take(i as int).push(versions@[i as int]));
            let v: u64 = versions[i];
            assert(versions@[i as int] < u64::MAX);
            self.seen.push(v);
            self.cursor = v + 1;
            assert(self.seen@ =~= old(self).seen@ + versions@.take(i + 1));
        }
        assert(versions@.take(versions@.len() as int) =~= versions@);
    }
}

/// Reading on from the cursor misses nothing and repeats nothing: where every reading gives the
/// versions from the cursor on without a gap, what was seen counts up from 1, right up to the
/// cursor.
pub proof fn draining_misses_nothing(before: CursorDrain, after: CursorDrain, versions: Seq<u64>)
    requires
        before.seen@.len() == before.cursor - 1,
        forall|i: int| 0 <= i < before.seen@.len() ==> #[trigger] before.seen@[i] == i + 1,
        forall|i: int| 0 <= i < versions.len() ==> #[trigger] versions[i] == before.cursor + i,
        after.seen@ == before.seen@ + versions,
        after.cursor == behind(before.cursor, versions),
    ensures
        after.seen@.len() == after.cursor - 1,
        forall|i: int| 0 <= i < after.seen@.len() ==> #[trigger] after.seen@[i] == i + 1,
{
}

/// The generator of values that do not compress: one 64-bit state, mixed by three shifts for each
/// byte.
pub struct Noise {
    pub state: u64,
}

/// The state that a stretch of noise begins with.
pub const NOISE_SEED: u64 = 0x1234_5678_9abc_def0;

/// The state after one more byte.
pub open spec fn stirred(state: u64) -> u64 {
    let a = state ^ (state << 13);
    let b = a ^ (a >> 7);
    b ^ (b << 17)
}

/// The state after `n` more bytes.
pub open spec fn stirred_times(state: u64, n: nat) -> u64
    decreases n,
{
    if n == 0 {
        state
    } else {
        stirred(stirred_times(state, (n - 1) as nat))
    }
}

impl Noise {
    /// The generator at its first byte.
    pub fn new() -> (r: Noise)
        ensures
            r.state == NOISE_SEED,
    {
        Noise { state: NOISE_SEED }
    }

    /// The next `n` bytes: the low byte of each state.
    pub fn take(&mut self, n: usize) -> (r: Vec<u8>)
        ensures
            final(self).state == stirred_times(old(self).state, n as nat),
            r@ == Seq::new(
                n as nat,
                |i: int| (stirred_times(old(self).state, (i + 1) as nat) & 0xff) as u8,
            ),
    {
        let mut out: Vec<u8> = Vec::new();
        for i in 0..n
            invariant
                self.state == stirred_times(old(self).state, i as nat),
                out@ == Seq::new(
                    i as nat,
                    |j: int| (stirred_times(old(self).state, (j + 1) as nat) & 0xff) as u8,
                ),
        {
            let a: u64 = self.state ^ (self.state << 13);
            let b: u64 = a ^ (a >> 7);
            self.state = b ^ (b << 17);
            assert(self.state == stirred_times(old(self).state, (i + 1) as nat));
            out.push((self.state & 0xff) as u8);
        }
        out
    }
}

/// Something that is looked at again and again until a time has passed.
pub struct Sampler {
    pub deadline: u64,
    pub samples: Vec<u64>,
}

impl Sampler {
    /// A sampler that has seen nothing.
    pub fn new(deadline: u64) -> (r: Sampler)
        ensures
            r.deadline == deadline,
            r.samples@.len() == 0,
    {
        Sampler { deadline, samples: Vec::new() }
    }

    /// Whether another look is due at the time `now`.
    pub fn goes_on(&self, now: u64) -> (r: bool)
        ensures
            r == (now < self.deadline),
    {
        now < self.deadline
    }

    /// Takes what was seen.
    pub fn observe(&mut self, value: u64)
        ensures
            final(self).deadline == old(self).deadline,
            final(self).samples@ == old(self).samples@.push(value),
    {
        self.samples.push(value);
    }
}

/// One event with a value of so many bytes, for an aggregate that is there already.
#[derive(Debug, Clone, Copy, PartialEq, Eq, Structural)]
pub struct LargeEvent {
    pub key: AggregateKey,
    pub n: u64,
    pub payload_bytes: u64,
}

/// Events `lo` to `hi` of one aggregate, each with a value of so many bytes, one after the other up
/// to the first refusal.
pub struct LargeSender {
    pub key: AggregateKey,
    pub lo: u64,
    pub hi: u64,
    pub payload_bytes: u64,
    /// How many were accepted.
    pub accepted: u64,
    pub refused: Option<Refusal>,
}

impl LargeSender {
    /// How many events there are.
    pub open spec fn length(&self) -> int {
        if self.hi < self.lo {
            0
        } else {
            self.hi - self.lo + 1
        }
    }

    /// The next event is one of them, or right behind them.
    pub open spec fn wf(&self) -> bool {
        self.accepted <= self.length()
    }

    /// Before the first event.
    pub fn new(key: AggregateKey, lo: u64, hi: u64, payload_bytes: u64) -> (r: LargeSender)
        ensures
            r.wf(),
            r.key == key,
            r.lo == lo,
            r.hi == hi,
            r.payload_bytes == payload_bytes,
            r.accepted == 0,
            r.refused is None,
    {
        LargeSender { key, lo, hi, payload_bytes, accepted: 0, refused: None }
    }

    /// The next event; nothing once all are sent or one was refused.
    pub fn next(&self) -> (r: Option<LargeEvent>)
        requires
            self.wf(),
        ensures
            r == if self.refused is None && self.accepted < self.length() {
                Some(
                    LargeEvent {
                        key: self.key,
                        n: (self.lo + self.accepted) as u64,
                        payload_bytes: self.payload_bytes,
                    },
                )
            } else {
                None
            },
    {
        if self.refused.is_some() || self.hi < self.lo || self.accepted > self.hi - self.lo {
            None
        } else {
            Some(
                LargeEvent {
                    key: self.key,
                    n: self.lo + self.accepted,
                    payload_bytes: self.payload_bytes,
                },
            )
        }
    }

    /// Takes the reply to an event; `None` is an acknowledgement.
    pub fn observe(&mut self, reply: Option<Refusal>)
        requires
            old(self).wf(),
            old(self).refused is None,
            old(self).accepted < old(self).length(),
            old(self).accepted < u64::MAX,
        ensures
            final(self).wf(),
            final(self).key == old(self).key,
            final(self).lo == old(self).lo,
            final(self).hi == old(self).hi,
            final(self).payload_bytes == old(self).payload_bytes,
            final(self).refused == reply,
            final(self).accepted == old(self).accepted + if reply is None {
                1int
            } else {
                0
            },
    {
        match reply {
            None => {
                self.accepted = self.accepted + 1;
            },
            Some(r) => {
                self.refused = Some(r);
            },
        }
    }
}

/// A write of a fill.
#[derive(Debug, Clone, Copy)]
pub enum FillWrite {
    /// The event that creates an aggregate.
    Create(Write),
    /// The event that gives it its size.
    Large(LargeEvent),
}

/// Aggregates 1 to `count` of a type, each with an event that creates it and one with a value of so
/// many bytes, one write after the other up to the first refusal.
pub struct ListedFill {
    pub org: u128,
    pub kind: u128,
    pub count: u128,
    pub payload_bytes: u64,
    /// How many aggregates are done.
    pub done: u128,
    /// Whether the next aggregate was created already.
    pub created: bool,
    pub refused: Option<Refusal>,
}

impl ListedFill {
    /// No aggregate is begun behind the last one.
    pub open spec fn wf(&self) -> bool {
        &&& self.done <= self.count
        &&& self.done == self.count ==> !self.created
    }

    /// The key of the aggregate that is filled next.
    pub open spec fn key(&self) -> AggregateKey {
        AggregateKey {
            org_id: self.org,
            aggregate_type_id: self.kind,
            aggregate_id: (self.done + 1) as u128,
        }
    }

    /// Before the first write.
    pub fn new(org: u128, kind: u128, count: u128, payload_bytes: u64) -> (r: ListedFill)
        ensures
            r.wf(),
            r.org == org,
            r.kind == kind,
            r.count == count,
            r.payload_bytes == payload_bytes,
            r.done == 0,
            !r.created,
            r.refused is None,
    {
        ListedFill { org, kind, count, payload_bytes, done: 0, created: false, refused: None }
    }

    /// The next write; nothing once all are sent or one was refused.
    pub fn next(&self) -> (r: Option<FillWrite>)
        requires
            self.wf(),
        ensures
            r == if self.refused is None && self.done < self.count {
                Some(
                    if self.created {
                        FillWrite::Large(
                            LargeEvent {
                                key: self.key(),
                                n: 2,
                                payload_bytes: self.payload_bytes,
                            },
                        )
                    } else {
                        FillWrite::Create(numbered_event(self.key(), 1, true))
                    },
                )
            } else {
                None
            },
    {
        if self.refused.is_some() || self.done >= self.count {
            return None;
        }
        let key: AggregateKey = AggregateKey {
            org_id: self.org,
            aggregate_type_id: self.kind,
            aggregate_id: self.done + 1,
        };
        if self.created {
            Some(FillWrite::Large(LargeEvent { key, n: 2, payload_bytes: self.payload_bytes }))
        } else {
            Some(FillWrite::Create(numbered_event(key, 1, true)))
        }
    }

    /// Takes the reply to a write; `None` is an acknowledgement.
    pub fn observe(&mut self, reply: Option<Refusal>)
        requires
            old(self).wf(),
            old(self).refused is None,
            old(self).done < old(self).count,
        ensures
            final(self).wf(),
            final(self).org == old(self).org,
            final(self).kind == old(self).kind,
            final(self).count == old(self).count,
            final(self).payload_bytes == old(self).payload_bytes,
            final(self).refused == reply,
            match reply {
                None => {
                    &&& final(self).created == !old(self).created
                    &&& final(self).done == old(self).done + if old(self).created {
                        1int
                    } else {
                        0
                    }
                },
                Some(_) => {
                    &&& final(self).created == old(self).created
                    &&& final(self).done == old(self).done
                },
            },
    {
        match reply {
            None => {
                if self.created {
                    self.done = self.done + 1;
                    self.created = false;
                } else {
                    self.created = true;
                }
            },
            Some(r) => {
                self.refused = Some(r);
            },
        }
    }
}

/// How many names there are in all of the listings.
pub open spec fn name_total(listings: Seq<Vec<String>>) -> nat
    decreases listings.len(),
{
    if listings.len() == 0 {
        0
    } else {
        name_total(listings.drop_last()) + listings.last()@.len()
    }
}

/// How many names there are in all of the listings; `None` where that is more than can be told.
pub fn count_names(listings: &Vec<Vec<String>>) -> (r: Option<u64>)
    ensures
        r == if name_total(listings@) <= u64::MAX {
            Some(name_total(listings@) as u64)
        } else {
            None
        },
{
    let mut total: u128 = 0;
    assert(listings@.take(0) =~= Seq::empty());
    for i in 0..listings.len()
        invariant
            total == name_total(listings@.take(i as int)),
            total <= i * usize::MAX,
    {
        assert(listings@.take(i + 1).drop_last() =~= listings@.take(i as int));
        assert(i * usize::MAX + usize::MAX <= usize::MAX * usize::MAX) by (nonlinear_arith)
            requires
                i < usize::MAX,
        ;
        assert((i + 1) * usize::MAX == i * usize::MAX + usize::MAX) by (nonlinear_arith);
        assert(usize::MAX * usize::MAX <= u128::MAX) by (nonlinear_arith)
            requires
                usize::MAX <= u64::MAX,
                u64::MAX * u64::MAX <= u128::MAX,
        ;
        total = total + listings[i].len() as u128;
    }
    assert(listings@.take(listings@.len() as int) =~= listings@);
    if total <= u64::MAX as u128 {
        Some(total as u64)
    } else {
        None
    }
}

/// What was read back under a batch, beside what was written.
pub open spec fn is_pair(p: Pair, b: Batch, written: Seq<u8>) -> bool {
    &&& p.version == b.version
    &&& p.events == b.events@.len()
    &&& p.written@ == written
    &&& p.read@ == if b.events@.len() > 0 {
        b.events@[0].value@
    } else {
        Seq::empty()
    }
}

/// Lays the values of a stream beside those that were written, batch by batch. What was written for
/// a batch behind the last write is nothing.
pub fn pair_up(batches: &Vec<Batch>, written: &Vec<Vec<u8>>) -> (r: Vec<Pair>)
    ensures
        r@.len() == batches@.len(),
        forall|i: int|
            0 <= i < r@.len() ==> is_pair(
                #[trigger] r@[i],
                batches@[i],
                if i < written@.len() {
                    written@[i]@
                } else {
                    Seq::empty()
                },
            ),
{
    let mut out: Vec<Pair> = Vec::new();
    for i in 0..batches.len()
        invariant
            out@.len() == i,
            forall|j: int|
                0 <= j < i ==> is_pair(
                    #[trigger] out@[j],
                    batches@[j],
                    if j < written@.len() {
                        written@[j]@
                    } else {
                        Seq::empty()
                    },
                ),
    {
        let b: &Batch = &batches[i];
        let read: Vec<u8> = if b.events.len() > 0 {
            copy_bytes(&b.events[0].value)
        } else {
            Vec::new()
        };
        let own: Vec<u8> = if i < written.len() {
            copy_bytes(&written[i])
        } else {
            Vec::new()
        };
        out.push(Pair { version: b.version, events: b.events.len() as u64, read, written: own });
    }
    out
}

fn copy_bytes(v: &Vec<u8>) -> (r: Vec<u8>)
    ensures
        r@ == v@,
{
    let mut out: Vec<u8> = Vec::new();
    for i in 0..v.len()
        invariant
            out@ == v@.take(i as int),
    {
        out.push(v[i]);
        assert(out@ =~= v@.take(i + 1));
    }
    assert(v@.take(v@.len() as int) =~= v@);
    out
}

} // verus!
