//! After a crash the first touch of an aggregate reads little, however much history there is.
//!
//! A server is filled until its log has been rotated twice, killed under load, and started again.
//! Then two first touches are measured by what the process read from its disk. Each sealed segment
//! has a summary beside it from which the server can tell that it holds nothing of interest; a
//! touch that goes by the summaries reads a few chunks, one that walks the segments reads them
//! whole.

use crate::bench::{NodeConfig, standalone};
use crate::model::AggregateKey;
use crate::text::{decimal, push_decimal};
use vstd::prelude::*;

verus! {

pub const PREALLOCATE: u64 = 2_097_152;

/// How many segments have to be sealed before the kill: with two, walking one and walking all can
/// be told apart.
pub const MIN_SEALED: u64 = 2;

pub const N_AGGS: u64 = 64;

pub const PAYLOAD_BYTES: usize = 1024;

/// The one client that writes before the crash.
pub const CLIENT_LOAD: u128 = 7777;

pub const MAX_LOAD_WRITES: u64 = 8000;

/// What a first touch may read.
pub const BUDGET: u64 = 262_144;

/// How long a summary may take to appear, and how often it is looked for.
pub const SIDECAR_WITHIN_MS: u64 = 30_000;

pub const SIDECAR_EVERY_MS: u64 = 200;

/// How long the server may go on reading after its start, and how often that is looked at.
pub const QUIET_WITHIN_MS: u64 = 60_000;

pub const QUIET_EVERY_MS: u64 = 700;

/// How often the directory of the shard is looked for.
pub const SHARD_EVERY_MS: u64 = 100;

/// How long the writer runs before the kill, and how long the server stays down.
pub const CRASH_AFTER_MS: u64 = 500;

pub const DOWN_MS: u64 = 1_000;

/// The settings of the server.
#[verifier::allow_in_spec]
pub fn server_config() -> NodeConfig
    returns
        (NodeConfig { shard_log_preallocate_bytes: Some(PREALLOCATE), ..standalone(1) }),
{
    NodeConfig { shard_log_preallocate_bytes: Some(PREALLOCATE), ..standalone(1) }
}

/// The aggregate at position `a`; they are numbered from 1.
#[verifier::allow_in_spec]
pub fn agg_key(a: u64) -> AggregateKey
    returns
        (AggregateKey::new(1, 1, (a as u128 + 1) as u128)),
{
    AggregateKey::new(1, 1, a as u128 + 1)
}

/// The step of the generator's state.
pub const GOLDEN: u64 = 0x9E37_79B9_7F4A_7C15;

/// The first multiplier of the generator.
pub const MIX_1: u64 = 0xBF58_476D_1CE4_E5B9;

/// The second multiplier of the generator.
pub const MIX_2: u64 = 0x94D0_49BB_1331_11EB;

/// The state of the generator for one write, before its first word.
#[verifier::allow_in_spec]
pub fn seed(a: u64, seq: u64) -> u64
    returns
        (a.wrapping_mul(GOLDEN) ^ seq.wrapping_mul(MIX_1)),
{
    a.wrapping_mul(GOLDEN) ^ seq.wrapping_mul(MIX_1)
}

/// The word that a state gives.
#[verifier::allow_in_spec]
pub fn mixed(x: u64) -> u64
    returns
        ({
            let y = (x ^ (x >> 30)).wrapping_mul(MIX_1);
            let z = (y ^ (y >> 27)).wrapping_mul(MIX_2);
            z ^ (z >> 31)
        }),
{
    let y: u64 = (x ^ (x >> 30)).wrapping_mul(MIX_1);
    let z: u64 = (y ^ (y >> 27)).wrapping_mul(MIX_2);
    z ^ (z >> 31)
}

/// The state after `k` words.
pub open spec fn state_after(x: u64, k: nat) -> u64
    decreases k,
{
    if k == 0 {
        x
    } else {
        state_after(x, (k - 1) as nat).wrapping_add(GOLDEN)
    }
}

/// Byte `j` of a word, the lowest first.
#[verifier::allow_in_spec]
pub fn byte_of(word: u64, j: u64) -> u8
    requires
        j < 8,
    returns
        (((word >> (8 * j) as u64) & 0xff) as u8),
{
    ((word >> (8 * j)) & 0xff) as u8
}

/// The value of write `seq` to aggregate `a`: the words of the generator, one after the other.
pub open spec fn payload_bytes(a: u64, seq: u64) -> Seq<u8> {
    Seq::new(
        PAYLOAD_BYTES as nat,
        |i: int| byte_of(mixed(state_after(seed(a, seq), (i / 8 + 1) as nat)), (i % 8) as u64),
    )
}

/// The value of write `seq` to aggregate `a`. It does not compress, so that the log is rotated.
pub fn payload(a: u64, seq: u64) -> (r: Vec<u8>)
    ensures
        r@ == payload_bytes(a, seq),
{
    let mut x: u64 = seed(a, seq);
    let mut out: Vec<u8> = Vec::new();
    for k in 0..128usize
        invariant
            x == state_after(seed(a, seq), k as nat),
            out@ == payload_bytes(a, seq).take(8 * k),
    {
        x = x.wrapping_add(GOLDEN);
        assert(x == state_after(seed(a, seq), (k + 1) as nat));
        let word: u64 = mixed(x);
        for j in 0..8u64
            invariant
                k < 128,
                x == state_after(seed(a, seq), (k + 1) as nat),
                word == mixed(x),
                out@ == payload_bytes(a, seq).take(8 * k + j),
        {
            out.push(byte_of(word, j));
            assert(payload_bytes(a, seq)[8 * k + j] == byte_of(word, j)) by {
                assert((8 * k + j) / 8 == k);
                assert((8 * k + j) % 8 == j);
            }
            assert(out@ =~= payload_bytes(a, seq).take(8 * k + j + 1));
        }
    }
    assert(payload_bytes(a, seq).take(1024) =~= payload_bytes(a, seq));
    out
}

/// One write of this scenario: an event of type 1.0.
#[derive(Debug)]
pub struct LoadWrite {
    pub key: AggregateKey,
    pub client_seq: u64,
    pub timestamp: u64,
    pub value: Vec<u8>,
    pub client_id: u128,
    pub allow_create: bool,
    pub enforce_client_idempotency: bool,
}

/// Whether `w` is write `seq` to aggregate `a`, by this client and under these conditions.
pub open spec fn is_event(
    w: LoadWrite,
    seq: u64,
    a: u64,
    client_id: u128,
    allow_create: bool,
    idempotent: bool,
) -> bool {
    &&& w.key == agg_key(a)
    &&& w.client_seq == seq
    &&& w.timestamp == 1000 + seq
    &&& w.value@ == payload_bytes(a, seq)
    &&& w.client_id == client_id
    &&& w.allow_create == allow_create
    &&& w.enforce_client_idempotency == idempotent
}

/// Write `seq` to aggregate `a`.
pub fn ev(seq: u64, a: u64, client_id: u128, allow_create: bool, idempotent: bool) -> (r: LoadWrite)
    requires
        1000 + seq <= u64::MAX,
    ensures
        is_event(r, seq, a, client_id, allow_create, idempotent),
{
    LoadWrite {
        key: agg_key(a),
        client_seq: seq,
        timestamp: 1000 + seq,
        value: payload(a, seq),
        client_id,
        allow_create,
        enforce_client_idempotency: idempotent,
    }
}

/// What the load needs next.
#[derive(Debug, Clone, Copy, PartialEq, Eq, Structural)]
pub enum LoadPhase {
    /// Another write.
    Writing,
    /// The number of segments: a round over all aggregates is over.
    Counting,
    /// Nothing: the log was rotated often enough.
    Rotated,
    /// Nothing: too many writes did not rotate it.
    GaveUp,
}

/// The load before the crash: rounds over all aggregates until the log was rotated often enough.
pub struct Load {
    pub seq: u64,
    pub phase: LoadPhase,
}

/// What the load needs after write `seq`.
#[verifier::allow_in_spec]
pub fn after_write(seq: u64) -> LoadPhase
    returns
        (if seq >= MAX_LOAD_WRITES {
            LoadPhase::GaveUp
        } else if seq % N_AGGS == 0 {
            LoadPhase::Counting
        } else {
            LoadPhase::Writing
        }),
{
    if seq >= MAX_LOAD_WRITES {
        LoadPhase::GaveUp
    } else if seq % N_AGGS == 0 {
        LoadPhase::Counting
    } else {
        LoadPhase::Writing
    }
}

impl Load {
    /// There is room for another write while one is wanted.
    pub open spec fn wf(&self) -> bool {
        &&& self.seq <= MAX_LOAD_WRITES
        &&& self.phase == LoadPhase::Writing ==> self.seq < MAX_LOAD_WRITES
        &&& self.phase == LoadPhase::Counting ==> self.seq < MAX_LOAD_WRITES
    }

    /// The load before its first write.
    pub fn new() -> (r: Load)
        ensures
            r.wf(),
            r.seq == 0,
            r.phase == LoadPhase::Writing,
    {
        Load { seq: 0, phase: LoadPhase::Writing }
    }

    /// The next write: the aggregates take turns, and each is created by its first.
    pub fn write(&self) -> (r: LoadWrite)
        requires
            self.wf(),
            self.phase == LoadPhase::Writing,
        ensures
            is_event(
                r,
                (self.seq + 1) as u64,
                (self.seq % N_AGGS) as u64,
                CLIENT_LOAD,
                self.seq < N_AGGS,
                true,
            ),
    {
        ev(self.seq + 1, self.seq % N_AGGS, CLIENT_LOAD, self.seq < N_AGGS, true)
    }

    /// The write was accepted.
    pub fn written(&mut self)
        requires
            old(self).wf(),
            old(self).phase == LoadPhase::Writing,
        ensures
            final(self).wf(),
            final(self).seq == old(self).seq + 1,
            final(self).phase == after_write(final(self).seq),
    {
        self.seq = self.seq + 1;
        self.phase = after_write(self.seq);
    }

    /// There are so many segments.
    pub fn counted(&mut self, segments: u64)
        requires
            old(self).wf(),
            old(self).phase == LoadPhase::Counting,
        ensures
            final(self).wf(),
            final(self).seq == old(self).seq,
            final(self).phase == if segments >= MIN_SEALED + 1 {
                LoadPhase::Rotated
            } else {
                LoadPhase::Writing
            },
    {
        self.phase = if segments >= MIN_SEALED + 1 {
            LoadPhase::Rotated
        } else {
            LoadPhase::Writing
        };
    }

    /// What is said where the log was not rotated.
    pub fn complaint(&self, segments: u64) -> (r: String)
        ensures
            r@ == "log did not reach 3 segments after "@ + decimal(self.seq as nat) + " writes ("@
                + decimal(segments as nat)
                + " wal files) — raise payload or lower preallocate"@,
    {
        let mut out: String = "log did not reach 3 segments after ".to_owned();
        push_decimal(&mut out, self.seq as u128);
        out.append(" writes (");
        push_decimal(&mut out, segments as u128);
        out.append(" wal files) — raise payload or lower preallocate");
        out
    }
}

/// The aggregates take turns: within a round no two writes go to the same one, and write `seq` goes
/// where write `seq` of the round before it went.
pub proof fn a_round_touches_every_aggregate_once(s: u64, t: u64)
    requires
        s < t < s + N_AGGS,
    ensures
        s % N_AGGS != t % N_AGGS,
        (s + N_AGGS) % N_AGGS as int == s % N_AGGS,
{
}

/// The write that is under way when the server is killed: the aggregates take turns here too, and
/// nothing guards it.
pub fn crash_write(seq: u64) -> (r: LoadWrite)
    requires
        1000 + seq <= u64::MAX,
    ensures
        is_event(r, seq, (seq % N_AGGS) as u64, 0, true, false),
{
    ev(seq, seq % N_AGGS, 0, true, false)
}

/// The first touch that a walk would show in: a new client, and an aggregate that exists.
pub fn probe_a() -> (r: LoadWrite)
    ensures
        is_event(r, 1, 0, 99_999, false, true),
{
    ev(1, 0, 99_999, false, true)
}

/// The first touch that must cost next to nothing after the other: a new aggregate.
pub fn probe_b() -> (r: LoadWrite)
    ensures
        is_event(r, 1, (N_AGGS + 100) as u64, 99_998, true, true),
{
    ev(1, N_AGGS + 100, 99_998, true, true)
}

/// `log_ID` and an extension.
pub open spec fn log_name(id: nat, extension: Seq<char>) -> Seq<char> {
    "log_"@ + decimal(id) + extension
}

/// The name of a segment's summary.
pub fn summary_name(id: u64) -> (r: String)
    ensures
        r@ == log_name(id as nat, ".summary"@),
{
    let mut out: String = "log_".to_owned();
    push_decimal(&mut out, id as u128);
    out.append(".summary");
    out
}

/// The name of a segment.
pub fn segment_name(id: u64) -> (r: String)
    ensures
        r@ == log_name(id as nat, ".wal"@),
{
    let mut out: String = "log_".to_owned();
    push_decimal(&mut out, id as u128);
    out.append(".wal");
    out
}

/// What waiting for the summaries comes to.
#[derive(Debug, Clone, Copy, PartialEq, Eq, Structural)]
pub enum Waiting {
    /// Look for the summary of this segment.
    Look(u64),
    /// All are there.
    Complete,
    /// The summary of this segment did not come in time.
    Late(u64),
}

/// The wait for the summaries of the sealed segments, one after the other.
pub struct Sidecars {
    pub sealed: Vec<u64>,
    pub found: usize,
    pub deadline: u64,
    pub late: bool,
}

impl Sidecars {
    /// No more were found than there are.
    pub open spec fn wf(&self) -> bool {
        self.found <= self.sealed@.len()
    }

    /// The wait, before the first look.
    pub fn new(sealed: Vec<u64>, deadline: u64) -> (r: Sidecars)
        ensures
            r.wf(),
            r.sealed == sealed,
            r.found == 0,
            r.deadline == deadline,
            !r.late,
    {
        Sidecars { sealed, found: 0, deadline, late: false }
    }

    /// What is to be done.
    pub fn next(&self) -> (r: Waiting)
        requires
            self.wf(),
        ensures
            r == if self.found == self.sealed@.len() {
                Waiting::Complete
            } else if self.late {
                Waiting::Late(self.sealed@[self.found as int])
            } else {
                Waiting::Look(self.sealed@[self.found as int])
            },
    {
        if self.found == self.sealed.len() {
            Waiting::Complete
        } else if self.late {
            Waiting::Late(self.sealed[self.found])
        } else {
            Waiting::Look(self.sealed[self.found])
        }
    }

    /// Takes whether the summary was there at the time `now`. The time counts only while one is
    /// missing.
    pub fn observe(&mut self, there: bool, now: u64)
        requires
            old(self).wf(),
            old(self).found < old(self).sealed@.len(),
        ensures
            final(self).wf(),
            final(self).sealed == old(self).sealed,
            final(self).deadline == old(self).deadline,
            final(self).found == old(self).found + if there {
                1int
            } else {
                0
            },
            final(self).late == (old(self).late || (!there && now > old(self).deadline)),
    {
        assert(self.found < self.sealed.len());
        if there {
            self.found = self.found + 1;
        } else if now > self.deadline {
            self.late = true;
        }
    }
}

/// All sizes added up, where a segment whose size is not known counts as a full one.
pub open spec fn total_of(sizes: Seq<Option<u64>>) -> nat
    decreases sizes.len(),
{
    if sizes.len() == 0 {
        0
    } else {
        total_of(sizes.drop_last()) + match sizes.last() {
            Some(n) => n as nat,
            None => PREALLOCATE as nat,
        }
    }
}

proof fn lemma_total_grows(sizes: Seq<Option<u64>>, n: int)
    requires
        0 <= n <= sizes.len(),
    ensures
        total_of(sizes.take(n)) <= total_of(sizes),
    decreases sizes.len() - n,
{
    if n < sizes.len() {
        lemma_total_grows(sizes, n + 1);
        assert(sizes.take(n + 1).drop_last() =~= sizes.take(n));
    } else {
        assert(sizes.take(n) =~= sizes);
    }
}

/// All sizes added up, where a segment whose size is not known counts as a full one.
pub fn sealed_bytes(sizes: &Vec<Option<u64>>) -> (r: u64)
    requires
        total_of(sizes@) <= u64::MAX,
    ensures
        r == total_of(sizes@),
{
    let mut total: u64 = 0;
    assert(sizes@.take(0) =~= Seq::empty());
    for i in 0..sizes.len()
        invariant
            total_of(sizes@) <= u64::MAX,
            total == total_of(sizes@.take(i as int)),
    {
        assert(sizes@.take(i + 1).drop_last() =~= sizes@.take(i as int));
        proof {
            lemma_total_grows(sizes@, i + 1);
        }
        let size: u64 = match sizes[i] {
            Some(n) => n,
            None => PREALLOCATE,
        };
        total = total + size;
    }
    assert(sizes@.take(sizes@.len() as int) =~= sizes@);
    total
}

/// What two readings of a counter come to.
#[derive(Debug, Clone, Copy, PartialEq, Eq, Structural)]
pub enum Reading {
    /// The counter stands still.
    Settled(u64),
    /// It moved; another reading is due.
    Moving,
    /// It moved from one number to another after the time had passed.
    Restless(u64, u64),
}

/// The wait until the server stops reading.
pub struct Quiescence {
    pub last: u64,
    pub deadline: u64,
}

impl Quiescence {
    /// The wait after the first reading.
    pub fn new(first: u64, deadline: u64) -> (r: Quiescence)
        ensures
            r.last == first,
            r.deadline == deadline,
    {
        Quiescence { last: first, deadline }
    }

    /// Takes another reading at the time `now`.
    pub fn observe(&mut self, reading: u64, now: u64) -> (r: Reading)
        ensures
            final(self).deadline == old(self).deadline,
            r == if reading == old(self).last {
                Reading::Settled(reading)
            } else if now > old(self).deadline {
                Reading::Restless(old(self).last, reading)
            } else {
                Reading::Moving
            },
            final(self).last == if r is Moving {
                reading
            } else {
                old(self).last
            },
    {
        if reading == self.last {
            return Reading::Settled(reading);
        }
        if now > self.deadline {
            return Reading::Restless(self.last, reading);
        }
        self.last = reading;
        Reading::Moving
    }
}

/// What is said of a server that goes on reading.
pub fn restless_message(last: u64, now: u64) -> (r: String)
    ensures
        r@ == "server still reading after 60s (read_bytes "@ + decimal(last as nat) + " -> "@
            + decimal(now as nat) + ")"@,
{
    let mut out: String = "server still reading after 60s (read_bytes ".to_owned();
    push_decimal(&mut out, last as u128);
    out.append(" -> ");
    push_decimal(&mut out, now as u128);
    out.append(")");
    out
}

/// What is said of a first touch that read too much.
pub open spec fn probe_text(label: Seq<char>, delta: nat, sealed: nat) -> Seq<char> {
    label + " read "@ + decimal(delta) + " bytes of the "@ + decimal(sealed)
        + "-byte sealed chain — the schema-absence scan re-walked history the blooms should bound"@
}

/// What is said of a first touch that took the counter from `before` to `after`; nothing where it
/// kept to its budget.
pub fn judge_probe(label: &str, before: u64, after: u64, sealed: u64) -> (r: Option<String>)
    requires
        before <= after,
    ensures
        match r {
            Some(text) => after - before > BUDGET && text@ == probe_text(
                label@,
                (after - before) as nat,
                sealed as nat,
            ),
            None => after - before <= BUDGET,
        },
{
    let delta: u64 = after - before;
    if delta > BUDGET {
        let mut out: String = label.to_owned();
        out.append(" read ");
        push_decimal(&mut out, delta as u128);
        out.append(" bytes of the ");
        push_decimal(&mut out, sealed as u128);
        out.append(
            "-byte sealed chain — the schema-absence scan re-walked history the blooms should bound",
        );
        Some(out)
    } else {
        None
    }
}

/// How many of the two first touches read too much.
#[verifier::allow_in_spec]
pub fn over_budget(baseline: u64, after_a: u64, after_b: u64) -> u64
    requires
        baseline <= after_a <= after_b,
    returns
        ((if after_a - baseline > BUDGET {
            1u64
        } else {
            0u64
        } + if after_b - after_a > BUDGET {
            1u64
        } else {
            0u64
        }) as u64),
{
    let a: u64 = if after_a - baseline > BUDGET {
        1
    } else {
        0
    };
    let b: u64 = if after_b - after_a > BUDGET {
        1
    } else {
        0
    };
    a + b
}

/// What the run ends with: an error where a first touch read too much.
pub fn verdict(baseline: u64, after_a: u64, after_b: u64) -> (r: Result<(), String>)
    requires
        baseline <= after_a <= after_b,
    ensures
        r is Ok <==> after_a - baseline <= BUDGET && after_b - after_a <= BUDGET,
        r matches Err(text) ==> text@ == decimal(over_budget(baseline, after_a, after_b) as nat)
            + " probe(s) re-read the sealed chain on first touch after recovery"@,
{
    let n: u64 = over_budget(baseline, after_a, after_b);
    if n == 0 {
        Ok(())
    } else {
        let mut out: String = String::new();
        push_decimal(&mut out, n as u128);
        out.append(" probe(s) re-read the sealed chain on first touch after recovery");
        assert(out@ =~= decimal(n as nat)
            + " probe(s) re-read the sealed chain on first touch after recovery"@);
        Err(out)
    }
}

/// What a first touch may read does not grow with what it read before or with where the counter
/// stood: only the two differences count.
pub proof fn the_budget_is_absolute(baseline: u64, after_a: u64, after_b: u64, by: u64)
    requires
        baseline <= after_a <= after_b,
        after_b + by <= u64::MAX,
    ensures
        over_budget((baseline + by) as u64, (after_a + by) as u64, (after_b + by) as u64)
            == over_budget(baseline, after_a, after_b),
{
}

/// One part of the scenario.
#[derive(Debug, Clone, Copy)]
pub enum Stage {
    /// Starts the server and connects to it.
    Start,
    /// Looks for the directory of the shard again and again.
    AwaitShard,
    /// Writes until the log was rotated.
    Load,
    /// Waits for the summaries of the sealed segments.
    AwaitSidecars,
    /// Kills the server while a writer is busy, and starts it on the same directory.
    CrashUnderLoad,
    /// Waits until the server stops reading, and notes the counter.
    Settle,
    ProbeA,
    ProbeB,
    /// Holds the three readings against the budget.
    Judge,
}

/// The parts of the scenario, in order.
pub open spec fn stages() -> Seq<Stage> {
    seq![
        Stage::Start,
        Stage::AwaitShard,
        Stage::Load,
        Stage::AwaitSidecars,
        Stage::CrashUnderLoad,
        Stage::Settle,
        Stage::ProbeA,
        Stage::Settle,
        Stage::ProbeB,
        Stage::Settle,
        Stage::Judge,
    ]
}

/// The parts of the scenario, in order.
pub fn run() -> (r: Vec<Stage>)
    ensures
        r@ == stages(),
{
    let r: Vec<Stage> = vec![
        Stage::Start,
        Stage::AwaitShard,
        Stage::Load,
        Stage::AwaitSidecars,
        Stage::CrashUnderLoad,
        Stage::Settle,
        Stage::ProbeA,
        Stage::Settle,
        Stage::ProbeB,
        Stage::Settle,
        Stage::Judge,
    ];
    assert(r@ =~= stages());
    r
}

/// The bytes of a word, each at its place, make up the word.
pub proof fn bytes_make_up_the_word(word: u64)
    ensures
        word == byte_of(word, 0) + 256 * byte_of(word, 1) + 65536 * byte_of(word, 2) + 16777216
            * byte_of(word, 3) + 4294967296 * byte_of(word, 4) + 1099511627776 * byte_of(word, 5)
            + 281474976710656 * byte_of(word, 6) + 72057594037927936 * byte_of(word, 7),
{
    assert(word == ((word >> 0u64) & 0xff) + 256 * ((word >> 8u64) & 0xff) + 65536 * ((word >> 16u64)
        & 0xff) + 16777216 * ((word >> 24u64) & 0xff) + 4294967296 * ((word >> 32u64) & 0xff)
        + 1099511627776 * ((word >> 40u64) & 0xff) + 281474976710656 * ((word >> 48u64) & 0xff)
        + 72057594037927936 * ((word >> 56u64) & 0xff)) by (bit_vector);
    assert(((word >> 0u64) & 0xff) < 256 && ((word >> 8u64) & 0xff) < 256 && ((word >> 16u64) & 0xff)
        < 256 && ((word >> 24u64) & 0xff) < 256 && ((word >> 32u64) & 0xff) < 256 && ((word
        >> 40u64) & 0xff) < 256 && ((word >> 48u64) & 0xff) < 256 && ((word >> 56u64) & 0xff) < 256)
        by (bit_vector);
}

/// A first touch is over its budget from the first byte beyond it on, and each of the two counts for
/// itself.
pub proof fn the_budget_is_used_up_to_its_last_byte(baseline: u64, a: u64, b: u64)
    requires
        baseline + a + b <= u64::MAX,
    ensures
        over_budget(baseline, (baseline + a) as u64, (baseline + a + b) as u64) == (if a <= 262_144 {
            0int
        } else {
            1
        }) + (if b <= 262_144 {
            0int
        } else {
            1
        }),
{
}

} // verus!
