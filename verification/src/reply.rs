//! What comes back from the bench, and what a scenario can expect of it.

use crate::model::{Outcome, Refusal, classify};
use crate::segments::FileEntry;
use vstd::prelude::*;

verus! {

/// One event as the server stores it.
#[derive(Debug)]
pub struct StoredEvent {
    pub client_seq: u64,
    pub event_type_minor: u64,
    pub value: Vec<u8>,
}

/// The events that one write appended, under the version it led to.
#[derive(Debug)]
pub struct Batch {
    pub version: u64,
    pub events: Vec<StoredEvent>,
}

/// The lease that says who may write.
#[derive(Debug, Clone, Copy, PartialEq, Eq, Structural)]
pub struct Lease {
    pub leader_node_id: u128,
    pub lease_index: u64,
    pub lease_epoch: u64,
    pub acquired_at_ms: u64,
    pub expires_at_ms: u64,
}

/// What an object that stands in for a missing follower holds.
#[derive(Debug, Clone, Copy, PartialEq, Eq, Structural)]
pub struct FallbackBatch {
    pub shard_id: u32,
    pub fallback_index: u64,
    pub items: u64,
    pub first_wal_index: u64,
    /// The index of the lease under which its first entry was written.
    pub lease_index: u64,
}

/// One change that a watch reports.
#[derive(Debug, Clone, Copy, PartialEq, Eq, Structural)]
pub struct Notice {
    pub org_id: u128,
    pub aggregate_type_id: u128,
    pub aggregate_id: u128,
    pub operation: u64,
    pub to_aggregate_version: Option<u64>,
}

/// A value that was read back, beside the value that was written.
#[derive(Debug)]
pub struct Pair {
    pub version: u64,
    pub events: u64,
    pub read: Vec<u8>,
    pub written: Vec<u8>,
}

/// What the bench answers to an action.
#[derive(Debug)]
pub enum Reply {
    /// It was done.
    Done,
    /// It was turned down.
    Refused(Refusal),
    /// This event of a sequence was turned down, and none was sent after it; where several wrote, by
    /// which of them.
    Halted { writer: u64, event: u64, refusal: Refusal },
    /// A follower turned it down and named the leader's address.
    Redirected(String),
    /// A node is up at this address.
    Started(String),
    /// A count or a version.
    Number(u64),
    /// Two counts.
    Counts(u64, u64),
    /// When the lease was acquired, as it was read again and again.
    Samples(Vec<u64>),
    Flag(bool),
    /// Whether node A and node B accept writes.
    Leaders(bool, bool),
    Batches(Vec<Batch>),
    Pairs(Vec<Pair>),
    Lease(Lease),
    Objects(Vec<String>),
    /// The files of each shard.
    Segments(Vec<Vec<FileEntry>>),
    /// The names of the files of one shard.
    LogFiles(Vec<String>),
    Contents(Vec<Vec<u8>>),
    Fallback(FallbackBatch),
    /// The replies to writes that raced each other; `None` is an acknowledgement.
    Race(Vec<Option<Refusal>>),
    Notices(Vec<Notice>),
    /// The versions that were read by following a watch.
    Followed(Vec<u64>),
    /// The client id that the server gave, beside the one that the public key gives.
    Identity(Option<u128>, u128),
    /// How many of a run of writes were acknowledged.
    Poured(u64),
    /// What a listing holds.
    Ids(Vec<u128>),
    /// The last version of a stream, and whether it was deleted.
    Details(u64, bool),
    /// The balance of an account after a request.
    Balance(i64),
    /// The balances that two requests, or the two sides of one, came to.
    Balances(i64, i64),
    /// An account holds only this much.
    ShortOfFunds(i64),
}

/// The number of events in `batches`.
pub open spec fn event_total(batches: Seq<Batch>) -> nat
    decreases batches.len(),
{
    if batches.len() == 0 {
        0
    } else {
        event_total(batches.drop_last()) + batches.last().events@.len()
    }
}

/// Whether the versions of `batches` are `lo`, `lo + 1`, and so on up to `hi`.
pub open spec fn versions_run(batches: Seq<Batch>, lo: u64, hi: u64) -> bool {
    &&& batches.len() == hi - lo + 1
    &&& forall|i: int| 0 <= i < batches.len() ==> (#[trigger] batches[i]).version == lo + i
}

/// Whether every one of `n` writes is there exactly once: versions 1 to `n` without a gap, one
/// event each, and event `i` under version `i`.
pub open spec fn exactly_once(batches: Seq<Batch>, n: u64) -> bool {
    &&& batches.len() == n
    &&& forall|i: int|
        0 <= i < batches.len() ==> {
            &&& (#[trigger] batches[i]).version == i + 1
            &&& batches[i].events@.len() == 1
            &&& batches[i].events@[0].client_seq == i + 1
        }
}

/// A stream in which every write is there exactly once has no two batches for one client
/// sequence number, and none is missing.
pub proof fn exactly_once_has_no_gap_and_no_double(batches: Seq<Batch>, n: u64, seq: u64)
    requires
        exactly_once(batches, n),
        1 <= seq <= n,
    ensures
        batches[seq - 1].events@[0].client_seq == seq,
        forall|i: int|
            0 <= i < batches.len() && #[trigger] batches[i].events@[0].client_seq == seq ==> i == seq - 1,
        event_total(batches) == n,
{
    assert(batches[seq - 1].version == seq);
    assert forall|i: int|
        0 <= i < batches.len() && #[trigger] batches[i].events@[0].client_seq == seq implies i == seq
        - 1 by {
        assert(batches[i].version == i + 1);
    }
    lemma_single_events(batches);
}

proof fn lemma_single_events(batches: Seq<Batch>)
    requires
        one_event_each(batches),
    ensures
        event_total(batches) == batches.len(),
    decreases batches.len(),
{
    if batches.len() > 0 {
        assert(batches.last() == batches[batches.len() - 1]);
        assert forall|i: int| 0 <= i < batches.drop_last().len() implies (
        #[trigger] batches.drop_last()[i]).events@.len() == 1 by {
            assert(batches.drop_last()[i] == batches[i]);
        }
        lemma_single_events(batches.drop_last());
    }
}

/// The number of events in `batches`.
pub fn count_batch_events(batches: &Vec<Batch>) -> (r: u64)
    requires
        event_total(batches@) <= u64::MAX,
    ensures
        r == event_total(batches@),
{
    let mut total: u64 = 0;
    assert(batches@.take(0) =~= Seq::empty());
    for i in 0..batches.len()
        invariant
            event_total(batches@) <= u64::MAX,
            total == event_total(batches@.take(i as int)),
    {
        assert(batches@.take(i + 1).drop_last() =~= batches@.take(i as int));
        proof {
            lemma_total_grows(batches@, i + 1);
        }
        total = total + batches[i].events.len() as u64;
    }
    assert(batches@.take(batches@.len() as int) =~= batches@);
    total
}

proof fn lemma_total_grows(batches: Seq<Batch>, n: int)
    requires
        0 <= n <= batches.len(),
    ensures
        event_total(batches.take(n)) <= event_total(batches),
    decreases batches.len() - n,
{
    if n < batches.len() {
        lemma_total_grows(batches, n + 1);
        assert(batches.take(n + 1).drop_last() =~= batches.take(n));
    } else {
        assert(batches.take(n) =~= batches);
    }
}

/// Whether `batches` hold `n` events in all.
pub fn total_is(batches: &Vec<Batch>, n: u64) -> (r: bool)
    ensures
        r == (event_total(batches@) == n),
{
    let mut total: u64 = 0;
    assert(batches@.take(0) =~= Seq::empty());
    for i in 0..batches.len()
        invariant
            total == event_total(batches@.take(i as int)),
            total <= n,
    {
        assert(batches@.take(i + 1).drop_last() =~= batches@.take(i as int));
        proof {
            lemma_total_grows(batches@, i + 1);
        }
        if batches[i].events.len() as u64 > n - total {
            return false;
        }
        total = total + batches[i].events.len() as u64;
    }
    assert(batches@.take(batches@.len() as int) =~= batches@);
    total == n
}

/// Whether the versions of `batches` are `lo`, `lo + 1`, and so on up to `hi`.
pub fn check_versions(batches: &Vec<Batch>, lo: u64, hi: u64) -> (r: bool)
    requires
        1 <= lo <= hi,
    ensures
        r == versions_run(batches@, lo, hi),
{
    if batches.len() as u64 != hi - lo + 1 {
        return false;
    }
    for i in 0..batches.len()
        invariant
            1 <= lo <= hi,
            batches@.len() == hi - lo + 1,
            forall|j: int| 0 <= j < i ==> (#[trigger] batches@[j]).version == lo + j,
    {
        if batches[i].version != lo + i as u64 {
            assert(batches@[i as int].version != lo + i);
            return false;
        }
    }
    true
}

/// Whether `versions` are 1, 2, and so on up to `n`.
pub open spec fn counts_up(versions: Seq<u64>, n: u64) -> bool {
    &&& versions.len() == n
    &&& forall|i: int| 0 <= i < versions.len() ==> #[trigger] versions[i] == i + 1
}

/// Whether `versions` are 1, 2, and so on up to `n`.
pub fn check_counts_up(versions: &Vec<u64>, n: u64) -> (r: bool)
    ensures
        r == counts_up(versions@, n),
{
    if versions.len() as u64 != n {
        return false;
    }
    for i in 0..versions.len()
        invariant
            versions@.len() == n,
            forall|j: int| 0 <= j < i ==> #[trigger] versions@[j] == j + 1,
    {
        if versions[i] != i as u64 + 1 {
            assert(versions@[i as int] != i + 1);
            return false;
        }
    }
    true
}

/// How often a value differs from the one before it, where `first` comes before all of them.
pub open spec fn changes(first: u64, samples: Seq<u64>) -> nat
    decreases samples.len(),
{
    if samples.len() == 0 {
        0
    } else {
        let before = if samples.len() == 1 {
            first
        } else {
            samples[samples.len() - 2]
        };
        changes(first, samples.drop_last()) + if samples.last() != before {
            1nat
        } else {
            0
        }
    }
}

/// How often a value differs from the one before it, where `first` comes before all of them.
pub fn count_changes(first: u64, samples: &Vec<u64>) -> (r: usize)
    ensures
        r == changes(first, samples@),
{
    let mut last: u64 = first;
    let mut n: usize = 0;
    assert(samples@.take(0) =~= Seq::empty());
    for i in 0..samples.len()
        invariant
            n <= i,
            n == changes(first, samples@.take(i as int)),
            last == if i == 0 {
                first
            } else {
                samples@[i - 1]
            },
    {
        assert(samples@.take(i + 1).drop_last() =~= samples@.take(i as int));
        if samples[i] != last {
            n = n + 1;
            last = samples[i];
        }
    }
    assert(samples@.take(samples@.len() as int) =~= samples@);
    n
}

/// Whether every batch holds one event.
pub open spec fn one_event_each(batches: Seq<Batch>) -> bool {
    forall|i: int| 0 <= i < batches.len() ==> (#[trigger] batches[i]).events@.len() == 1
}

/// Whether every batch holds one event.
pub fn check_one_event_each(batches: &Vec<Batch>) -> (r: bool)
    ensures
        r == one_event_each(batches@),
{
    for i in 0..batches.len()
        invariant
            forall|j: int| 0 <= j < i ==> (#[trigger] batches@[j]).events@.len() == 1,
    {
        if batches[i].events.len() != 1 {
            assert(batches@[i as int].events@.len() != 1);
            return false;
        }
    }
    true
}

/// Whether every one of `n` writes is there exactly once.
pub fn check_exactly_once(batches: &Vec<Batch>, n: u64) -> (r: bool)
    ensures
        r == exactly_once(batches@, n),
{
    if batches.len() as u64 != n {
        return false;
    }
    for i in 0..batches.len()
        invariant
            batches@.len() == n,
            forall|j: int|
                0 <= j < i ==> {
                    &&& (#[trigger] batches@[j]).version == j + 1
                    &&& batches@[j].events@.len() == 1
                    &&& batches@[j].events@[0].client_seq == j + 1
                },
    {
        let want: u64 = i as u64 + 1;
        let b: &Batch = &batches[i];
        if b.version != want || b.events.len() != 1 || b.events[0].client_seq != want {
            assert(!exactly_once(batches@, n)) by {
                assert(batches@[i as int] == *b);
            }
            return false;
        }
    }
    true
}

/// Whether two byte strings are the same.
pub fn same_bytes(a: &Vec<u8>, b: &Vec<u8>) -> (r: bool)
    ensures
        r == (a@ == b@),
{
    if a.len() != b.len() {
        return false;
    }
    for i in 0..a.len()
        invariant
            a@.len() == b@.len(),
            forall|j: int| 0 <= j < i ==> a@[j] == b@[j],
    {
        if a[i] != b[i] {
            return false;
        }
    }
    assert(a@ =~= b@);
    true
}

/// How many of a race's replies mean `outcome`.
pub open spec fn tally(replies: Seq<Option<Refusal>>, outcome: Outcome) -> nat
    decreases replies.len(),
{
    if replies.len() == 0 {
        0
    } else {
        tally(replies.drop_last(), outcome) + if classify(replies.last()) == outcome {
            1nat
        } else {
            0
        }
    }
}

/// How many of a race's replies mean `outcome`.
pub fn count_outcomes(replies: &Vec<Option<Refusal>>, outcome: Outcome) -> (r: usize)
    ensures
        r == tally(replies@, outcome),
        r <= replies@.len(),
{
    let mut n: usize = 0;
    assert(replies@.take(0) =~= Seq::empty());
    for i in 0..replies.len()
        invariant
            n == tally(replies@.take(i as int), outcome),
            n <= i,
    {
        assert(replies@.take(i + 1).drop_last() =~= replies@.take(i as int));
        if classify(replies[i]) == outcome {
            n = n + 1;
        }
    }
    assert(replies@.take(replies@.len() as int) =~= replies@);
    n
}

/// Every reply of a race is counted under exactly one outcome.
pub proof fn outcomes_add_up(replies: Seq<Option<Refusal>>)
    ensures
        tally(replies, Outcome::Won) + tally(replies, Outcome::OccLost) + tally(
            replies,
            Outcome::Deduped,
        ) + tally(replies, Outcome::Other) == replies.len(),
    decreases replies.len(),
{
    if replies.len() > 0 {
        outcomes_add_up(replies.drop_last());
    }
}

} // verus!
