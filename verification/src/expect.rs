//! What a scenario expects of a reply, and how a reply is held against it.

use crate::bench::{Node, Who, resolve};
use crate::model::{Outcome, READ_MISSING, Refusal, classify, numbered, numbered_text};
use crate::reply::{
    Batch, FallbackBatch, Lease, Notice, Pair, Reply, StoredEvent, changes, check_counts_up,
    check_exactly_once, check_one_event_each, check_versions, count_changes, count_outcomes,
    counts_up, event_total, exactly_once, one_event_each, same_bytes, tally, total_is, versions_run,
};
use crate::segments::{
    any_sealed_shrank, check_summarised, count_segments, ids, some_shard_shrank, summarised,
};
use crate::sorting::texts;
use crate::text::{after_last, chars_of, code_of, not_after, rest_after_last, str_eq, text_le};
use vstd::prelude::*;

verus! {

/// What a lease has to be, alone or beside one that an earlier step read.
#[derive(Debug, Clone, Copy, PartialEq, Eq, Structural)]
pub enum LeaseRule {
    /// Its index is this one.
    IndexIs(u64),
    /// Its index is this one or a later one.
    IndexAtLeast(u64),
    /// Its index is above the earlier one.
    IndexAbove(usize),
    /// Its index follows the earlier one directly.
    IndexAfter(usize),
    /// Its index is at most this far above the earlier one.
    IndexWithin(usize, u64),
    /// Its index is the earlier one.
    IndexSame(usize),
    /// Its epoch is the earlier one or a later one.
    EpochNotBelow(usize),
    /// Its epoch is above the earlier one.
    EpochAbove(usize),
    /// Its epoch is at most this far above the earlier one.
    EpochWithin(usize, u64),
    /// It expires later than the earlier one.
    ExpiryAbove(usize),
    /// Its epoch is the earlier one.
    EpochSame(usize),
    /// It names the node that the earlier one names.
    LeaderSame(usize),
    /// It names another node than the earlier one.
    LeaderOther(usize),
    /// It names some node.
    LeaderSet,
    /// It has an expiry.
    ExpirySet,
}

/// What the batches of a stream have to be.
#[derive(Debug, Clone, Copy)]
pub enum StreamRule {
    /// So many batches.
    Count(u64),
    /// At least one batch.
    NotEmpty,
    /// So many events in all.
    Events(u64),
    /// Versions from the first to the second, without a gap.
    Versions(u64, u64),
    /// The first batch has this version.
    StartsAt(u64),
    /// The last batch has this version.
    EndsAt(u64),
    /// The same versions and events as an earlier step read.
    SameAs(usize),
    /// The first value of the first batch holds this text.
    FirstHolds(&'static str),
    /// The first value of the last batch holds this text.
    LastHolds(&'static str),
    /// The first event of the first batch has this minor version.
    FirstMinor(u64),
    /// Batches 1 to the second number, each with the text that tags it for this writer.
    Tagged(u64, u64),
    /// One event in every batch.
    OneEventEach,
    /// Versions from 1 on without a gap, one more than the writes that an earlier step had
    /// acknowledged.
    OnePlusAcked(usize),
    /// Every one of so many writes, once.
    ExactlyOnce(u64),
}

/// What a listing of objects has to be.
#[derive(Debug, Clone, Copy, PartialEq, Eq, Structural)]
pub enum ListingRule {
    Empty,
    AtLeast(u64),
    /// As many as an earlier step listed.
    AsMany(usize),
    /// No more than an earlier step listed.
    NoMore(usize),
    /// In lexicographic order.
    Sorted,
    /// This listing or one since an earlier step found something.
    SomeSince(usize),
}

/// What an object that stands in for a missing follower has to be.
#[derive(Debug, Clone, Copy, PartialEq, Eq, Structural)]
pub enum FallbackRule {
    /// It belongs to this shard.
    Shard(u32),
    /// It holds something.
    NotEmpty,
    /// Its index is that of its first entry.
    IndexOfFirst,
    /// Its index is above that of an earlier step's.
    Above(usize),
    /// Its first entry was written under the lease that an earlier step read.
    TermOf(usize),
}

/// What a number has to be.
#[derive(Debug, Clone, Copy, PartialEq, Eq, Structural)]
pub enum NumberRule {
    Is(u64),
    AtLeast(u64),
    AtMost(u64),
    /// The number of an earlier step.
    Same(usize),
    /// One more than the number of an earlier step.
    Next(usize),
    /// So much more than the number of an earlier step.
    Plus(usize, u64),
    /// No more than the number of an earlier step.
    NotAbove(usize),
    /// Not the number of an earlier step.
    Differs(usize),
    /// One more than the writes that an earlier step had acknowledged.
    OnePlusAcked(usize),
}

/// What a reply has to be.
#[derive(Debug, Clone, Copy)]
pub enum Expect {
    Anything,
    /// It was done.
    Accepted,
    /// It was turned down.
    Rejected,
    /// It was turned down, and not by silence. Silence is past mending.
    RefusedInTime,
    /// It was turned down with this code. Another refusal is past mending.
    RefusedWith(u32),
    /// A node that does not lead turned it down.
    NotLeader,
    /// A node that does not lead turned it down and said who does. To accept it is past mending,
    /// and so is a node that cannot be reached.
    Redirect,
    /// The address that it points at has the port of this node.
    PortOf(Who),
    /// The address that it points at has another port than this node.
    PortOtherThan(Who),
    /// Nothing is stored under the key. Another refusal than the one that says so is past mending.
    NothingStored,
    /// Some node accepts writes.
    LeaderFound,
    /// Exactly one node accepts writes. Two that do are past mending, and so is a node that cannot
    /// be asked.
    SingleLeader,
    /// Exactly one node accepted its write.
    OneWriter,
    /// The two counts have come up to those of two earlier steps.
    CountsReach(usize, usize),
    /// The lease was acquired anew at most so often since an earlier step read it.
    RenewalsAtMost(usize, u64),
    /// This flag, and nothing else that could be taken for one.
    Flag(bool),
    /// Not the flag of an earlier step.
    FlagOther(usize),
    Number(NumberRule),
    Stream(StreamRule),
    /// So many values in order, each as it was written.
    Intact(u64),
    Lease(LeaseRule),
    Listing(ListingRule),
    /// There are so many objects, and every one of them still holds this text.
    Untouched(u64, &'static str),
    Fallback(FallbackRule),
    /// Some sealed segment is smaller than this.
    SealedShrank(u64),
    /// The log of a shard was rotated, and every sealed segment has a summary.
    Summarised,
    /// A shard has more segments than an earlier step found.
    MoreSegments(usize),
    /// So many raced, exactly one of them won, and every other one came out like this. One that came
    /// out otherwise is past mending.
    OneWinner(u64, Outcome),
    /// A watch reported the aggregate; with a version range, where that is asked for, and with an
    /// operation that no earlier report had, where that is asked for.
    Notice(NoticeRule),
    /// The last report that was waited for names this organisation and type.
    NoticeNames(u128, u128),
    /// The last report that was waited for reaches at least this version.
    NoticeReaches(u64),
    /// So many reports were waited for, and no two had the same operation.
    DistinctOperations(u64),
    /// Following a watch showed the versions 1 to this one, each once and in order.
    FollowedTo(u64),
    /// The server knows the client by the id that its public key gives. That it gives none is past
    /// mending.
    IdentityMatches,
    /// Nothing of the stream can be read.
    Unseen,
    /// The listing holds this one.
    Lists(u128),
    /// The listing holds something.
    ListsSome,
    /// The stream is as it has to be. That the details are refused is past mending.
    Details(DetailsRule),
    /// The client would not use its connection. Another refusal is past mending.
    OutOfStep,
    Balance(i64),
    Balances(i64, i64),
    /// The account does not hold enough, but this much.
    ShortOfFunds(i64),
}

/// What the details of a stream have to be.
#[derive(Debug, Clone, Copy, PartialEq, Eq, Structural)]
pub enum DetailsRule {
    /// It was not deleted.
    Present,
    /// It was deleted, or there is none.
    Gone,
    /// Its last version is this one.
    Version(u64),
}

/// Which report of a watch is waited for.
#[derive(Debug, Clone, Copy, PartialEq, Eq, Structural)]
pub struct NoticeRule {
    pub aggregate_id: u128,
    /// It has a version range.
    pub ranged: bool,
    /// Its operation is none of those reported before.
    pub fresh: bool,
}

/// What holding a reply against an expectation comes to.
#[derive(Debug, Clone, Copy, PartialEq, Eq, Structural)]
pub enum Judgement {
    Met,
    /// Not met; another attempt may be.
    NotYet,
    /// Not met, and no other attempt can mend it.
    Hopeless,
    /// The bench could not do what was asked: its own error ends the scenario.
    Broken,
}

/// [`Judgement::Met`] or [`Judgement::NotYet`].
#[verifier::allow_in_spec]
pub fn met_if(b: bool) -> Judgement
    returns
        (if b {
            Judgement::Met
        } else {
            Judgement::NotYet
        }),
{
    if b {
        Judgement::Met
    } else {
        Judgement::NotYet
    }
}

/// The lease that step `at` read.
pub open spec fn lease_of(history: Seq<Reply>, at: usize) -> Option<Lease> {
    if at < history.len() {
        match history[at as int] {
            Reply::Lease(l) => Some(l),
            _ => None,
        }
    } else {
        None
    }
}

fn get_lease(history: &Vec<Reply>, at: usize) -> (r: Option<Lease>)
    ensures
        r == lease_of(history@, at),
{
    if at < history.len() {
        match &history[at] {
            Reply::Lease(l) => Some(*l),
            _ => None,
        }
    } else {
        None
    }
}

/// Whether a lease is as it has to be.
pub open spec fn lease_ok(rule: LeaseRule, history: Seq<Reply>, lease: Lease) -> bool {
    match rule {
        LeaseRule::IndexIs(n) => lease.lease_index == n,
        LeaseRule::IndexAtLeast(n) => lease.lease_index >= n,
        LeaseRule::IndexAbove(at) => lease_of(history, at) matches Some(e) && lease.lease_index
            > e.lease_index,
        LeaseRule::IndexAfter(at) => lease_of(history, at) matches Some(e) && lease.lease_index
            == e.lease_index + 1,
        LeaseRule::IndexWithin(at, by) => lease_of(history, at) matches Some(e)
            && lease.lease_index <= e.lease_index + by,
        LeaseRule::IndexSame(at) => lease_of(history, at) matches Some(e) && lease.lease_index
            == e.lease_index,
        LeaseRule::EpochNotBelow(at) => lease_of(history, at) matches Some(e) && lease.lease_epoch
            >= e.lease_epoch,
        LeaseRule::EpochAbove(at) => lease_of(history, at) matches Some(e) && lease.lease_epoch
            > e.lease_epoch,
        LeaseRule::EpochWithin(at, by) => lease_of(history, at) matches Some(e)
            && lease.lease_epoch <= e.lease_epoch + by,
        LeaseRule::ExpiryAbove(at) => lease_of(history, at) matches Some(e) && lease.expires_at_ms
            > e.expires_at_ms,
        LeaseRule::EpochSame(at) => lease_of(history, at) matches Some(e) && lease.lease_epoch
            == e.lease_epoch,
        LeaseRule::LeaderSame(at) => lease_of(history, at) matches Some(e) && lease.leader_node_id
            == e.leader_node_id,
        LeaseRule::LeaderOther(at) => lease_of(history, at) matches Some(e)
            && lease.leader_node_id != e.leader_node_id,
        LeaseRule::LeaderSet => lease.leader_node_id != 0,
        LeaseRule::ExpirySet => lease.expires_at_ms > 0,
    }
}

/// Whether a lease is as it has to be.
pub fn check_lease(rule: LeaseRule, history: &Vec<Reply>, lease: Lease) -> (r: bool)
    ensures
        r == lease_ok(rule, history@, lease),
{
    match rule {
        LeaseRule::IndexIs(n) => lease.lease_index == n,
        LeaseRule::IndexAtLeast(n) => lease.lease_index >= n,
        LeaseRule::IndexAbove(at) => match get_lease(history, at) {
            Some(e) => lease.lease_index > e.lease_index,
            None => false,
        },
        LeaseRule::IndexAfter(at) => match get_lease(history, at) {
            Some(e) => lease.lease_index > e.lease_index && lease.lease_index - e.lease_index == 1,
            None => false,
        },
        LeaseRule::IndexWithin(at, by) => match get_lease(history, at) {
            Some(e) => lease.lease_index <= e.lease_index || lease.lease_index - e.lease_index <= by,
            None => false,
        },
        LeaseRule::IndexSame(at) => match get_lease(history, at) {
            Some(e) => lease.lease_index == e.lease_index,
            None => false,
        },
        LeaseRule::EpochNotBelow(at) => match get_lease(history, at) {
            Some(e) => lease.lease_epoch >= e.lease_epoch,
            None => false,
        },
        LeaseRule::EpochAbove(at) => match get_lease(history, at) {
            Some(e) => lease.lease_epoch > e.lease_epoch,
            None => false,
        },
        LeaseRule::EpochWithin(at, by) => match get_lease(history, at) {
            Some(e) => lease.lease_epoch <= e.lease_epoch || lease.lease_epoch - e.lease_epoch <= by,
            None => false,
        },
        LeaseRule::ExpiryAbove(at) => match get_lease(history, at) {
            Some(e) => lease.expires_at_ms > e.expires_at_ms,
            None => false,
        },
        LeaseRule::EpochSame(at) => match get_lease(history, at) {
            Some(e) => lease.lease_epoch == e.lease_epoch,
            None => false,
        },
        LeaseRule::LeaderSame(at) => match get_lease(history, at) {
            Some(e) => lease.leader_node_id == e.leader_node_id,
            None => false,
        },
        LeaseRule::LeaderOther(at) => match get_lease(history, at) {
            Some(e) => lease.leader_node_id != e.leader_node_id,
            None => false,
        },
        LeaseRule::LeaderSet => lease.leader_node_id != 0,
        LeaseRule::ExpirySet => lease.expires_at_ms > 0,
    }
}

/// The number that step `at` gave.
pub open spec fn number_of(history: Seq<Reply>, at: usize) -> Option<u64> {
    if at < history.len() {
        match history[at as int] {
            Reply::Number(n) => Some(n),
            _ => None,
        }
    } else {
        None
    }
}

/// The number that step `at` gave.
pub fn get_number(history: &Vec<Reply>, at: usize) -> (r: Option<u64>)
    ensures
        r == number_of(history@, at),
{
    if at < history.len() {
        match &history[at] {
            Reply::Number(n) => Some(*n),
            _ => None,
        }
    } else {
        None
    }
}

/// The number of writes that step `at` had acknowledged.
pub open spec fn acked_of(history: Seq<Reply>, at: usize) -> Option<u64> {
    if at < history.len() {
        match history[at as int] {
            Reply::Poured(n) => Some(n),
            _ => None,
        }
    } else {
        None
    }
}

/// The number of writes that step `at` had acknowledged.
pub fn get_acked(history: &Vec<Reply>, at: usize) -> (r: Option<u64>)
    ensures
        r == acked_of(history@, at),
{
    if at < history.len() {
        match &history[at] {
            Reply::Poured(n) => Some(*n),
            _ => None,
        }
    } else {
        None
    }
}

/// Whether a number is as it has to be.
pub open spec fn number_ok(rule: NumberRule, history: Seq<Reply>, n: u64) -> bool {
    match rule {
        NumberRule::Is(m) => n == m,
        NumberRule::AtLeast(m) => n >= m,
        NumberRule::AtMost(m) => n <= m,
        NumberRule::Same(at) => number_of(history, at) matches Some(m) && n == m,
        NumberRule::Next(at) => number_of(history, at) matches Some(m) && n == m + 1,
        NumberRule::Plus(at, by) => number_of(history, at) matches Some(m) && n == m + by,
        NumberRule::NotAbove(at) => number_of(history, at) matches Some(m) && n <= m,
        NumberRule::Differs(at) => number_of(history, at) matches Some(m) && n != m,
        NumberRule::OnePlusAcked(at) => acked_of(history, at) matches Some(m) && n == m + 1,
    }
}

/// Whether a number is as it has to be.
pub fn check_number(rule: NumberRule, history: &Vec<Reply>, n: u64) -> (r: bool)
    ensures
        r == number_ok(rule, history@, n),
{
    match rule {
        NumberRule::Is(m) => n == m,
        NumberRule::AtLeast(m) => n >= m,
        NumberRule::AtMost(m) => n <= m,
        NumberRule::Same(at) => match get_number(history, at) {
            Some(m) => n == m,
            None => false,
        },
        NumberRule::Next(at) => match get_number(history, at) {
            Some(m) => n > m && n - m == 1,
            None => false,
        },
        NumberRule::Plus(at, by) => match get_number(history, at) {
            Some(m) => n >= m && n - m == by,
            None => false,
        },
        NumberRule::NotAbove(at) => match get_number(history, at) {
            Some(m) => n <= m,
            None => false,
        },
        NumberRule::Differs(at) => match get_number(history, at) {
            Some(m) => n != m,
            None => false,
        },
        NumberRule::OnePlusAcked(at) => match get_acked(history, at) {
            Some(m) => n > m && n - m == 1,
            None => false,
        },
    }
}

/// Whether `value` is the text `text`, byte for byte.
pub open spec fn spells(value: Seq<u8>, text: Seq<char>) -> bool {
    &&& value.len() == text.len()
    &&& forall|i: int| 0 <= i < value.len() ==> value[i] as int == #[trigger] text[i] as int
}

/// Whether `value` holds the text `text` somewhere.
pub open spec fn holds_text(value: Seq<u8>, text: Seq<char>) -> bool {
    exists|at: int|
        0 <= at <= value.len() - text.len() && #[trigger] spells(
            value.subrange(at, at + text.len()),
            text,
        )
}

fn spells_at(value: &Vec<u8>, text: &Vec<char>, at: usize) -> (r: bool)
    requires
        at + text.len() <= value.len(),
    ensures
        r == spells(value@.subrange(at as int, at + text@.len()), text@),
{
    let ghost part = value@.subrange(at as int, at + text@.len());
    for i in 0..text.len()
        invariant
            at + text.len() <= value.len(),
            part == value@.subrange(at as int, at + text@.len()),
            forall|j: int| 0 <= j < i ==> part[j] as int == #[trigger] text@[j] as int,
    {
        if value[at + i] as u32 != code_of(text[i]) {
            assert(part[i as int] as int != text@[i as int] as int);
            return false;
        }
    }
    true
}

/// Whether `value` is the text `text`, byte for byte.
pub fn check_spells(value: &Vec<u8>, text: &str) -> (r: bool)
    ensures
        r == spells(value@, text@),
{
    let t: Vec<char> = chars_of(text);
    assert(value@.subrange(0, value@.len() as int) =~= value@);
    value.len() == t.len() && spells_at(value, &t, 0)
}

/// Whether `value` holds the text `text` somewhere.
pub fn check_holds(value: &Vec<u8>, text: &str) -> (r: bool)
    ensures
        r == holds_text(value@, text@),
{
    let t: Vec<char> = chars_of(text);
    if t.len() > value.len() {
        return false;
    }
    let last: usize = value.len() - t.len();
    let mut at: usize = 0;
    while at <= last
        invariant
            t@ == text@,
            last + t.len() == value.len(),
            at <= last + 1,
            forall|j: int|
                0 <= j < at ==> !#[trigger] spells(value@.subrange(j, j + text@.len()), text@),
        decreases last + 1 - at,
    {
        if spells_at(value, &t, at) {
            return true;
        }
        if at == last {
            return false;
        }
        at = at + 1;
    }
    false
}

/// Whether two batches hold the same events, byte for byte.
pub open spec fn same_events(a: Seq<StoredEvent>, b: Seq<StoredEvent>) -> bool {
    &&& a.len() == b.len()
    &&& forall|i: int|
        0 <= i < a.len() ==> {
            &&& (#[trigger] a[i]).client_seq == b[i].client_seq
            &&& a[i].event_type_minor == b[i].event_type_minor
            &&& a[i].value@ == b[i].value@
        }
}

fn check_same_events(a: &Vec<StoredEvent>, b: &Vec<StoredEvent>) -> (r: bool)
    ensures
        r == same_events(a@, b@),
{
    if a.len() != b.len() {
        return false;
    }
    for i in 0..a.len()
        invariant
            a@.len() == b@.len(),
            forall|j: int|
                0 <= j < i ==> {
                    &&& (#[trigger] a@[j]).client_seq == b@[j].client_seq
                    &&& a@[j].event_type_minor == b@[j].event_type_minor
                    &&& a@[j].value@ == b@[j].value@
                },
    {
        let x: &StoredEvent = &a[i];
        let y: &StoredEvent = &b[i];
        if x.client_seq != y.client_seq || x.event_type_minor != y.event_type_minor || !same_bytes(
            &x.value,
            &y.value,
        ) {
            assert(!same_events(a@, b@)) by {
                assert(a@[i as int] == *x);
            }
            return false;
        }
    }
    true
}

/// Whether two streams have the same versions, and under each of them the same events.
pub open spec fn same_stream(a: Seq<Batch>, b: Seq<Batch>) -> bool {
    &&& a.len() == b.len()
    &&& forall|i: int|
        0 <= i < a.len() ==> {
            &&& (#[trigger] a[i]).version == b[i].version
            &&& a[i].events@.len() > 0
            &&& same_events(a[i].events@, b[i].events@)
        }
}

fn check_same_stream(a: &Vec<Batch>, b: &Vec<Batch>) -> (r: bool)
    ensures
        r == same_stream(a@, b@),
{
    if a.len() != b.len() {
        return false;
    }
    for i in 0..a.len()
        invariant
            a@.len() == b@.len(),
            forall|j: int|
                0 <= j < i ==> {
                    &&& (#[trigger] a@[j]).version == b@[j].version
                    &&& a@[j].events@.len() > 0
                    &&& same_events(a@[j].events@, b@[j].events@)
                },
    {
        let x: &Batch = &a[i];
        let y: &Batch = &b[i];
        if x.version != y.version || x.events.len() == 0 || !check_same_events(
            &x.events,
            &y.events,
        ) {
            assert(!same_stream(a@, b@)) by {
                assert(a@[i as int] == *x);
            }
            return false;
        }
    }
    true
}

/// The text that tags event `seq` of writer `agg`.
pub open spec fn tag(agg: u64, seq: nat) -> Seq<char> {
    numbered(numbered("{\"agg\":"@, agg as nat, ",\"seq\":"@), seq, "}"@)
}

/// Whether a batch holds events, and every one of them has this text.
pub open spec fn all_spell(events: Seq<StoredEvent>, text: Seq<char>) -> bool {
    &&& events.len() > 0
    &&& forall|i: int| 0 <= i < events.len() ==> spells((#[trigger] events[i]).value@, text)
}

fn check_all_spell(events: &Vec<StoredEvent>, text: &str) -> (r: bool)
    ensures
        r == all_spell(events@, text@),
{
    for i in 0..events.len()
        invariant
            forall|j: int| 0 <= j < i ==> spells((#[trigger] events@[j]).value@, text@),
    {
        if !check_spells(&events[i].value, text) {
            assert(!spells(events@[i as int].value@, text@));
            return false;
        }
    }
    events.len() > 0
}

/// Whether a stream is that of writer `agg` alone: `k` batches in order, each with its own tag and
/// nothing else.
pub open spec fn tagged_stream(batches: Seq<Batch>, agg: u64, k: u64) -> bool {
    &&& batches.len() == k
    &&& forall|i: int|
        0 <= i < batches.len() ==> {
            &&& (#[trigger] batches[i]).version == i + 1
            &&& all_spell(batches[i].events@, tag(agg, (i + 1) as nat))
        }
}

fn check_tagged(batches: &Vec<Batch>, agg: u64, k: u64) -> (r: bool)
    ensures
        r == tagged_stream(batches@, agg, k),
{
    if batches.len() as u64 != k {
        return false;
    }
    for i in 0..batches.len()
        invariant
            batches@.len() == k,
            forall|j: int|
                0 <= j < i ==> {
                    &&& (#[trigger] batches@[j]).version == j + 1
                    &&& all_spell(batches@[j].events@, tag(agg, (j + 1) as nat))
                },
    {
        let want: u64 = i as u64 + 1;
        let b: &Batch = &batches[i];
        let head: String = numbered_text("{\"agg\":", agg, ",\"seq\":");
        let text: String = numbered_text(head.as_str(), want, "}");
        if b.version != want || !check_all_spell(&b.events, text.as_str()) {
            assert(!tagged_stream(batches@, agg, k)) by {
                assert(batches@[i as int] == *b);
            }
            return false;
        }
    }
    true
}

/// The batches that step `at` read.
pub open spec fn batches_of(history: Seq<Reply>, at: usize) -> Option<Seq<Batch>> {
    if at < history.len() {
        match history[at as int] {
            Reply::Batches(b) => Some(b@),
            _ => None,
        }
    } else {
        None
    }
}

/// Whether a stream is as it has to be.
pub open spec fn stream_ok(rule: StreamRule, history: Seq<Reply>, batches: Seq<Batch>) -> bool {
    match rule {
        StreamRule::Count(n) => batches.len() == n,
        StreamRule::NotEmpty => batches.len() > 0,
        StreamRule::Events(n) => event_total(batches) == n,
        StreamRule::Versions(lo, hi) => 1 <= lo <= hi && versions_run(batches, lo, hi),
        StreamRule::StartsAt(v) => batches.len() > 0 && batches.first().version == v,
        StreamRule::EndsAt(v) => batches.len() > 0 && batches.last().version == v,
        StreamRule::SameAs(at) => batches_of(history, at) matches Some(earlier) && same_stream(
            earlier,
            batches,
        ),
        StreamRule::FirstHolds(text) => batches.len() > 0 && batches.first().events@.len() > 0
            && holds_text(batches.first().events@[0].value@, text@),
        StreamRule::LastHolds(text) => batches.len() > 0 && batches.last().events@.len() > 0
            && holds_text(batches.last().events@[0].value@, text@),
        StreamRule::FirstMinor(n) => batches.len() > 0 && batches.first().events@.len() > 0
            && batches.first().events@[0].event_type_minor == n,
        StreamRule::Tagged(agg, k) => tagged_stream(batches, agg, k),
        StreamRule::OneEventEach => one_event_each(batches),
        StreamRule::OnePlusAcked(at) => acked_of(history, at) matches Some(acked) && acked
            < u64::MAX && versions_run(batches, 1, (acked + 1) as u64),
        StreamRule::ExactlyOnce(n) => exactly_once(batches, n),
    }
}

/// Whether a stream is as it has to be.
pub fn check_stream(rule: StreamRule, history: &Vec<Reply>, batches: &Vec<Batch>) -> (r: bool)
    ensures
        r == stream_ok(rule, history@, batches@),
{
    let n: usize = batches.len();
    match rule {
        StreamRule::Count(m) => n as u64 == m,
        StreamRule::NotEmpty => n > 0,
        StreamRule::Events(m) => total_is(batches, m),
        StreamRule::Versions(lo, hi) => 1 <= lo && lo <= hi && check_versions(batches, lo, hi),
        StreamRule::StartsAt(v) => n > 0 && batches[0].version == v,
        StreamRule::EndsAt(v) => n > 0 && batches[n - 1].version == v,
        StreamRule::SameAs(at) => if at < history.len() {
            match &history[at] {
                Reply::Batches(earlier) => check_same_stream(earlier, batches),
                _ => false,
            }
        } else {
            false
        },
        StreamRule::FirstHolds(text) => n > 0 && batches[0].events.len() > 0 && check_holds(
            &batches[0].events[0].value,
            text,
        ),
        StreamRule::LastHolds(text) => n > 0 && batches[n - 1].events.len() > 0 && check_holds(
            &batches[n - 1].events[0].value,
            text,
        ),
        StreamRule::FirstMinor(m) => n > 0 && batches[0].events.len() > 0
            && batches[0].events[0].event_type_minor == m,
        StreamRule::Tagged(agg, k) => check_tagged(batches, agg, k),
        StreamRule::OneEventEach => check_one_event_each(batches),
        StreamRule::OnePlusAcked(at) => match get_acked(history, at) {
            Some(acked) => acked < u64::MAX && check_versions(batches, 1, acked + 1),
            None => false,
        },
        StreamRule::ExactlyOnce(m) => check_exactly_once(batches, m),
    }
}

/// Whether `n` values came back in order, one event each, each as it was written.
pub open spec fn intact(pairs: Seq<Pair>, n: u64) -> bool {
    &&& pairs.len() == n
    &&& forall|i: int|
        0 <= i < pairs.len() ==> {
            &&& (#[trigger] pairs[i]).version == i + 1
            &&& pairs[i].events == 1
            &&& pairs[i].read@ == pairs[i].written@
        }
}

/// Whether `n` values came back in order, one event each, each as it was written.
pub fn check_intact(pairs: &Vec<Pair>, n: u64) -> (r: bool)
    ensures
        r == intact(pairs@, n),
{
    if pairs.len() as u64 != n {
        return false;
    }
    for i in 0..pairs.len()
        invariant
            pairs@.len() == n,
            forall|j: int|
                0 <= j < i ==> {
                    &&& (#[trigger] pairs@[j]).version == j + 1
                    &&& pairs@[j].events == 1
                    &&& pairs@[j].read@ == pairs@[j].written@
                },
    {
        let p: &Pair = &pairs[i];
        if p.version != i as u64 + 1 || p.events != 1 || !same_bytes(&p.read, &p.written) {
            assert(!intact(pairs@, n)) by {
                assert(pairs@[i as int] == *p);
            }
            return false;
        }
    }
    true
}

/// Whether every name is not after the one that follows it.
pub open spec fn in_order(names: Seq<String>) -> bool {
    forall|i: int, j: int|
        0 <= i && j == i + 1 && j < names.len()
            ==> text_le((#[trigger] names[i])@, (#[trigger] names[j])@)
}

fn check_in_order(names: &Vec<String>) -> (r: bool)
    ensures
        r == in_order(names@),
{
    let mut i: usize = 1;
    while i < names.len()
        invariant
            1 <= i,
            forall|k: int, j: int|
                0 <= k && j == k + 1 && j < i && j < names@.len() ==> text_le(
                    (#[trigger] names@[k])@,
                    (#[trigger] names@[j])@,
                ),
        decreases names.len() - i,
    {
        if !not_after(names[i - 1].as_str(), names[i].as_str()) {
            assert(!text_le(names@[i - 1]@, names@[i as int]@));
            return false;
        }
        i = i + 1;
    }
    true
}

/// The length of the listing that step `at` got.
pub open spec fn listed_by(history: Seq<Reply>, at: usize) -> Option<nat> {
    if at < history.len() {
        match history[at as int] {
            Reply::Objects(names) => Some(names@.len()),
            _ => None,
        }
    } else {
        None
    }
}

/// Whether a listing is as it has to be.
pub open spec fn listing_ok(rule: ListingRule, history: Seq<Reply>, names: Seq<String>) -> bool {
    match rule {
        ListingRule::Empty => names.len() == 0,
        ListingRule::AtLeast(n) => names.len() >= n,
        ListingRule::AsMany(at) => listed_by(history, at) == Some(names.len()),
        ListingRule::NoMore(at) => listed_by(history, at) matches Some(n) && names.len() <= n,
        ListingRule::Sorted => in_order(names),
        ListingRule::SomeSince(at) => names.len() > 0 || exists|k: usize|
            at <= k && (#[trigger] listed_by(history, k) matches Some(n) && n > 0),
    }
}

/// Whether a listing is as it has to be.
pub fn check_listing(rule: ListingRule, history: &Vec<Reply>, names: &Vec<String>) -> (r: bool)
    ensures
        r == listing_ok(rule, history@, names@),
{
    match rule {
        ListingRule::Empty => names.len() == 0,
        ListingRule::AtLeast(n) => names.len() as u64 >= n,
        ListingRule::AsMany(at) => if at < history.len() {
            match &history[at] {
                Reply::Objects(earlier) => earlier.len() == names.len(),
                _ => false,
            }
        } else {
            false
        },
        ListingRule::NoMore(at) => if at < history.len() {
            match &history[at] {
                Reply::Objects(earlier) => names.len() <= earlier.len(),
                _ => false,
            }
        } else {
            false
        },
        ListingRule::Sorted => check_in_order(names),
        ListingRule::SomeSince(at) => names.len() > 0 || listed_since(history, at),
    }
}

fn listed_since(history: &Vec<Reply>, at: usize) -> (r: bool)
    ensures
        r == exists|k: usize|
            at <= k && (#[trigger] listed_by(history@, k) matches Some(n) && n > 0),
{
    let mut k: usize = at;
    while k < history.len()
        invariant
            at <= k,
            forall|j: usize|
                at <= j < k ==> !(#[trigger] listed_by(history@, j) matches Some(n) && n > 0),
        decreases history.len() - k,
    {
        match &history[k] {
            Reply::Objects(names) => {
                if names.len() > 0 {
                    assert(listed_by(history@, k) == Some(names@.len()));
                    return true;
                }
            },
            _ => {},
        }
        k = k + 1;
    }
    false
}

/// The batch that step `at` read from the store.
pub open spec fn fallback_of(history: Seq<Reply>, at: usize) -> Option<FallbackBatch> {
    if at < history.len() {
        match history[at as int] {
            Reply::Fallback(b) => Some(b),
            _ => None,
        }
    } else {
        None
    }
}

/// The number of segments that step `at` found.
pub open spec fn segments_of(history: Seq<Reply>, at: usize) -> Option<nat> {
    if at < history.len() {
        match history[at as int] {
            Reply::LogFiles(names) => Some(ids(texts(names@), ".wal"@).len()),
            _ => None,
        }
    } else {
        None
    }
}

/// Whether a batch from the store is as it has to be.
pub open spec fn fallback_ok(rule: FallbackRule, history: Seq<Reply>, b: FallbackBatch) -> bool {
    match rule {
        FallbackRule::Shard(n) => b.shard_id == n,
        FallbackRule::NotEmpty => b.items > 0,
        FallbackRule::IndexOfFirst => b.items > 0 && b.fallback_index == b.first_wal_index,
        FallbackRule::Above(at) => fallback_of(history, at) matches Some(e) && b.fallback_index
            > e.fallback_index,
        FallbackRule::TermOf(at) => lease_of(history, at) matches Some(l) && b.items > 0
            && b.lease_index == l.lease_index,
    }
}

/// Whether a batch from the store is as it has to be.
pub fn check_fallback(rule: FallbackRule, history: &Vec<Reply>, b: FallbackBatch) -> (r: bool)
    ensures
        r == fallback_ok(rule, history@, b),
{
    match rule {
        FallbackRule::Shard(n) => b.shard_id == n,
        FallbackRule::NotEmpty => b.items > 0,
        FallbackRule::IndexOfFirst => b.items > 0 && b.fallback_index == b.first_wal_index,
        FallbackRule::Above(at) => if at < history.len() {
            match &history[at] {
                Reply::Fallback(e) => b.fallback_index > e.fallback_index,
                _ => false,
            }
        } else {
            false
        },
        FallbackRule::TermOf(at) => match get_lease(history, at) {
            Some(l) => b.items > 0 && b.lease_index == l.lease_index,
            None => false,
        },
    }
}

/// Whether there are `n` objects and every one of them still holds `text`.
pub open spec fn all_untouched(contents: Seq<Vec<u8>>, n: u64, text: Seq<char>) -> bool {
    &&& contents.len() == n
    &&& forall|i: int| 0 <= i < contents.len() ==> spells(#[trigger] contents[i]@, text)
}

/// Whether there are `n` objects and every one of them still holds `text`.
pub fn check_untouched(contents: &Vec<Vec<u8>>, n: u64, text: &str) -> (r: bool)
    ensures
        r == all_untouched(contents@, n, text@),
{
    for i in 0..contents.len()
        invariant
            forall|j: int| 0 <= j < i ==> spells(#[trigger] contents@[j]@, text@),
    {
        if !check_spells(&contents[i], text) {
            assert(!spells(contents@[i as int]@, text@));
            return false;
        }
    }
    contents.len() as u64 == n
}

/// Whether `racers` raced, exactly one of them won and every other one came out as `losers`.
pub open spec fn one_winner(replies: Seq<Option<Refusal>>, racers: u64, losers: Outcome) -> bool {
    &&& replies.len() == racers
    &&& tally(replies, Outcome::Won) == 1
    &&& tally(replies, losers) == racers - 1
}

/// The first place from `i` on where a racer neither won nor came out as `losers`; the number of
/// racers where there is none.
pub open spec fn first_stray(replies: Seq<Option<Refusal>>, losers: Outcome, i: nat) -> nat
    decreases replies.len() - i,
{
    if i >= replies.len() {
        replies.len()
    } else if classify(replies[i as int]) != Outcome::Won && classify(replies[i as int]) != losers {
        i
    } else {
        first_stray(replies, losers, i + 1)
    }
}

/// The first racer that neither won nor came out as `losers`.
pub fn find_stray(replies: &Vec<Option<Refusal>>, losers: Outcome) -> (r: usize)
    ensures
        r == first_stray(replies@, losers, 0),
{
    let mut i: usize = 0;
    while i < replies.len()
        invariant
            i <= replies@.len(),
            first_stray(replies@, losers, 0) == first_stray(replies@, losers, i as nat),
        decreases replies@.len() - i,
    {
        let outcome: Outcome = classify(replies[i]);
        if outcome != Outcome::Won && outcome != losers {
            return i;
        }
        i = i + 1;
    }
    i
}

/// Whether `racers` raced, exactly one of them won and every other one came out as `losers`.
pub fn check_one_winner(replies: &Vec<Option<Refusal>>, racers: u64, losers: Outcome) -> (r: bool)
    ensures
        r == one_winner(replies@, racers, losers),
{
    let won: usize = count_outcomes(replies, Outcome::Won);
    let lost: usize = count_outcomes(replies, losers);
    replies.len() as u64 == racers && won == 1 && replies.len() > 0 && lost == replies.len() - 1
}

/// Whether a report is the one that is waited for, where `seen` are the operations of those that
/// were waited for before.
pub open spec fn notice_fits(rule: NoticeRule, seen: Seq<u64>, n: Notice) -> bool {
    &&& n.aggregate_id == rule.aggregate_id
    &&& rule.ranged ==> n.to_aggregate_version is Some
    &&& rule.fresh ==> !seen.contains(n.operation)
}

fn check_notice(rule: NoticeRule, seen: &Vec<u64>, n: Notice) -> (r: bool)
    ensures
        r == notice_fits(rule, seen@, n),
{
    if n.aggregate_id != rule.aggregate_id || (rule.ranged && n.to_aggregate_version.is_none()) {
        return false;
    }
    if rule.fresh {
        for i in 0..seen.len()
            invariant
                rule.fresh,
                forall|j: int| 0 <= j < i ==> seen@[j] != n.operation,
        {
            if seen[i] == n.operation {
                return false;
            }
        }
    }
    true
}

fn all_distinct(v: &Vec<u64>) -> (r: bool)
    ensures
        r == v@.no_duplicates(),
{
    for i in 0..v.len()
        invariant
            forall|a: int, b: int| 0 <= a < i && 0 <= b < i && a != b ==> v@[a] != v@[b],
    {
        for j in 0..i
            invariant
                i < v@.len(),
                forall|b: int| 0 <= b < j ==> v@[b] != v@[i as int],
        {
            if v[j] == v[i] {
                assert(!v@.no_duplicates());
                return false;
            }
        }
    }
    true
}

/// The first of `notices` that is the one waited for.
pub open spec fn first_notice(rule: NoticeRule, seen: Seq<u64>, notices: Seq<Notice>) -> Option<
    Notice,
>
    decreases notices.len(),
{
    if notices.len() == 0 {
        None
    } else if notice_fits(rule, seen, notices[0]) {
        Some(notices[0])
    } else {
        first_notice(rule, seen, notices.skip(1))
    }
}

/// The first of `notices` that is the one waited for.
pub fn find_notice(rule: NoticeRule, seen: &Vec<u64>, notices: &Vec<Notice>) -> (r: Option<Notice>)
    ensures
        r == first_notice(rule, seen@, notices@),
{
    assert(notices@.skip(0) =~= notices@);
    for i in 0..notices.len()
        invariant
            first_notice(rule, seen@, notices@) == first_notice(
                rule,
                seen@,
                notices@.skip(i as int),
            ),
    {
        assert(notices@.skip(i as int).skip(1) =~= notices@.skip(i + 1));
        if check_notice(rule, seen, notices[i]) {
            return Some(notices[i]);
        }
    }
    None
}

/// The flag that step `at` gave: whether the bench said yes, or did what it was asked.
pub open spec fn flag_of(history: Seq<Reply>, at: usize) -> Option<bool> {
    if at < history.len() {
        flag_in(history[at as int])
    } else {
        None
    }
}

/// A reply as a yes or no, where it is one.
pub open spec fn flag_in(reply: Reply) -> Option<bool> {
    match reply {
        Reply::Flag(b) => Some(b),
        Reply::Done => Some(true),
        Reply::Refused(_) => Some(false),
        Reply::Redirected(_) => Some(false),
        _ => None,
    }
}

fn get_flag(reply: &Reply) -> (r: Option<bool>)
    ensures
        r == flag_in(*reply),
{
    match reply {
        Reply::Flag(b) => Some(*b),
        Reply::Done => Some(true),
        Reply::Refused(_) => Some(false),
        Reply::Redirected(_) => Some(false),
        _ => None,
    }
}

/// Whether the bench turned an action down.
#[verifier::opaque]
pub open spec fn turned_down(reply: Reply) -> bool {
    reply is Refused || reply is Halted || reply is Redirected
}

/// Whether the bench turned an action down.
pub fn is_turned_down(reply: &Reply) -> (r: bool)
    ensures
        r == turned_down(*reply),
{
    proof {
        reveal(turned_down);
    }
    match reply {
        Reply::Refused(_) | Reply::Halted { .. } | Reply::Redirected(_) => true,
        _ => false,
    }
}

/// What a scenario remembers beside the replies themselves.
pub struct Registers {
    /// The node that was found to accept writes.
    pub leader: Option<Node>,
    pub address_a: Option<String>,
    pub address_b: Option<String>,
    /// The operations of the reports that were waited for.
    pub operations: Vec<u64>,
    /// The last of those reports.
    pub last: Option<Notice>,
}

/// [`Registers`] as plain values.
#[verifier::ext_equal]
pub struct Memory {
    pub leader: Option<Node>,
    pub address_a: Option<Seq<char>>,
    pub address_b: Option<Seq<char>>,
    pub operations: Seq<u64>,
    pub last: Option<Notice>,
}

/// The characters of a text, where there is one.
pub open spec fn text_of(s: Option<String>) -> Option<Seq<char>> {
    match s {
        Some(t) => Some(t@),
        None => None,
    }
}

impl View for Registers {
    type V = Memory;

    open spec fn view(&self) -> Memory {
        Memory {
            leader: self.leader,
            address_a: text_of(self.address_a),
            address_b: text_of(self.address_b),
            operations: self.operations@,
            last: self.last,
        }
    }
}

impl Memory {
    /// Where a node is to be reached.
    pub open spec fn address(self, node: Node) -> Option<Seq<char>> {
        match node {
            Node::A => self.address_a,
            Node::B => self.address_b,
        }
    }

    /// Whether `address` has the port of the node that `who` means.
    pub open spec fn same_port(self, who: Who, address: Seq<char>) -> bool {
        &&& self.leader is Some
        &&& self.address(resolve(who, self.leader->0)) is Some
        &&& after_last(address, ':') == after_last(
            self.address(resolve(who, self.leader->0))->0,
            ':',
        )
    }

    /// Whether `address` has another port than the node that `who` means.
    pub open spec fn other_port(self, who: Who, address: Seq<char>) -> bool {
        &&& self.leader is Some
        &&& self.address(resolve(who, self.leader->0)) is Some
        &&& after_last(address, ':') != after_last(
            self.address(resolve(who, self.leader->0))->0,
            ':',
        )
    }
}

impl Registers {
    /// Nothing remembered.
    pub fn new() -> (r: Registers)
        ensures
            r@ == (Memory {
                leader: None,
                address_a: None,
                address_b: None,
                operations: Seq::empty(),
                last: None,
            }),
    {
        Registers {
            leader: None,
            address_a: None,
            address_b: None,
            operations: Vec::new(),
            last: None,
        }
    }

    /// Whether `address` has the port of the node that `who` means; `None` where that is not known.
    fn has_port(&self, who: Who, address: &String) -> (r: Option<bool>)
        ensures
            r == Some(true) <==> self@.same_port(who, address@),
            r == Some(false) <==> self@.other_port(who, address@),
    {
        match self.leader {
            Some(leader) => {
                let own: &Option<String> = match resolve(who, leader) {
                    Node::A => &self.address_a,
                    Node::B => &self.address_b,
                };
                match own {
                    Some(a) => Some(
                        str_eq(
                            rest_after_last(address.as_str(), ':'),
                            rest_after_last(a.as_str(), ':'),
                        ),
                    ),
                    None => None,
                }
            },
            None => None,
        }
    }
}

/// Whether the details of a stream are as they have to be.
pub open spec fn details_ok(rule: DetailsRule, reply: Reply) -> bool {
    match rule {
        DetailsRule::Present => reply matches Reply::Details(_, deleted) && !deleted,
        DetailsRule::Gone => turned_down(reply) || (reply matches Reply::Details(_, deleted)
            && deleted),
        DetailsRule::Version(v) => reply matches Reply::Details(version, _) && version == v,
    }
}

/// Whether the details of a stream are as they have to be.
pub fn check_details(rule: DetailsRule, reply: &Reply) -> (r: bool)
    ensures
        r == details_ok(rule, *reply),
{
    proof {
        reveal(turned_down);
    }
    match reply {
        Reply::Details(version, deleted) => match rule {
            DetailsRule::Present => !*deleted,
            DetailsRule::Gone => *deleted,
            DetailsRule::Version(v) => *version == v,
        },
        Reply::Refused(_) | Reply::Halted { .. } | Reply::Redirected(_) => rule == DetailsRule::Gone,
        _ => false,
    }
}

/// Whether `id` is among `ids`.
pub fn lists_id(ids: &Vec<u128>, id: u128) -> (r: bool)
    ensures
        r == ids@.contains(id),
{
    for i in 0..ids.len()
        invariant
            forall|j: int| 0 <= j < i ==> ids@[j] != id,
    {
        if ids[i] == id {
            return true;
        }
    }
    false
}

/// Holds a reply against an expectation, given what earlier steps got.
#[verifier::opaque]
pub open spec fn judgement(
    expect: Expect,
    history: Seq<Reply>,
    memory: Memory,
    reply: Reply,
) -> Judgement {
    match expect {
        Expect::Anything => Judgement::Met,
        Expect::Accepted => met_if(!turned_down(reply)),
        Expect::Rejected => met_if(turned_down(reply)),
        Expect::RefusedInTime => match reply {
            Reply::Refused(r) => if r is TimedOut {
                Judgement::Hopeless
            } else {
                Judgement::Met
            },
            Reply::Redirected(_) => Judgement::Met,
            _ => Judgement::NotYet,
        },
        Expect::RefusedWith(code) => match reply {
            Reply::Refused(r) => if r == Refusal::Coded(code) {
                Judgement::Met
            } else {
                Judgement::Hopeless
            },
            _ => Judgement::NotYet,
        },
        Expect::NotLeader => met_if(
            reply is Redirected || (reply matches Reply::Refused(r) && r is NotLeader),
        ),
        Expect::Redirect => match reply {
            Reply::Redirected(_) => Judgement::Met,
            Reply::Refused(r) => if r is Unreachable {
                Judgement::Broken
            } else {
                Judgement::NotYet
            },
            _ => Judgement::Hopeless,
        },
        Expect::PortOf(who) => met_if(
            reply matches Reply::Redirected(address) && memory.same_port(who, address@),
        ),
        Expect::PortOtherThan(who) => met_if(
            reply matches Reply::Redirected(address) && memory.other_port(who, address@),
        ),
        Expect::NothingStored => match reply {
            Reply::Refused(r) => if r == Refusal::Coded(READ_MISSING) {
                Judgement::Met
            } else {
                Judgement::Hopeless
            },
            Reply::Batches(b) => met_if(b@.len() == 0),
            _ => Judgement::NotYet,
        },
        Expect::LeaderFound => met_if(reply matches Reply::Leaders(a, b) && (a || b)),
        Expect::SingleLeader => match reply {
            Reply::Leaders(a, b) => if a && b {
                Judgement::Hopeless
            } else {
                met_if(a || b)
            },
            _ => Judgement::Broken,
        },
        Expect::OneWriter => met_if(reply matches Reply::Leaders(a, b) && a != b),
        Expect::CountsReach(x, y) => met_if(
            number_of(history, x) is Some && number_of(history, y) is Some && (
            reply matches Reply::Counts(a, b) && a >= number_of(history, x)->0 && b >= number_of(
                history,
                y,
            )->0),
        ),
        Expect::RenewalsAtMost(at, n) => met_if(
            lease_of(history, at) is Some && (reply matches Reply::Samples(samples) && changes(
                lease_of(history, at)->0.acquired_at_ms,
                samples@,
            ) <= n),
        ),
        Expect::Flag(want) => met_if(reply == Reply::Flag(want)),
        Expect::FlagOther(at) => met_if(
            flag_of(history, at) is Some && flag_in(reply) is Some && flag_of(history, at)
                != flag_in(reply),
        ),
        Expect::Number(rule) => met_if(
            reply matches Reply::Number(n) && number_ok(rule, history, n),
        ),
        Expect::Stream(rule) => met_if(
            reply matches Reply::Batches(b) && stream_ok(rule, history, b@),
        ),
        Expect::Intact(n) => met_if(reply matches Reply::Pairs(p) && intact(p@, n)),
        Expect::Lease(rule) => met_if(
            reply matches Reply::Lease(l) && lease_ok(rule, history, l),
        ),
        Expect::Listing(rule) => met_if(
            reply matches Reply::Objects(names) && listing_ok(rule, history, names@),
        ),
        Expect::Untouched(n, text) => met_if(
            reply matches Reply::Contents(c) && all_untouched(c@, n, text@),
        ),
        Expect::Fallback(rule) => met_if(
            reply matches Reply::Fallback(b) && fallback_ok(rule, history, b),
        ),
        Expect::SealedShrank(preallocate) => met_if(
            reply matches Reply::Segments(shards) && some_shard_shrank(shards@, preallocate),
        ),
        Expect::Summarised => met_if(
            reply matches Reply::LogFiles(names) && summarised(texts(names@)),
        ),
        Expect::MoreSegments(at) => met_if(
            segments_of(history, at) is Some && (reply matches Reply::LogFiles(names) && ids(
                texts(names@),
                ".wal"@,
            ).len() > segments_of(history, at)->0),
        ),
        Expect::OneWinner(racers, losers) => match reply {
            Reply::Race(replies) => if one_winner(replies@, racers, losers) {
                Judgement::Met
            } else if first_stray(replies@, losers, 0) < replies@.len() {
                Judgement::Hopeless
            } else {
                Judgement::NotYet
            },
            _ => Judgement::NotYet,
        },
        Expect::Notice(rule) => met_if(
            reply matches Reply::Notices(notices)
                && first_notice(rule, memory.operations, notices@) is Some,
        ),
        Expect::NoticeNames(org, kind) => met_if(
            memory.last matches Some(n) && n.org_id == org && n.aggregate_type_id == kind,
        ),
        Expect::NoticeReaches(v) => met_if(
            memory.last matches Some(n) && (n.to_aggregate_version matches Some(to) && to >= v),
        ),
        Expect::DistinctOperations(n) => met_if(
            memory.operations.len() == n && memory.operations.no_duplicates(),
        ),
        Expect::FollowedTo(n) => met_if(
            reply matches Reply::Followed(versions) && counts_up(versions@, n),
        ),
        Expect::IdentityMatches => match reply {
            Reply::Identity(given, own) => match given {
                Some(id) => met_if(id == own),
                None => Judgement::Hopeless,
            },
            _ => Judgement::NotYet,
        },
        Expect::Unseen => met_if(!(reply matches Reply::Batches(b) && b@.len() > 0)),
        Expect::Lists(id) => met_if(reply matches Reply::Ids(ids) && ids@.contains(id)),
        Expect::ListsSome => met_if(reply matches Reply::Ids(ids) && ids@.len() > 0),
        Expect::Details(rule) => if details_ok(rule, reply) {
            Judgement::Met
        } else if turned_down(reply) {
            Judgement::Hopeless
        } else {
            Judgement::NotYet
        },
        Expect::OutOfStep => match reply {
            Reply::Refused(r) => if r is OutOfStep {
                Judgement::Met
            } else {
                Judgement::Hopeless
            },
            _ => Judgement::NotYet,
        },
        Expect::Balance(n) => met_if(reply matches Reply::Balance(b) && b == n),
        Expect::Balances(m, n) => met_if(
            reply matches Reply::Balances(a, b) && a == m && b == n,
        ),
        Expect::ShortOfFunds(n) => met_if(reply matches Reply::ShortOfFunds(b) && b == n),
    }
}

pub broadcast proof fn judged_anything(history: Seq<Reply>, memory: Memory, reply: Reply)
    ensures
        #[trigger] judgement(Expect::Anything, history, memory, reply) == (Judgement::Met),
{
    reveal(judgement);
}

pub broadcast proof fn judged_accepted(history: Seq<Reply>, memory: Memory, reply: Reply)
    ensures
        #[trigger] judgement(Expect::Accepted, history, memory, reply) == (
            met_if(!turned_down(reply))
        ),
{
    reveal(judgement);
}

pub broadcast proof fn judged_rejected(history: Seq<Reply>, memory: Memory, reply: Reply)
    ensures
        #[trigger] judgement(Expect::Rejected, history, memory, reply) == (
            met_if(turned_down(reply))
        ),
{
    reveal(judgement);
}

pub broadcast proof fn judged_refused_in_time(history: Seq<Reply>, memory: Memory, reply: Reply)
    ensures
        #[trigger] judgement(Expect::RefusedInTime, history, memory, reply) == (match reply {
            Reply::Refused(r) => if r is TimedOut {
                Judgement::Hopeless
            } else {
                Judgement::Met
            },
            Reply::Redirected(_) => Judgement::Met,
            _ => Judgement::NotYet,
        }),
{
    reveal(judgement);
}

pub broadcast proof fn judged_refused_with(
    code: u32,
    history: Seq<Reply>,
    memory: Memory,
    reply: Reply,
)
    ensures
        (#[trigger] judgement(Expect::RefusedWith(code), history, memory, reply) == Judgement::Met)
            == (reply matches Reply::Refused(r) && r == Refusal::Coded(code)),
{
    reveal(judgement);
}

pub broadcast proof fn judged_not_leader(history: Seq<Reply>, memory: Memory, reply: Reply)
    ensures
        #[trigger] judgement(Expect::NotLeader, history, memory, reply) == (met_if(
            reply is Redirected || (reply matches Reply::Refused(r) && r is NotLeader),
        )),
{
    reveal(judgement);
}

pub broadcast proof fn judged_redirect(history: Seq<Reply>, memory: Memory, reply: Reply)
    ensures
        #[trigger] judgement(Expect::Redirect, history, memory, reply) == (match reply {
            Reply::Redirected(_) => Judgement::Met,
            Reply::Refused(r) => if r is Unreachable {
                Judgement::Broken
            } else {
                Judgement::NotYet
            },
            _ => Judgement::Hopeless,
        }),
{
    reveal(judgement);
}

pub broadcast proof fn judged_port_of(who: Who, history: Seq<Reply>, memory: Memory, reply: Reply)
    ensures
        #[trigger] judgement(Expect::PortOf(who), history, memory, reply) == (met_if(
            reply matches Reply::Redirected(address) && memory.same_port(who, address@),
        )),
{
    reveal(judgement);
}

pub broadcast proof fn judged_port_other_than(
    who: Who,
    history: Seq<Reply>,
    memory: Memory,
    reply: Reply,
)
    ensures
        #[trigger] judgement(Expect::PortOtherThan(who), history, memory, reply) == (met_if(
            reply matches Reply::Redirected(address) && memory.other_port(who, address@),
        )),
{
    reveal(judgement);
}

pub broadcast proof fn judged_nothing_stored(history: Seq<Reply>, memory: Memory, reply: Reply)
    ensures
        #[trigger] judgement(Expect::NothingStored, history, memory, reply) == (match reply {
            Reply::Refused(r) => if r == Refusal::Coded(READ_MISSING) {
                Judgement::Met
            } else {
                Judgement::Hopeless
            },
            Reply::Batches(b) => met_if(b@.len() == 0),
            _ => Judgement::NotYet,
        }),
{
    reveal(judgement);
}

pub broadcast proof fn judged_leader_found(history: Seq<Reply>, memory: Memory, reply: Reply)
    ensures
        #[trigger] judgement(Expect::LeaderFound, history, memory, reply) == (
            met_if(reply matches Reply::Leaders(a, b) && (a || b))
        ),
{
    reveal(judgement);
}

pub broadcast proof fn judged_single_leader(history: Seq<Reply>, memory: Memory, reply: Reply)
    ensures
        #[trigger] judgement(Expect::SingleLeader, history, memory, reply) == (match reply {
            Reply::Leaders(a, b) => if a && b {
                Judgement::Hopeless
            } else {
                met_if(a || b)
            },
            _ => Judgement::Broken,
        }),
{
    reveal(judgement);
}

pub broadcast proof fn judged_one_writer(history: Seq<Reply>, memory: Memory, reply: Reply)
    ensures
        #[trigger] judgement(Expect::OneWriter, history, memory, reply) == (
            met_if(reply matches Reply::Leaders(a, b) && a != b)
        ),
{
    reveal(judgement);
}

pub broadcast proof fn judged_counts_reach(
    x: usize,
    y: usize,
    history: Seq<Reply>,
    memory: Memory,
    reply: Reply,
)
    ensures
        #[trigger] judgement(Expect::CountsReach(x, y), history, memory, reply) == (met_if(
            number_of(history, x) is Some && number_of(history, y) is Some && (
            reply matches Reply::Counts(a, b) && a >= number_of(history, x)->0 && b >= number_of(
                history,
                y,
            )->0),
        )),
{
    reveal(judgement);
}

pub broadcast proof fn judged_renewals_at_most(
    at: usize,
    n: u64,
    history: Seq<Reply>,
    memory: Memory,
    reply: Reply,
)
    ensures
        #[trigger] judgement(Expect::RenewalsAtMost(at, n), history, memory, reply) == (met_if(
            lease_of(history, at) is Some && (reply matches Reply::Samples(samples) && changes(
                lease_of(history, at)->0.acquired_at_ms,
                samples@,
            ) <= n),
        )),
{
    reveal(judgement);
}

pub broadcast proof fn judged_flag(want: bool, history: Seq<Reply>, memory: Memory, reply: Reply)
    ensures
        #[trigger] judgement(Expect::Flag(want), history, memory, reply) == (
            met_if(reply == Reply::Flag(want))
        ),
{
    reveal(judgement);
}

pub broadcast proof fn judged_flag_other(
    at: usize,
    history: Seq<Reply>,
    memory: Memory,
    reply: Reply,
)
    ensures
        #[trigger] judgement(Expect::FlagOther(at), history, memory, reply) == (met_if(
            flag_of(history, at) is Some && flag_in(reply) is Some && flag_of(history, at)
                != flag_in(reply),
        )),
{
    reveal(judgement);
}

pub broadcast proof fn judged_number(
    rule: NumberRule,
    history: Seq<Reply>,
    memory: Memory,
    reply: Reply,
)
    ensures
        #[trigger] judgement(Expect::Number(rule), history, memory, reply) == (met_if(
            reply matches Reply::Number(n) && number_ok(rule, history, n),
        )),
{
    reveal(judgement);
}

pub broadcast proof fn judged_stream(
    rule: StreamRule,
    history: Seq<Reply>,
    memory: Memory,
    reply: Reply,
)
    ensures
        #[trigger] judgement(Expect::Stream(rule), history, memory, reply) == (met_if(
            reply matches Reply::Batches(b) && stream_ok(rule, history, b@),
        )),
{
    reveal(judgement);
}

pub broadcast proof fn judged_intact(n: u64, history: Seq<Reply>, memory: Memory, reply: Reply)
    ensures
        #[trigger] judgement(Expect::Intact(n), history, memory, reply) == (
            met_if(reply matches Reply::Pairs(p) && intact(p@, n))
        ),
{
    reveal(judgement);
}

pub broadcast proof fn judged_lease(
    rule: LeaseRule,
    history: Seq<Reply>,
    memory: Memory,
    reply: Reply,
)
    ensures
        #[trigger] judgement(Expect::Lease(rule), history, memory, reply) == (met_if(
            reply matches Reply::Lease(l) && lease_ok(rule, history, l),
        )),
{
    reveal(judgement);
}

pub broadcast proof fn judged_listing(
    rule: ListingRule,
    history: Seq<Reply>,
    memory: Memory,
    reply: Reply,
)
    ensures
        #[trigger] judgement(Expect::Listing(rule), history, memory, reply) == (met_if(
            reply matches Reply::Objects(names) && listing_ok(rule, history, names@),
        )),
{
    reveal(judgement);
}

pub broadcast proof fn judged_untouched(
    n: u64,
    text: &'static str,
    history: Seq<Reply>,
    memory: Memory,
    reply: Reply,
)
    ensures
        #[trigger] judgement(Expect::Untouched(n, text), history, memory, reply) == (met_if(
            reply matches Reply::Contents(c) && all_untouched(c@, n, text@),
        )),
{
    reveal(judgement);
}

pub broadcast proof fn judged_fallback(
    rule: FallbackRule,
    history: Seq<Reply>,
    memory: Memory,
    reply: Reply,
)
    ensures
        #[trigger] judgement(Expect::Fallback(rule), history, memory, reply) == (met_if(
            reply matches Reply::Fallback(b) && fallback_ok(rule, history, b),
        )),
{
    reveal(judgement);
}

pub broadcast proof fn judged_sealed_shrank(
    preallocate: u64,
    history: Seq<Reply>,
    memory: Memory,
    reply: Reply,
)
    ensures
        #[trigger] judgement(Expect::SealedShrank(preallocate), history, memory, reply) == (met_if(
            reply matches Reply::Segments(shards) && some_shard_shrank(shards@, preallocate),
        )),
{
    reveal(judgement);
}

pub broadcast proof fn judged_summarised(history: Seq<Reply>, memory: Memory, reply: Reply)
    ensures
        #[trigger] judgement(Expect::Summarised, history, memory, reply) == (met_if(
            reply matches Reply::LogFiles(names) && summarised(texts(names@)),
        )),
{
    reveal(judgement);
}

pub broadcast proof fn judged_more_segments(
    at: usize,
    history: Seq<Reply>,
    memory: Memory,
    reply: Reply,
)
    ensures
        #[trigger] judgement(Expect::MoreSegments(at), history, memory, reply) == (met_if(
            segments_of(history, at) is Some && (reply matches Reply::LogFiles(names) && ids(
                texts(names@),
                ".wal"@,
            ).len() > segments_of(history, at)->0),
        )),
{
    reveal(judgement);
}

pub broadcast proof fn judged_one_winner(
    racers: u64,
    losers: Outcome,
    history: Seq<Reply>,
    memory: Memory,
    reply: Reply,
)
    ensures
        (#[trigger] judgement(Expect::OneWinner(racers, losers), history, memory, reply)
            == Judgement::Met) == (reply matches Reply::Race(replies) && one_winner(
            replies@,
            racers,
            losers,
        )),
{
    reveal(judgement);
}

pub broadcast proof fn judged_notice(
    rule: NoticeRule,
    history: Seq<Reply>,
    memory: Memory,
    reply: Reply,
)
    ensures
        #[trigger] judgement(Expect::Notice(rule), history, memory, reply) == (met_if(
            reply matches Reply::Notices(notices)
                && first_notice(rule, memory.operations, notices@) is Some,
        )),
{
    reveal(judgement);
}

pub broadcast proof fn judged_notice_names(
    org: u128,
    kind: u128,
    history: Seq<Reply>,
    memory: Memory,
    reply: Reply,
)
    ensures
        #[trigger] judgement(Expect::NoticeNames(org, kind), history, memory, reply) == (met_if(
            memory.last matches Some(n) && n.org_id == org && n.aggregate_type_id == kind,
        )),
{
    reveal(judgement);
}

pub broadcast proof fn judged_notice_reaches(
    v: u64,
    history: Seq<Reply>,
    memory: Memory,
    reply: Reply,
)
    ensures
        #[trigger] judgement(Expect::NoticeReaches(v), history, memory, reply) == (met_if(
            memory.last matches Some(n) && (n.to_aggregate_version matches Some(to) && to >= v),
        )),
{
    reveal(judgement);
}

pub broadcast proof fn judged_distinct_operations(
    n: u64,
    history: Seq<Reply>,
    memory: Memory,
    reply: Reply,
)
    ensures
        #[trigger] judgement(Expect::DistinctOperations(n), history, memory, reply) == (met_if(
            memory.operations.len() == n && memory.operations.no_duplicates(),
        )),
{
    reveal(judgement);
}

pub broadcast proof fn judged_followed_to(n: u64, history: Seq<Reply>, memory: Memory, reply: Reply)
    ensures
        #[trigger] judgement(Expect::FollowedTo(n), history, memory, reply) == (met_if(
            reply matches Reply::Followed(versions) && counts_up(versions@, n),
        )),
{
    reveal(judgement);
}

pub broadcast proof fn judged_identity_matches(history: Seq<Reply>, memory: Memory, reply: Reply)
    ensures
        (#[trigger] judgement(Expect::IdentityMatches, history, memory, reply) == Judgement::Met)
            == (reply matches Reply::Identity(given, own) && given == Some(own)),
{
    reveal(judgement);
}

pub broadcast proof fn judged_unseen(history: Seq<Reply>, memory: Memory, reply: Reply)
    ensures
        #[trigger] judgement(Expect::Unseen, history, memory, reply) == (
            met_if(!(reply matches Reply::Batches(b) && b@.len() > 0))
        ),
{
    reveal(judgement);
}

pub broadcast proof fn judged_lists(id: u128, history: Seq<Reply>, memory: Memory, reply: Reply)
    ensures
        #[trigger] judgement(Expect::Lists(id), history, memory, reply) == (
            met_if(reply matches Reply::Ids(ids) && ids@.contains(id))
        ),
{
    reveal(judgement);
}

pub broadcast proof fn judged_lists_some(history: Seq<Reply>, memory: Memory, reply: Reply)
    ensures
        #[trigger] judgement(Expect::ListsSome, history, memory, reply) == (
            met_if(reply matches Reply::Ids(ids) && ids@.len() > 0)
        ),
{
    reveal(judgement);
}

pub broadcast proof fn judged_details(
    rule: DetailsRule,
    history: Seq<Reply>,
    memory: Memory,
    reply: Reply,
)
    ensures
        (#[trigger] judgement(Expect::Details(rule), history, memory, reply) == Judgement::Met)
            == details_ok(rule, reply),
{
    reveal(judgement);
}

pub broadcast proof fn judged_out_of_step(history: Seq<Reply>, memory: Memory, reply: Reply)
    ensures
        (#[trigger] judgement(Expect::OutOfStep, history, memory, reply) == Judgement::Met) == (
            reply matches Reply::Refused(r) && r is OutOfStep),
{
    reveal(judgement);
}

pub broadcast proof fn judged_balance(n: i64, history: Seq<Reply>, memory: Memory, reply: Reply)
    ensures
        #[trigger] judgement(Expect::Balance(n), history, memory, reply) == (
            met_if(reply matches Reply::Balance(b) && b == n)
        ),
{
    reveal(judgement);
}

pub broadcast proof fn judged_balances(
    m: i64,
    n: i64,
    history: Seq<Reply>,
    memory: Memory,
    reply: Reply,
)
    ensures
        #[trigger] judgement(Expect::Balances(m, n), history, memory, reply) == (met_if(
            reply matches Reply::Balances(a, b) && a == m && b == n,
        )),
{
    reveal(judgement);
}

pub broadcast proof fn judged_short_of_funds(
    n: i64,
    history: Seq<Reply>,
    memory: Memory,
    reply: Reply,
)
    ensures
        #[trigger] judgement(Expect::ShortOfFunds(n), history, memory, reply) == (
            met_if(reply matches Reply::ShortOfFunds(b) && b == n)
        ),
{
    reveal(judgement);
}

/// What each expectation comes to, one by one.
pub broadcast group group_judgement {
    judged_anything,
    judged_accepted,
    judged_rejected,
    judged_refused_in_time,
    judged_refused_with,
    judged_not_leader,
    judged_redirect,
    judged_port_of,
    judged_port_other_than,
    judged_nothing_stored,
    judged_leader_found,
    judged_single_leader,
    judged_one_writer,
    judged_counts_reach,
    judged_renewals_at_most,
    judged_flag,
    judged_flag_other,
    judged_number,
    judged_stream,
    judged_intact,
    judged_lease,
    judged_listing,
    judged_untouched,
    judged_fallback,
    judged_sealed_shrank,
    judged_summarised,
    judged_more_segments,
    judged_one_winner,
    judged_notice,
    judged_notice_names,
    judged_notice_reaches,
    judged_distinct_operations,
    judged_followed_to,
    judged_identity_matches,
    judged_unseen,
    judged_lists,
    judged_lists_some,
    judged_details,
    judged_out_of_step,
    judged_balance,
    judged_balances,
    judged_short_of_funds,
}

/// Holds a reply against an expectation, given what earlier steps got.
#[verifier::rlimit(60)]
pub fn judge(expect: Expect, history: &Vec<Reply>, registers: &Registers, reply: &Reply) -> (r:
    Judgement)
    ensures
        r == judgement(expect, history@, registers@, *reply),
{
    proof {
        reveal(judgement);
    }
    match expect {
        Expect::Anything => Judgement::Met,
        Expect::Accepted => met_if(!is_turned_down(reply)),
        Expect::Rejected => met_if(is_turned_down(reply)),
        Expect::RefusedInTime => match reply {
            Reply::Refused(r) => if *r == Refusal::TimedOut {
                Judgement::Hopeless
            } else {
                Judgement::Met
            },
            Reply::Redirected(_) => Judgement::Met,
            _ => Judgement::NotYet,
        },
        Expect::RefusedWith(code) => match reply {
            Reply::Refused(r) => if *r == Refusal::Coded(code) {
                Judgement::Met
            } else {
                Judgement::Hopeless
            },
            _ => Judgement::NotYet,
        },
        Expect::NotLeader => match reply {
            Reply::Redirected(_) => Judgement::Met,
            Reply::Refused(r) => met_if(*r == Refusal::NotLeader),
            _ => Judgement::NotYet,
        },
        Expect::Redirect => match reply {
            Reply::Redirected(_) => Judgement::Met,
            Reply::Refused(r) => if *r == Refusal::Unreachable {
                Judgement::Broken
            } else {
                Judgement::NotYet
            },
            _ => Judgement::Hopeless,
        },
        Expect::PortOf(who) => match reply {
            Reply::Redirected(address) => met_if(registers.has_port(who, address) == Some(true)),
            _ => Judgement::NotYet,
        },
        Expect::PortOtherThan(who) => match reply {
            Reply::Redirected(address) => met_if(registers.has_port(who, address) == Some(false)),
            _ => Judgement::NotYet,
        },
        Expect::NothingStored => match reply {
            Reply::Refused(r) => if *r == Refusal::Coded(READ_MISSING) {
                Judgement::Met
            } else {
                Judgement::Hopeless
            },
            Reply::Batches(b) => met_if(b.len() == 0),
            _ => Judgement::NotYet,
        },
        Expect::LeaderFound => match reply {
            Reply::Leaders(a, b) => met_if(*a || *b),
            _ => Judgement::NotYet,
        },
        Expect::SingleLeader => match reply {
            Reply::Leaders(a, b) => if *a && *b {
                Judgement::Hopeless
            } else {
                met_if(*a || *b)
            },
            _ => Judgement::Broken,
        },
        Expect::OneWriter => match reply {
            Reply::Leaders(a, b) => met_if(*a != *b),
            _ => Judgement::NotYet,
        },
        Expect::CountsReach(x, y) => match (get_number(history, x), get_number(history, y)) {
            (Some(m), Some(n)) => match reply {
                Reply::Counts(a, b) => met_if(*a >= m && *b >= n),
                _ => Judgement::NotYet,
            },
            _ => Judgement::NotYet,
        },
        Expect::RenewalsAtMost(at, n) => match get_lease(history, at) {
            Some(l) => match reply {
                Reply::Samples(samples) => met_if(
                    count_changes(l.acquired_at_ms, samples) as u64 <= n,
                ),
                _ => Judgement::NotYet,
            },
            None => Judgement::NotYet,
        },
        Expect::Flag(want) => match reply {
            Reply::Flag(b) => met_if(*b == want),
            _ => Judgement::NotYet,
        },
        Expect::FlagOther(at) => if at < history.len() {
            match (get_flag(&history[at]), get_flag(reply)) {
                (Some(a), Some(b)) => met_if(a != b),
                _ => Judgement::NotYet,
            }
        } else {
            Judgement::NotYet
        },
        Expect::Number(rule) => match reply {
            Reply::Number(n) => met_if(check_number(rule, history, *n)),
            _ => Judgement::NotYet,
        },
        Expect::Stream(rule) => match reply {
            Reply::Batches(b) => met_if(check_stream(rule, history, b)),
            _ => Judgement::NotYet,
        },
        Expect::Intact(n) => match reply {
            Reply::Pairs(p) => met_if(check_intact(p, n)),
            _ => Judgement::NotYet,
        },
        Expect::Lease(rule) => match reply {
            Reply::Lease(l) => met_if(check_lease(rule, history, *l)),
            _ => Judgement::NotYet,
        },
        Expect::Listing(rule) => match reply {
            Reply::Objects(names) => met_if(check_listing(rule, history, names)),
            _ => Judgement::NotYet,
        },
        Expect::Untouched(n, text) => match reply {
            Reply::Contents(c) => met_if(check_untouched(c, n, text)),
            _ => Judgement::NotYet,
        },
        Expect::Fallback(rule) => match reply {
            Reply::Fallback(b) => met_if(check_fallback(rule, history, *b)),
            _ => Judgement::NotYet,
        },
        Expect::SealedShrank(preallocate) => match reply {
            Reply::Segments(shards) => met_if(any_sealed_shrank(shards, preallocate)),
            _ => Judgement::NotYet,
        },
        Expect::Summarised => match reply {
            Reply::LogFiles(names) => met_if(check_summarised(names)),
            _ => Judgement::NotYet,
        },
        Expect::MoreSegments(at) => match reply {
            Reply::LogFiles(names) => if at < history.len() {
                match &history[at] {
                    Reply::LogFiles(earlier) => met_if(
                        count_segments(names) > count_segments(earlier),
                    ),
                    _ => Judgement::NotYet,
                }
            } else {
                Judgement::NotYet
            },
            _ => Judgement::NotYet,
        },
        Expect::OneWinner(racers, losers) => match reply {
            Reply::Race(replies) => if check_one_winner(replies, racers, losers) {
                Judgement::Met
            } else if find_stray(replies, losers) < replies.len() {
                Judgement::Hopeless
            } else {
                Judgement::NotYet
            },
            _ => Judgement::NotYet,
        },
        Expect::Notice(rule) => match reply {
            Reply::Notices(notices) => met_if(
                find_notice(rule, &registers.operations, notices).is_some(),
            ),
            _ => Judgement::NotYet,
        },
        Expect::NoticeNames(org, kind) => match registers.last {
            Some(n) => met_if(n.org_id == org && n.aggregate_type_id == kind),
            None => Judgement::NotYet,
        },
        Expect::NoticeReaches(v) => match registers.last {
            Some(n) => match n.to_aggregate_version {
                Some(to) => met_if(to >= v),
                None => Judgement::NotYet,
            },
            None => Judgement::NotYet,
        },
        Expect::DistinctOperations(n) => met_if(
            registers.operations.len() as u64 == n && all_distinct(&registers.operations),
        ),
        Expect::FollowedTo(n) => match reply {
            Reply::Followed(versions) => met_if(check_counts_up(versions, n)),
            _ => Judgement::NotYet,
        },
        Expect::IdentityMatches => match reply {
            Reply::Identity(given, own) => match given {
                Some(id) => met_if(*id == *own),
                None => Judgement::Hopeless,
            },
            _ => Judgement::NotYet,
        },
        Expect::Unseen => match reply {
            Reply::Batches(b) => met_if(b.len() == 0),
            _ => Judgement::Met,
        },
        Expect::Lists(id) => match reply {
            Reply::Ids(ids) => met_if(lists_id(ids, id)),
            _ => Judgement::NotYet,
        },
        Expect::ListsSome => match reply {
            Reply::Ids(ids) => met_if(ids.len() > 0),
            _ => Judgement::NotYet,
        },
        Expect::Details(rule) => if check_details(rule, reply) {
            Judgement::Met
        } else if is_turned_down(reply) {
            Judgement::Hopeless
        } else {
            Judgement::NotYet
        },
        Expect::OutOfStep => match reply {
            Reply::Refused(r) => if *r == Refusal::OutOfStep {
                Judgement::Met
            } else {
                Judgement::Hopeless
            },
            _ => Judgement::NotYet,
        },
        Expect::Balance(n) => match reply {
            Reply::Balance(b) => met_if(*b == n),
            _ => Judgement::NotYet,
        },
        Expect::Balances(m, n) => match reply {
            Reply::Balances(a, b) => met_if(*a == m && *b == n),
            _ => Judgement::NotYet,
        },
        Expect::ShortOfFunds(n) => match reply {
            Reply::ShortOfFunds(b) => met_if(*b == n),
            _ => Judgement::NotYet,
        },
    }
}

} // verus!
