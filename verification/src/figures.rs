//! How what a reply says is put into a message.
//!
//! A message names the figures that it needs between curly brackets. Each stands for something of
//! the reply that did not meet its expectation, of the earlier reply that it was held against, or of
//! what the scenario remembers.
//!
//! - Of the reply: `reply` is all of it in words, `got` its number, address or count, and `fault`
//!   what is wrong with it under an expectation that asks for several things. Streams have `events`,
//!   `first`, `last`, `versions`, `client_seqs`, `odd`, `crowd`, `first_payload` and `last_payload`;
//!   leases `index`, `epoch`, `node` and `expiry`; races `won`, `lost` and `deduped`; pairs of nodes
//!   `a` and `b`; identities `given` and `own`; a sequence that was halted `n`, `writer`, `halt` and
//!   `share`; a write `accepts`; a time `seconds`.
//! - Of the earlier reply: `was` and `next`, `was_index`, `was_epoch`, `was_node`, `was_expiry`,
//!   `was_accepts`, `renewals` and `limit`.
//! - Of what is remembered: `leader`, `first_node`, `notice`, `reached` and `first_operation`,
//!   `second_operation`, `third_operation`.

use crate::bench::Node;
use crate::codec::{lossily_read, read_lossily};
use crate::expect::{
    Expect, FallbackRule, LeaseRule, Memory, NumberRule, Registers, StreamRule, find_stray,
    first_stray, is_turned_down, turned_down,
};
use crate::model::{Outcome, Refusal};
use crate::reply::{
    Batch, Lease, Notice, Pair, Reply, changes, count_changes, count_outcomes, event_total,
    same_bytes, tally,
};
use crate::report::{
    cents_text, flag_text, push_cents, push_flag, push_refusal, push_reply, refusal_text,
    reply_text,
};
use crate::segments::{SealedFault, assert_sealed_summaries, ids, missing_summaries, scan_log_files};
use crate::sorting::{sorted_from, sorting_is_unique, texts};
use crate::text::{decimal, padded, push_decimal, push_padded, split, split_on, str_eq, views};
use vstd::prelude::*;

verus! {

/// Numbers with commas between them.
pub open spec fn commas(v: Seq<u64>) -> Seq<char>
    decreases v.len(),
{
    if v.len() == 0 {
        Seq::empty()
    } else if v.len() == 1 {
        decimal(v[0] as nat)
    } else {
        commas(v.drop_last()) + ", "@ + decimal(v.last() as nat)
    }
}

/// A list of numbers.
pub open spec fn list_text(v: Seq<u64>) -> Seq<char> {
    "["@ + commas(v) + "]"@
}

/// Appends a list of numbers.
fn push_list(out: &mut String, v: &Vec<u64>)
    ensures
        final(out)@ == old(out)@ + list_text(v@),
{
    let ghost start = out@;
    out.append("[");
    assert(v@.take(0) =~= Seq::empty());
    for i in 0..v.len()
        invariant
            out@ == start + "["@ + commas(v@.take(i as int)),
    {
        let ghost before = v@.take(i as int);
        assert(v@.take(i + 1).drop_last() =~= before);
        if i > 0 {
            out.append(", ");
        }
        push_decimal(out, v[i] as u128);
        assert(out@ =~= start + "["@ + commas(v@.take(i + 1)));
    }
    assert(v@.take(v@.len() as int) =~= v@);
    out.append("]");
    assert(out@ =~= start + list_text(v@));
}

/// A number that may be missing.
pub open spec fn option_text(n: Option<u64>) -> Seq<char> {
    match n {
        Some(x) => "Some("@ + decimal(x as nat) + ")"@,
        None => "None"@,
    }
}

/// Appends a number that may be missing.
fn push_option(out: &mut String, n: Option<u64>)
    ensures
        final(out)@ == old(out)@ + option_text(n),
{
    match n {
        Some(x) => {
            out.append("Some(");
            push_decimal(out, x as u128);
            out.append(")");
            assert(out@ =~= old(out)@ + option_text(n));
        },
        None => {
            out.append("None");
        },
    }
}

/// A time in seconds, rounded to hundredths.
pub open spec fn hundredths(ms: u64) -> Seq<char> {
    let n = (ms + 5) / 10;
    decimal((n / 100) as nat) + "."@ + padded((n % 100) as nat, 2) + "s"@
}

/// Appends a time in seconds, rounded to hundredths.
fn push_hundredths(out: &mut String, ms: u64)
    ensures
        final(out)@ == old(out)@ + hundredths(ms),
{
    let n: u128 = (ms as u128 + 5) / 10;
    push_decimal(out, n / 100);
    out.append(".");
    push_padded(out, n % 100, 2);
    out.append("s");
    assert(out@ =~= old(out)@ + hundredths(ms));
}

/// The versions of the batches.
pub open spec fn versions_of(batches: Seq<Batch>) -> Seq<u64> {
    Seq::new(batches.len(), |i: int| batches[i].version)
}

fn get_versions(batches: &Vec<Batch>) -> (r: Vec<u64>)
    ensures
        r@ == versions_of(batches@),
{
    let mut out: Vec<u64> = Vec::new();
    for i in 0..batches.len()
        invariant
            out@.len() == i,
            forall|j: int| 0 <= j < i ==> out@[j] == batches@[j].version,
    {
        out.push(batches[i].version);
    }
    assert(out@ =~= versions_of(batches@));
    out
}

/// The numbers that the clients gave to the first events of the batches.
pub open spec fn seqs_of(batches: Seq<Batch>) -> Seq<u64> {
    Seq::new(
        batches.len(),
        |i: int|
            if batches[i].events@.len() > 0 {
                batches[i].events@[0].client_seq
            } else {
                0
            },
    )
}

fn get_seqs(batches: &Vec<Batch>) -> (r: Vec<u64>)
    ensures
        r@ == seqs_of(batches@),
{
    let mut out: Vec<u64> = Vec::new();
    for i in 0..batches.len()
        invariant
            out@.len() == i,
            forall|j: int| 0 <= j < i ==> out@[j] == seqs_of(batches@)[j],
    {
        let b: &Batch = &batches[i];
        if b.events.len() > 0 {
            out.push(b.events[0].client_seq);
        } else {
            out.push(0);
        }
    }
    assert(out@ =~= seqs_of(batches@));
    out
}

/// How many events each of the batches has.
pub open spec fn sizes_of(batches: Seq<Batch>) -> Seq<u64> {
    Seq::new(batches.len(), |i: int| batches[i].events@.len() as u64)
}

fn get_sizes(batches: &Vec<Batch>) -> (r: Vec<u64>)
    ensures
        r@ == sizes_of(batches@),
{
    let mut out: Vec<u64> = Vec::new();
    for i in 0..batches.len()
        invariant
            out@.len() == i,
            forall|j: int| 0 <= j < i ==> out@[j] == batches@[j].events@.len() as u64,
    {
        out.push(batches[i].events.len() as u64);
    }
    assert(out@ =~= sizes_of(batches@));
    out
}

/// How many events there are in all of the batches.
fn push_total(out: &mut String, batches: &Vec<Batch>)
    ensures
        final(out)@ == old(out)@ + decimal(event_total(batches@)),
{
    let mut total: u128 = 0;
    assert(batches@.take(0) =~= Seq::empty());
    for i in 0..batches.len()
        invariant
            total == event_total(batches@.take(i as int)),
            total <= i * usize::MAX,
    {
        assert(batches@.take(i + 1).drop_last() =~= batches@.take(i as int));
        assert((i + 1) * usize::MAX == i * usize::MAX + usize::MAX) by (nonlinear_arith);
        assert(i * usize::MAX + usize::MAX <= u128::MAX) by (nonlinear_arith)
            requires
                i < usize::MAX,
                usize::MAX <= u64::MAX,
                u64::MAX * u64::MAX <= u128::MAX,
        ;
        total = total + batches[i].events.len() as u128;
    }
    assert(batches@.take(batches@.len() as int) =~= batches@);
    push_decimal(out, total);
}

/// The first place from `i` on where the numbers do not count up from 1; their length where there
/// is none.
pub open spec fn first_odd(v: Seq<u64>, i: nat) -> nat
    decreases v.len() - i,
{
    if i >= v.len() {
        v.len()
    } else if v[i as int] != i + 1 {
        i
    } else {
        first_odd(v, i + 1)
    }
}

fn find_odd(v: &Vec<u64>) -> (r: usize)
    ensures
        r == first_odd(v@, 0),
{
    let mut i: usize = 0;
    while i < v.len()
        invariant
            i <= v@.len(),
            first_odd(v@, 0) == first_odd(v@, i as nat),
        decreases v@.len() - i,
    {
        if v[i] == 0 || v[i] - 1 != i as u64 {
            return i;
        }
        i = i + 1;
    }
    i
}

/// The first place from `i` on where a number is not 1; their length where there is none.
pub open spec fn first_crowd(v: Seq<u64>, i: nat) -> nat
    decreases v.len() - i,
{
    if i >= v.len() {
        v.len()
    } else if v[i as int] != 1 {
        i
    } else {
        first_crowd(v, i + 1)
    }
}

fn find_crowd(v: &Vec<u64>) -> (r: usize)
    ensures
        r == first_crowd(v@, 0),
{
    let mut i: usize = 0;
    while i < v.len()
        invariant
            i <= v@.len(),
            first_crowd(v@, 0) == first_crowd(v@, i as nat),
        decreases v@.len() - i,
    {
        if v[i] != 1 {
            return i;
        }
        i = i + 1;
    }
    i
}

/// That a batch has another version than its place calls for; nothing where none has.
pub open spec fn odd_text(v: Seq<u64>) -> Seq<char> {
    let i = first_odd(v, 0);
    if i < v.len() {
        "batch "@ + decimal(i) + " version "@ + decimal(v[i as int] as nat) + " != "@ + decimal(
            i + 1,
        )
    } else {
        Seq::empty()
    }
}

/// Appends that a batch has another version than its place calls for.
fn push_odd(out: &mut String, v: &Vec<u64>)
    ensures
        final(out)@ == old(out)@ + odd_text(v@),
{
    let i: usize = find_odd(v);
    if i < v.len() {
        out.append("batch ");
        push_decimal(out, i as u128);
        out.append(" version ");
        push_decimal(out, v[i] as u128);
        out.append(" != ");
        push_decimal(out, i as u128 + 1);
    }
    assert(out@ =~= old(out)@ + odd_text(v@));
}

/// That a batch has not exactly one event; nothing where each has.
pub open spec fn crowd_text(v: Seq<u64>) -> Seq<char> {
    let i = first_crowd(v, 0);
    if i < v.len() {
        "batch "@ + decimal(i) + " has "@ + decimal(v[i as int] as nat) + " events"@
    } else {
        Seq::empty()
    }
}

/// Appends that a batch has not exactly one event.
fn push_crowd(out: &mut String, v: &Vec<u64>)
    ensures
        final(out)@ == old(out)@ + crowd_text(v@),
{
    let i: usize = find_crowd(v);
    if i < v.len() {
        out.append("batch ");
        push_decimal(out, i as u128);
        out.append(" has ");
        push_decimal(out, v[i] as u128);
        out.append(" events");
    }
    assert(out@ =~= old(out)@ + crowd_text(v@));
}

/// The versions under which values were read back.
pub open spec fn pair_versions(pairs: Seq<Pair>) -> Seq<u64> {
    Seq::new(pairs.len(), |i: int| pairs[i].version)
}

/// How many events there were under each of them.
pub open spec fn pair_sizes(pairs: Seq<Pair>) -> Seq<u64> {
    Seq::new(pairs.len(), |i: int| pairs[i].events)
}

/// The first place from `i` on where another value was read than was written.
pub open spec fn first_corrupt(pairs: Seq<Pair>, i: nat) -> nat
    decreases pairs.len() - i,
{
    if i >= pairs.len() {
        pairs.len()
    } else if pairs[i as int].read@ != pairs[i as int].written@ {
        i
    } else {
        first_corrupt(pairs, i + 1)
    }
}

/// What is wrong with values that were read back.
pub open spec fn pairs_fault(pairs: Seq<Pair>, n: u64) -> Seq<char> {
    let odd = first_odd(pair_versions(pairs), 0);
    let crowd = first_crowd(pair_sizes(pairs), 0);
    let corrupt = first_corrupt(pairs, 0);
    if pairs.len() != n {
        decimal(pairs.len()) + " batches read, expected "@ + decimal(n as nat)
    } else if odd < pairs.len() && odd <= crowd && odd <= corrupt {
        odd_text(pair_versions(pairs))
    } else if crowd < pairs.len() && crowd <= corrupt {
        crowd_text(pair_sizes(pairs)) + ", expected 1"@
    } else if corrupt < pairs.len() {
        "batch "@ + decimal(corrupt) + " payload corrupted (len "@ + decimal(
            pairs[corrupt as int].read@.len(),
        ) + " vs "@ + decimal(pairs[corrupt as int].written@.len()) + ")"@
    } else {
        Seq::empty()
    }
}

/// Appends what is wrong with values that were read back.
fn push_pairs_fault(out: &mut String, pairs: &Vec<Pair>, n: u64)
    ensures
        final(out)@ == old(out)@ + pairs_fault(pairs@, n),
{
    let mut versions: Vec<u64> = Vec::new();
    let mut sizes: Vec<u64> = Vec::new();
    for i in 0..pairs.len()
        invariant
            versions@.len() == i,
            sizes@.len() == i,
            forall|j: int| 0 <= j < i ==> versions@[j] == pairs@[j].version,
            forall|j: int| 0 <= j < i ==> sizes@[j] == pairs@[j].events,
    {
        versions.push(pairs[i].version);
        sizes.push(pairs[i].events);
    }
    assert(versions@ =~= pair_versions(pairs@));
    assert(sizes@ =~= pair_sizes(pairs@));
    let mut corrupt: usize = 0;
    while corrupt < pairs.len() && same_bytes(&pairs[corrupt].read, &pairs[corrupt].written)
        invariant
            corrupt <= pairs@.len(),
            first_corrupt(pairs@, 0) == first_corrupt(pairs@, corrupt as nat),
        decreases pairs@.len() - corrupt,
    {
        corrupt = corrupt + 1;
    }
    let odd: usize = find_odd(&versions);
    let crowd: usize = find_crowd(&sizes);
    if pairs.len() as u64 != n {
        push_decimal(out, pairs.len() as u128);
        out.append(" batches read, expected ");
        push_decimal(out, n as u128);
    } else if odd < pairs.len() && odd <= crowd && odd <= corrupt {
        push_odd(out, &versions);
    } else if crowd < pairs.len() && crowd <= corrupt {
        push_crowd(out, &sizes);
        out.append(", expected 1");
    } else if corrupt < pairs.len() {
        out.append("batch ");
        push_decimal(out, corrupt as u128);
        out.append(" payload corrupted (len ");
        push_decimal(out, pairs[corrupt].read.len() as u128);
        out.append(" vs ");
        push_decimal(out, pairs[corrupt].written.len() as u128);
        out.append(")");
    }
    assert(out@ =~= old(out)@ + pairs_fault(pairs@, n));
}

/// What is wrong with a stream whose values are tagged for one writer.
pub open spec fn tagged_fault(batches: Seq<Batch>, agg: u64, k: u64) -> Seq<char> {
    let start = "agg "@ + decimal(agg as nat) + ": "@;
    if batches.len() != k {
        start + decimal(batches.len()) + " batches, expected "@ + decimal(k as nat)
    } else if first_odd(versions_of(batches), 0) < batches.len() {
        start + odd_text(versions_of(batches)) + " (order broken)"@
    } else {
        start + "a payload is not its own (bleed or reorder)"@
    }
}

/// Appends what is wrong with a stream whose values are tagged for one writer.
fn push_tagged_fault(out: &mut String, batches: &Vec<Batch>, agg: u64, k: u64)
    ensures
        final(out)@ == old(out)@ + tagged_fault(batches@, agg, k),
{
    out.append("agg ");
    push_decimal(out, agg as u128);
    out.append(": ");
    let versions: Vec<u64> = get_versions(batches);
    if batches.len() as u64 != k {
        push_decimal(out, batches.len() as u128);
        out.append(" batches, expected ");
        push_decimal(out, k as u128);
    } else if find_odd(&versions) < batches.len() {
        push_odd(out, &versions);
        out.append(" (order broken)");
    } else {
        out.append("a payload is not its own (bleed or reorder)");
    }
    assert(out@ =~= old(out)@ + tagged_fault(batches@, agg, k));
}

/// The numbers of `v` in ascending order.
pub open spec fn in_order(v: Seq<u64>) -> Seq<u64> {
    choose|r: Seq<u64>| sorted_from(r, v)
}

proof fn lemma_in_order(r: Seq<u64>, v: Seq<u64>)
    requires
        sorted_from(r, v),
    ensures
        r == in_order(v),
{
    sorting_is_unique(r, in_order(v));
}

/// The segments among the names of a shard's files, in ascending order.
pub open spec fn wal_of(names: Seq<Seq<char>>) -> Seq<u64> {
    in_order(ids(names, ".wal"@))
}

/// The segments among the names of a shard's files that have a summary, in ascending order.
pub open spec fn summaries_of(names: Seq<Seq<char>>) -> Seq<u64> {
    in_order(ids(names, ".summary"@))
}

fn get_log_files(names: &Vec<String>) -> (r: (Vec<u64>, Vec<u64>))
    ensures
        r.0@ == wal_of(texts(names@)),
        r.1@ == summaries_of(texts(names@)),
{
    let r: (Vec<u64>, Vec<u64>) = scan_log_files(names);
    proof {
        lemma_in_order(r.0@, ids(texts(names@), ".wal"@));
        lemma_in_order(r.1@, ids(texts(names@), ".summary"@));
    }
    r
}

/// The segments of `wal` that are sealed and not among `summaries`.
fn get_missing(wal: &Vec<u64>, summaries: &Vec<u64>) -> (r: Vec<u64>)
    requires
        wal@.len() >= 2,
    ensures
        r@ == missing_summaries(wal@, summaries@),
{
    match assert_sealed_summaries(wal.as_slice(), summaries.as_slice()) {
        Err(SealedFault::Missing(v)) => v,
        _ => {
            let none: Vec<u64> = Vec::new();
            assert(none@ =~= missing_summaries(wal@, summaries@));
            none
        },
    }
}

/// What is wrong with the files of a shard whose sealed segments are to have summaries.
pub open spec fn sealed_fault(names: Seq<Seq<char>>) -> Seq<char> {
    let wal = wal_of(names);
    let summaries = summaries_of(names);
    if wal.len() < 2 {
        "expected ≥2 WAL segments (proving ≥1 rotation); got "@ + decimal(wal.len()) + " ("@
            + list_text(wal) + ")"@
    } else {
        "sealed segments missing .summary sidecar files: "@ + list_text(
            missing_summaries(wal, summaries),
        ) + " (sealed="@ + list_text(missing_summaries(wal, Seq::empty())) + ", summaries="@
            + list_text(summaries) + ")"@
    }
}

/// Appends what is wrong with the files of a shard.
fn push_sealed_fault(out: &mut String, names: &Vec<String>)
    ensures
        final(out)@ == old(out)@ + sealed_fault(texts(names@)),
{
    let (wal, summaries): (Vec<u64>, Vec<u64>) = get_log_files(names);
    if wal.len() < 2 {
        out.append("expected ≥2 WAL segments (proving ≥1 rotation); got ");
        push_decimal(out, wal.len() as u128);
        out.append(" (");
        push_list(out, &wal);
        out.append(")");
    } else {
        let none: Vec<u64> = Vec::new();
        assert(none@ =~= Seq::empty());
        out.append("sealed segments missing .summary sidecar files: ");
        push_list(out, &get_missing(&wal, &summaries));
        out.append(" (sealed=");
        push_list(out, &get_missing(&wal, &none));
        out.append(", summaries=");
        push_list(out, &summaries);
        out.append(")");
    }
    assert(out@ =~= old(out)@ + sealed_fault(texts(names@)));
}

/// What is wrong with a reply whose expectation asks for several things at once.
pub open spec fn fault_text(expect: Expect, reply: Reply) -> Seq<char> {
    match (expect, reply) {
        (Expect::Intact(n), Reply::Pairs(pairs)) => pairs_fault(pairs@, n),
        (Expect::Stream(StreamRule::Tagged(agg, k)), Reply::Batches(batches)) => tagged_fault(
            batches@,
            agg,
            k,
        ),
        (Expect::OneWinner(_, losers), Reply::Race(replies)) => stray_text(replies@, losers),
        (Expect::Summarised, Reply::LogFiles(names)) => sealed_fault(texts(names@)),
        _ => reply_text(reply),
    }
}

/// How the first racer came out that neither won nor came out as `losers`.
pub open spec fn stray_text(replies: Seq<Option<Refusal>>, losers: Outcome) -> Seq<char> {
    let i = first_stray(replies, losers, 0) as int;
    if i < replies.len() {
        match replies[i] {
            Some(refusal) => refusal_text(refusal),
            None => Seq::empty(),
        }
    } else {
        Seq::empty()
    }
}

/// Appends how the first racer came out that neither won nor came out as `losers`.
fn push_stray(out: &mut String, replies: &Vec<Option<Refusal>>, losers: Outcome)
    ensures
        final(out)@ == old(out)@ + stray_text(replies@, losers),
{
    let i: usize = find_stray(replies, losers);
    if i < replies.len() {
        match replies[i] {
            Some(refusal) => push_refusal(out, refusal),
            None => {},
        }
    }
    assert(out@ =~= old(out)@ + stray_text(replies@, losers));
}

/// Appends what is wrong with a reply.
fn push_fault(out: &mut String, expect: Expect, reply: &Reply)
    ensures
        final(out)@ == old(out)@ + fault_text(expect, *reply),
{
    match (expect, reply) {
        (Expect::Intact(n), Reply::Pairs(pairs)) => push_pairs_fault(out, pairs, n),
        (Expect::Stream(StreamRule::Tagged(agg, k)), Reply::Batches(batches)) => push_tagged_fault(
            out,
            batches,
            agg,
            k,
        ),
        (Expect::OneWinner(_, losers), Reply::Race(replies)) => push_stray(out, replies, losers),
        (Expect::Summarised, Reply::LogFiles(names)) => push_sealed_fault(out, names),
        _ => push_reply(out, reply),
    }
}

/// What a reply comes down to: its number, its address, how many things it holds.
pub open spec fn chief(reply: Reply) -> Seq<char> {
    match reply {
        Reply::Number(n) => decimal(n as nat),
        Reply::Poured(n) => decimal(n as nat),
        Reply::Batches(v) => decimal(v@.len()),
        Reply::Objects(v) => decimal(v@.len()),
        Reply::Ids(v) => decimal(v@.len()),
        Reply::LogFiles(names) => list_text(wal_of(texts(names@))),
        Reply::Redirected(address) => address@,
        Reply::Started(address) => address@,
        Reply::Followed(v) => list_text(v@),
        Reply::Details(version, _) => decimal(version as nat),
        Reply::Flag(b) => flag_text(b),
        Reply::Balance(n) => cents_text(n),
        _ => reply_text(reply),
    }
}

/// Appends what a reply comes down to.
pub fn push_chief(out: &mut String, reply: &Reply)
    ensures
        final(out)@ == old(out)@ + chief(*reply),
{
    match reply {
        Reply::Number(n) => push_decimal(out, *n as u128),
        Reply::Poured(n) => push_decimal(out, *n as u128),
        Reply::Batches(v) => push_decimal(out, v.len() as u128),
        Reply::Objects(v) => push_decimal(out, v.len() as u128),
        Reply::Ids(v) => push_decimal(out, v.len() as u128),
        Reply::LogFiles(names) => push_list(out, &get_log_files(names).0),
        Reply::Redirected(address) => out.append(address.as_str()),
        Reply::Started(address) => out.append(address.as_str()),
        Reply::Followed(v) => push_list(out, v),
        Reply::Details(version, _) => push_decimal(out, *version as u128),
        Reply::Flag(b) => push_flag(out, *b),
        Reply::Balance(n) => push_cents(out, *n),
        _ => push_reply(out, reply),
    }
}

/// The figure of a lease by this name.
pub open spec fn lease_text(name: Seq<char>, l: Lease) -> Seq<char> {
    if name == "index"@ {
        decimal(l.lease_index as nat)
    } else if name == "epoch"@ {
        decimal(l.lease_epoch as nat)
    } else if name == "node"@ {
        decimal(l.leader_node_id as nat)
    } else {
        decimal(l.expires_at_ms as nat)
    }
}

/// Appends the figure of a lease by this name.
fn push_lease(out: &mut String, name: &str, l: &Lease)
    ensures
        final(out)@ == old(out)@ + lease_text(name@, *l),
{
    if str_eq(name, "index") {
        push_decimal(out, l.lease_index as u128);
    } else if str_eq(name, "epoch") {
        push_decimal(out, l.lease_epoch as u128);
    } else if str_eq(name, "node") {
        push_decimal(out, l.leader_node_id);
    } else {
        push_decimal(out, l.expires_at_ms as u128);
    }
}

/// The address of the node that was found to lead.
pub open spec fn leader_address(memory: Memory) -> Seq<char> {
    let known = match memory.leader {
        Some(Node::A) => memory.address_a,
        Some(Node::B) => memory.address_b,
        None => None,
    };
    match known {
        Some(address) => address,
        None => Seq::empty(),
    }
}

/// The operation of the report that was waited for at this place.
pub open spec fn operation_text(memory: Memory, i: int) -> Seq<char> {
    if i < memory.operations.len() {
        decimal(memory.operations[i] as nat)
    } else {
        "?"@
    }
}

/// Appends the operation of the report that was waited for at this place.
fn push_operation(out: &mut String, registers: &Registers, i: usize)
    ensures
        final(out)@ == old(out)@ + operation_text(registers@, i as int),
{
    if i < registers.operations.len() {
        push_decimal(out, registers.operations[i] as u128);
    } else {
        out.append("?");
    }
}

/// The first value of the batch at this place; nothing where there is none.
pub open spec fn payload_text(batches: Seq<Batch>, i: int) -> Seq<char> {
    if 0 <= i < batches.len() && batches[i].events@.len() > 0 {
        lossily_read(batches[i].events@[0].value@)
    } else {
        Seq::empty()
    }
}

/// Appends the first value of the batch at this place.
fn push_payload(out: &mut String, batches: &Vec<Batch>, i: usize)
    ensures
        final(out)@ == old(out)@ + payload_text(batches@, i as int),
{
    if i < batches.len() {
        let b: &Batch = &batches[i];
        if b.events.len() > 0 {
            out.append(read_lossily(&b.events[0].value).as_str());
        }
    }
    assert(out@ =~= old(out)@ + payload_text(batches@, i as int));
}

/// What the figure of a batch list by this name says.
pub open spec fn stream_text(name: Seq<char>, batches: Seq<Batch>) -> Seq<char> {
    if name == "first_payload"@ {
        payload_text(batches, 0)
    } else if name == "last_payload"@ {
        payload_text(batches, batches.len() - 1)
    } else if name == "events"@ {
        decimal(event_total(batches))
    } else if name == "first"@ {
        option_text(
            if batches.len() > 0 {
                Some(batches[0].version)
            } else {
                None
            },
        )
    } else if name == "last"@ {
        option_text(
            if batches.len() > 0 {
                Some(batches.last().version)
            } else {
                None
            },
        )
    } else if name == "versions"@ {
        list_text(versions_of(batches))
    } else if name == "client_seqs"@ {
        list_text(seqs_of(batches))
    } else if name == "odd"@ {
        odd_text(versions_of(batches))
    } else {
        crowd_text(sizes_of(batches))
    }
}

/// Appends the figure of a batch list by this name.
fn push_stream(out: &mut String, name: &str, batches: &Vec<Batch>)
    ensures
        final(out)@ == old(out)@ + stream_text(name@, batches@),
{
    let n: usize = batches.len();
    if str_eq(name, "first_payload") {
        push_payload(out, batches, 0);
    } else if str_eq(name, "last_payload") {
        if n > 0 {
            push_payload(out, batches, n - 1);
        } else {
            assert(out@ =~= old(out)@ + stream_text(name@, batches@));
        }
    } else if str_eq(name, "events") {
        push_total(out, batches);
    } else if str_eq(name, "first") {
        if n > 0 {
            push_option(out, Some(batches[0].version));
        } else {
            push_option(out, None);
        }
    } else if str_eq(name, "last") {
        if n > 0 {
            push_option(out, Some(batches[n - 1].version));
        } else {
            push_option(out, None);
        }
    } else if str_eq(name, "versions") {
        push_list(out, &get_versions(batches));
    } else if str_eq(name, "client_seqs") {
        push_list(out, &get_seqs(batches));
    } else if str_eq(name, "odd") {
        push_odd(out, &get_versions(batches));
    } else {
        push_crowd(out, &get_sizes(batches));
    }
}

/// Whether a figure of this name is one of a batch list.
pub open spec fn of_stream(name: Seq<char>) -> bool {
    name == "first_payload"@ || name == "last_payload"@ || name == "events"@ || name == "first"@ || name == "last"@ || name == "versions"@ || name
        == "client_seqs"@ || name == "odd"@ || name == "crowd"@
}

fn is_of_stream(name: &str) -> (r: bool)
    ensures
        r == of_stream(name@),
{
    str_eq(name, "first_payload") || str_eq(name, "last_payload") || str_eq(name, "events")
        || str_eq(name, "first") || str_eq(name, "last") || str_eq(name, "versions") || str_eq(name, "client_seqs") || str_eq(name, "odd") || str_eq(name, "crowd")
}

/// Whether a figure of this name is one of a lease.
pub open spec fn of_lease(name: Seq<char>) -> bool {
    name == "index"@ || name == "epoch"@ || name == "node"@ || name == "expiry"@
}

fn is_of_lease(name: &str) -> (r: bool)
    ensures
        r == of_lease(name@),
{
    str_eq(name, "index") || str_eq(name, "epoch") || str_eq(name, "node") || str_eq(name, "expiry")
}

/// The figure by this name of a reply that stands alone. A reply that has no such figure is told as
/// a whole.
pub open spec fn own_figure(name: Seq<char>, reply: Reply) -> Seq<char> {
    match reply {
        Reply::Batches(batches) => if of_stream(name) {
            stream_text(name, batches@)
        } else {
            chief(reply)
        },
        Reply::Lease(l) => if of_lease(name) {
            lease_text(name, l)
        } else {
            chief(reply)
        },
        Reply::Fallback(b) => if name == "index"@ {
            decimal(b.lease_index as nat)
        } else {
            chief(reply)
        },
        Reply::Race(replies) => if name == "won"@ {
            decimal(tally(replies@, Outcome::Won))
        } else if name == "lost"@ {
            decimal(tally(replies@, Outcome::OccLost))
        } else if name == "deduped"@ {
            decimal(tally(replies@, Outcome::Deduped))
        } else {
            chief(reply)
        },
        Reply::Leaders(a, b) => if name == "a"@ {
            flag_text(a)
        } else if name == "b"@ {
            flag_text(b)
        } else {
            chief(reply)
        },
        Reply::Identity(given, own) => if name == "given"@ {
            match given {
                Some(id) => decimal(id as nat),
                None => "none"@,
            }
        } else if name == "own"@ {
            decimal(own as nat)
        } else {
            chief(reply)
        },
        Reply::Refused(refusal) => if name == "share"@ {
            "connect: "@ + refusal_text(refusal)
        } else {
            chief(reply)
        },
        Reply::Halted { writer, event, refusal } => if name == "n"@ {
            decimal(event as nat)
        } else if name == "writer"@ {
            decimal(writer as nat)
        } else if name == "share"@ {
            "agg "@ + decimal(writer as nat) + " seq "@ + decimal(event as nat) + ": "@
                + refusal_text(refusal)
        } else if name == "halt"@ {
            "write seq "@ + decimal(event as nat) + ": "@ + refusal_text(refusal)
        } else {
            chief(reply)
        },
        Reply::Number(n) => if name == "seconds"@ {
            hundredths(n)
        } else {
            chief(reply)
        },
        _ => chief(reply),
    }
}

/// Appends the figure by this name of a reply that stands alone.
fn push_own_figure(out: &mut String, name: &str, reply: &Reply)
    ensures
        final(out)@ == old(out)@ + own_figure(name@, *reply),
{
    match reply {
        Reply::Batches(batches) => if is_of_stream(name) {
            push_stream(out, name, batches);
        } else {
            push_chief(out, reply);
        },
        Reply::Lease(l) => if is_of_lease(name) {
            push_lease(out, name, l);
        } else {
            push_chief(out, reply);
        },
        Reply::Fallback(b) => if str_eq(name, "index") {
            push_decimal(out, b.lease_index as u128);
        } else {
            push_chief(out, reply);
        },
        Reply::Race(replies) => if str_eq(name, "won") {
            push_decimal(out, count_outcomes(replies, Outcome::Won) as u128);
        } else if str_eq(name, "lost") {
            push_decimal(out, count_outcomes(replies, Outcome::OccLost) as u128);
        } else if str_eq(name, "deduped") {
            push_decimal(out, count_outcomes(replies, Outcome::Deduped) as u128);
        } else {
            push_chief(out, reply);
        },
        Reply::Leaders(a, b) => if str_eq(name, "a") {
            push_flag(out, *a);
        } else if str_eq(name, "b") {
            push_flag(out, *b);
        } else {
            push_chief(out, reply);
        },
        Reply::Identity(given, own) => if str_eq(name, "given") {
            match given {
                Some(id) => push_decimal(out, *id),
                None => out.append("none"),
            }
        } else if str_eq(name, "own") {
            push_decimal(out, *own);
        } else {
            push_chief(out, reply);
        },
        Reply::Refused(refusal) => if str_eq(name, "share") {
            out.append("connect: ");
            push_refusal(out, *refusal);
            assert(out@ =~= old(out)@ + own_figure(name@, *reply));
        } else {
            push_chief(out, reply);
        },
        Reply::Halted { writer, event, refusal } => if str_eq(name, "n") {
            push_decimal(out, *event as u128);
        } else if str_eq(name, "writer") {
            push_decimal(out, *writer as u128);
        } else if str_eq(name, "share") {
            out.append("agg ");
            push_decimal(out, *writer as u128);
            out.append(" seq ");
            push_decimal(out, *event as u128);
            out.append(": ");
            push_refusal(out, *refusal);
            assert(out@ =~= old(out)@ + own_figure(name@, *reply));
        } else if str_eq(name, "halt") {
            out.append("write seq ");
            push_decimal(out, *event as u128);
            out.append(": ");
            push_refusal(out, *refusal);
            assert(out@ =~= old(out)@ + own_figure(name@, *reply));
        } else {
            push_chief(out, reply);
        },
        Reply::Number(n) => if str_eq(name, "seconds") {
            push_hundredths(out, *n);
        } else {
            push_chief(out, reply);
        },
        _ => push_chief(out, reply),
    }
}

/// How far an earlier reply lets this one go: one more than its number, or how often a lease changed
/// since it was read.
pub open spec fn earlier_figure(name: Seq<char>, reply: Reply, was: Reply) -> Seq<char> {
    match (was, reply) {
        (Reply::Number(n), _) => if name == "next"@ {
            decimal((n + 1) as nat)
        } else {
            chief(was)
        },
        (Reply::Poured(n), _) => if name == "next"@ {
            decimal((n + 1) as nat)
        } else {
            chief(was)
        },
        (Reply::Lease(l), Reply::Samples(samples)) => decimal(changes(l.acquired_at_ms, samples@)),
        (Reply::Lease(l), _) => if name == "was_index"@ {
            decimal(l.lease_index as nat)
        } else if name == "was_epoch"@ {
            decimal(l.lease_epoch as nat)
        } else if name == "was_node"@ {
            decimal(l.leader_node_id as nat)
        } else {
            decimal(l.expires_at_ms as nat)
        },
        _ => chief(was),
    }
}

/// Appends the figure that an earlier reply gives.
fn push_earlier_figure(out: &mut String, name: &str, reply: &Reply, was: &Reply)
    ensures
        final(out)@ == old(out)@ + earlier_figure(name@, *reply, *was),
{
    match (was, reply) {
        (Reply::Number(n), _) => if str_eq(name, "next") {
            push_decimal(out, *n as u128 + 1);
        } else {
            push_chief(out, was);
        },
        (Reply::Poured(n), _) => if str_eq(name, "next") {
            push_decimal(out, *n as u128 + 1);
        } else {
            push_chief(out, was);
        },
        (Reply::Lease(l), Reply::Samples(samples)) => {
            push_decimal(out, count_changes(l.acquired_at_ms, samples) as u128);
        },
        (Reply::Lease(l), _) => if str_eq(name, "was_index") {
            push_decimal(out, l.lease_index as u128);
        } else if str_eq(name, "was_epoch") {
            push_decimal(out, l.lease_epoch as u128);
        } else if str_eq(name, "was_node") {
            push_decimal(out, l.leader_node_id);
        } else {
            push_decimal(out, l.expires_at_ms as u128);
        },
        _ => push_chief(out, was),
    }
}

/// Whether a figure of this name is one of an earlier reply.
pub open spec fn of_earlier(name: Seq<char>) -> bool {
    name == "was"@ || name == "next"@ || name == "renewals"@ || name == "was_index"@ || name
        == "was_epoch"@ || name == "was_node"@ || name == "was_expiry"@
}

fn is_of_earlier(name: &str) -> (r: bool)
    ensures
        r == of_earlier(name@),
{
    str_eq(name, "was") || str_eq(name, "next") || str_eq(name, "renewals") || str_eq(
        name,
        "was_index",
    ) || str_eq(name, "was_epoch") || str_eq(name, "was_node") || str_eq(name, "was_expiry")
}

/// What a report names.
pub open spec fn notice_text(notice: Notice) -> Seq<char> {
    "organisation "@ + decimal(notice.org_id as nat) + ", type "@ + decimal(
        notice.aggregate_type_id as nat,
    ) + ", aggregate "@ + decimal(notice.aggregate_id as nat)
}

/// Appends what a report names.
fn push_notice(out: &mut String, notice: &Notice)
    ensures
        final(out)@ == old(out)@ + notice_text(*notice),
{
    out.append("organisation ");
    push_decimal(out, notice.org_id);
    out.append(", type ");
    push_decimal(out, notice.aggregate_type_id);
    out.append(", aggregate ");
    push_decimal(out, notice.aggregate_id);
    assert(out@ =~= old(out)@ + notice_text(*notice));
}

/// How far the index of a lease may have come since an earlier one.
pub open spec fn limit_text(expect: Expect, was: Option<Reply>) -> Seq<char> {
    match (expect, was) {
        (Expect::Lease(LeaseRule::IndexWithin(_, by)), Some(Reply::Lease(l))) => decimal(
            l.lease_index as nat + by as nat,
        ),
        _ => Seq::empty(),
    }
}

/// Appends how far the index of a lease may have come since an earlier one.
fn push_limit(out: &mut String, expect: Expect, was: Option<&Reply>)
    ensures
        final(out)@ == old(out)@ + limit_text(
            expect,
            match was {
                Some(w) => Some(*w),
                None => None,
            },
        ),
{
    match (expect, was) {
        (Expect::Lease(LeaseRule::IndexWithin(_, by)), Some(Reply::Lease(l))) => push_decimal(
            out,
            l.lease_index as u128 + by as u128,
        ),
        _ => {
            assert(out@ =~= old(out)@ + Seq::<char>::empty());
        },
    }
}

/// What stands in a message for the figure by this name.
pub open spec fn figure(
    name: Seq<char>,
    expect: Expect,
    reply: Reply,
    was: Option<Reply>,
    memory: Memory,
) -> Seq<char> {
    if name == "reply"@ {
        reply_text(reply)
    } else if name == "fault"@ {
        fault_text(expect, reply)
    } else if name == "leader"@ {
        leader_address(memory)
    } else if name == "reached"@ {
        option_text(
            match memory.last {
                Some(notice) => notice.to_aggregate_version,
                None => None,
            },
        )
    } else if name == "first_node"@ {
        match memory.address_a {
            Some(address) => address,
            None => Seq::empty(),
        }
    } else if name == "notice"@ {
        match memory.last {
            Some(notice) => notice_text(notice),
            None => Seq::empty(),
        }
    } else if name == "limit"@ {
        limit_text(expect, was)
    } else if name == "accepts"@ {
        accepts_text(reply)
    } else if name == "was_accepts"@ {
        match was {
            Some(w) => accepts_text(w),
            None => Seq::empty(),
        }
    } else if name == "first_operation"@ {
        operation_text(memory, 0)
    } else if name == "second_operation"@ {
        operation_text(memory, 1)
    } else if name == "third_operation"@ {
        operation_text(memory, 2)
    } else if of_earlier(name) {
        match was {
            Some(w) => earlier_figure(name, reply, w),
            None => Seq::empty(),
        }
    } else {
        own_figure(name, reply)
    }
}

/// Appends what stands in a message for the figure by this name.
fn push_figure(
    out: &mut String,
    name: &str,
    expect: Expect,
    reply: &Reply,
    was: Option<&Reply>,
    registers: &Registers,
)
    ensures
        final(out)@ == old(out)@ + figure(
            name@,
            expect,
            *reply,
            match was {
                Some(w) => Some(*w),
                None => None,
            },
            registers@,
        ),
{
    let ghost start = out@;
    if str_eq(name, "reply") {
        push_reply(out, reply);
    } else if str_eq(name, "fault") {
        push_fault(out, expect, reply);
    } else if str_eq(name, "leader") {
        let known: &Option<String> = match registers.leader {
            Some(Node::A) => &registers.address_a,
            Some(Node::B) => &registers.address_b,
            None => &None,
        };
        match known {
            Some(address) => out.append(address.as_str()),
            None => {},
        }
        assert(out@ =~= start + leader_address(registers@));
    } else if str_eq(name, "reached") {
        push_option(
            out,
            match &registers.last {
                Some(notice) => notice.to_aggregate_version,
                None => None,
            },
        );
    } else if str_eq(name, "first_node") {
        match &registers.address_a {
            Some(address) => out.append(address.as_str()),
            None => {
                assert(out@ =~= start + Seq::<char>::empty());
            },
        }
    } else if str_eq(name, "notice") {
        match &registers.last {
            Some(notice) => push_notice(out, notice),
            None => {
                assert(out@ =~= start + Seq::<char>::empty());
            },
        }
    } else if str_eq(name, "limit") {
        push_limit(out, expect, was);
    } else if str_eq(name, "accepts") {
        push_accepts(out, reply);
    } else if str_eq(name, "was_accepts") {
        match was {
            Some(w) => push_accepts(out, w),
            None => {
                assert(out@ =~= start + Seq::<char>::empty());
            },
        }
    } else if str_eq(name, "first_operation") {
        push_operation(out, registers, 0);
    } else if str_eq(name, "second_operation") {
        push_operation(out, registers, 1);
    } else if str_eq(name, "third_operation") {
        push_operation(out, registers, 2);
    } else if is_of_earlier(name) {
        match was {
            Some(w) => push_earlier_figure(out, name, reply, w),
            None => {
                assert(out@ =~= start + Seq::<char>::empty());
            },
        }
    } else {
        push_own_figure(out, name, reply);
    }
}

/// What a piece of a message behind an opening bracket says: the figure that is named there, and
/// what follows the closing bracket.
pub open spec fn piece_text(
    piece: Seq<char>,
    expect: Expect,
    reply: Reply,
    was: Option<Reply>,
    memory: Memory,
) -> Seq<char> {
    let parts = split_on(piece, '}');
    if parts.len() == 2 {
        figure(parts[0], expect, reply, was, memory) + parts[1]
    } else {
        piece
    }
}

/// What the pieces of a message behind its opening brackets say.
pub open spec fn pieces_text(
    pieces: Seq<Seq<char>>,
    expect: Expect,
    reply: Reply,
    was: Option<Reply>,
    memory: Memory,
) -> Seq<char>
    decreases pieces.len(),
{
    if pieces.len() == 0 {
        Seq::empty()
    } else {
        pieces_text(pieces.drop_last(), expect, reply, was, memory) + piece_text(
            pieces.last(),
            expect,
            reply,
            was,
            memory,
        )
    }
}

/// A message with the figures that it names.
pub open spec fn filled(
    message: Seq<char>,
    expect: Expect,
    reply: Reply,
    was: Option<Reply>,
    memory: Memory,
) -> Seq<char> {
    let pieces = split_on(message, '{');
    pieces[0] + pieces_text(pieces.skip(1), expect, reply, was, memory)
}

/// Appends a message with the figures that it names.
pub fn push_filled(
    out: &mut String,
    message: &str,
    expect: Expect,
    reply: &Reply,
    was: Option<&Reply>,
    registers: &Registers,
)
    ensures
        final(out)@ == old(out)@ + filled(
            message@,
            expect,
            *reply,
            match was {
                Some(w) => Some(*w),
                None => None,
            },
            registers@,
        ),
{
    let pieces: Vec<&str> = split(message, '{');
    let ghost start = out@;
    let ghost before = match was {
        Some(w) => Some(*w),
        None => None,
    };
    let ghost told = views(pieces@).skip(1);
    let ghost memory = registers@;
    proof {
        crate::text::lemma_split_some(message@, '{');
        assert(pieces@[0]@ == views(pieces@)[0]);
    }
    out.append(pieces[0]);
    assert(told.take(0) =~= Seq::empty());
    assert(pieces_text(told.take(0), expect, *reply, before, memory) =~= Seq::empty());
    for i in 1..pieces.len()
        invariant
            views(pieces@) == split_on(message@, '{'),
            told == views(pieces@).skip(1),
            pieces@.len() >= 1,
            memory == registers@,
            before == match was {
                Some(w) => Some(*w),
                None => None,
            },
            out@ == start + pieces@[0]@ + pieces_text(
                told.take(i - 1),
                expect,
                *reply,
                before,
                memory,
            ),
    {
        let ghost sofar = out@;
        let parts: Vec<&str> = split(pieces[i], '}');
        assert(views(parts@).len() == parts@.len());
        if parts.len() == 2 {
            assert(views(parts@)[0] == parts@[0]@);
            assert(views(parts@)[1] == parts@[1]@);
            push_figure(out, parts[0], expect, reply, was, registers);
            out.append(parts[1]);
        } else {
            out.append(pieces[i]);
        }
        assert(told[i - 1] == pieces@[i as int]@);
        assert(told.take(i as int).drop_last() =~= told.take(i - 1));
        assert(told.take(i as int).last() == pieces@[i as int]@);
        assert(out@ =~= sofar + piece_text(pieces@[i as int]@, expect, *reply, before, memory));
        assert(out@ =~= start + pieces@[0]@ + pieces_text(
            told.take(i as int),
            expect,
            *reply,
            before,
            memory,
        ));
    }
    assert(told.take(told.len() as int) =~= told);
    assert(out@ =~= start + filled(message@, expect, *reply, before, memory));
}

/// Whether a node took a write.
pub open spec fn accepts_text(reply: Reply) -> Seq<char> {
    match reply {
        Reply::Flag(b) => flag_text(b),
        _ => flag_text(!turned_down(reply)),
    }
}

/// Appends whether a node took a write.
fn push_accepts(out: &mut String, reply: &Reply)
    ensures
        final(out)@ == old(out)@ + accepts_text(*reply),
{
    match reply {
        Reply::Flag(b) => push_flag(out, *b),
        _ => push_flag(out, !is_turned_down(reply)),
    }
}

/// What was found where two values are held against each other.
pub open spec fn left_side(expect: Expect, reply: Reply, was: Option<Reply>) -> Seq<char> {
    match (expect, reply) {
        (Expect::Lease(rule), Reply::Lease(l)) => match rule {
            LeaseRule::IndexIs(_) | LeaseRule::IndexAfter(_) | LeaseRule::IndexSame(_) => decimal(
                l.lease_index as nat,
            ),
            LeaseRule::EpochSame(_) => decimal(l.lease_epoch as nat),
            _ => decimal(l.leader_node_id as nat),
        },
        (Expect::Fallback(rule), Reply::Fallback(b)) => match rule {
            FallbackRule::Shard(_) => decimal(b.shard_id as nat),
            FallbackRule::TermOf(_) => decimal(b.lease_index as nat),
            _ => decimal(b.fallback_index as nat),
        },
        (Expect::FlagOther(_), _) => match was {
            Some(w) => accepts_text(w),
            None => Seq::empty(),
        },
        _ => chief(reply),
    }
}

/// Appends what was found where two values are held against each other.
fn push_left(out: &mut String, expect: Expect, reply: &Reply, was: Option<&Reply>)
    ensures
        final(out)@ == old(out)@ + left_side(
            expect,
            *reply,
            match was {
                Some(w) => Some(*w),
                None => None,
            },
        ),
{
    match (expect, reply) {
        (Expect::Lease(rule), Reply::Lease(l)) => match rule {
            LeaseRule::IndexIs(_) | LeaseRule::IndexAfter(_) | LeaseRule::IndexSame(_) => {
                push_decimal(out, l.lease_index as u128)
            },
            LeaseRule::EpochSame(_) => push_decimal(out, l.lease_epoch as u128),
            _ => push_decimal(out, l.leader_node_id),
        },
        (Expect::Fallback(rule), Reply::Fallback(b)) => match rule {
            FallbackRule::Shard(_) => push_decimal(out, b.shard_id as u128),
            FallbackRule::TermOf(_) => push_decimal(out, b.lease_index as u128),
            _ => push_decimal(out, b.fallback_index as u128),
        },
        (Expect::FlagOther(_), _) => match was {
            Some(w) => push_accepts(out, w),
            None => {
                assert(out@ =~= old(out)@ + Seq::<char>::empty());
            },
        },
        _ => push_chief(out, reply),
    }
}

/// What an earlier reply gives to hold a reply against, under an expectation.
pub open spec fn earlier_side(expect: Expect, was: Reply) -> Seq<char> {
    match (expect, was) {
        (Expect::Number(NumberRule::Plus(_, more)), Reply::Number(n)) => decimal(
            n as nat + more as nat,
        ),
        (Expect::Lease(rule), Reply::Lease(l)) => match rule {
            LeaseRule::IndexAfter(_) => decimal(l.lease_index as nat + 1),
            LeaseRule::IndexSame(_) => decimal(l.lease_index as nat),
            LeaseRule::EpochSame(_) => decimal(l.lease_epoch as nat),
            _ => decimal(l.leader_node_id as nat),
        },
        (Expect::Fallback(_), Reply::Lease(l)) => decimal(l.lease_index as nat),
        _ => chief(was),
    }
}

/// Appends what an earlier reply gives to hold a reply against.
fn push_earlier_side(out: &mut String, expect: Expect, was: &Reply)
    ensures
        final(out)@ == old(out)@ + earlier_side(expect, *was),
{
    match (expect, was) {
        (Expect::Number(NumberRule::Plus(_, more)), Reply::Number(n)) => push_decimal(
            out,
            *n as u128 + more as u128,
        ),
        (Expect::Lease(rule), Reply::Lease(l)) => match rule {
            LeaseRule::IndexAfter(_) => push_decimal(out, l.lease_index as u128 + 1),
            LeaseRule::IndexSame(_) => push_decimal(out, l.lease_index as u128),
            LeaseRule::EpochSame(_) => push_decimal(out, l.lease_epoch as u128),
            _ => push_decimal(out, l.leader_node_id),
        },
        (Expect::Fallback(_), Reply::Lease(l)) => push_decimal(out, l.lease_index as u128),
        _ => push_chief(out, was),
    }
}

/// What it was held against.
pub open spec fn right_side(expect: Expect, reply: Reply, was: Option<Reply>) -> Seq<char> {
    match (expect, reply) {
        (Expect::Number(NumberRule::Is(n)), _) => decimal(n as nat),
        (Expect::Lease(LeaseRule::IndexIs(n)), _) => decimal(n as nat),
        (Expect::Lease(LeaseRule::LeaderSet), _) => decimal(0),
        (Expect::Fallback(FallbackRule::Shard(n)), _) => decimal(n as nat),
        (Expect::Fallback(FallbackRule::IndexOfFirst), Reply::Fallback(b)) => decimal(
            b.first_wal_index as nat,
        ),
        (Expect::Balance(n), _) => cents_text(n),
        (Expect::FlagOther(_), _) => accepts_text(reply),
        _ => match was {
            Some(w) => earlier_side(expect, w),
            None => Seq::empty(),
        },
    }
}

/// Appends what it was held against.
fn push_right(out: &mut String, expect: Expect, reply: &Reply, was: Option<&Reply>)
    ensures
        final(out)@ == old(out)@ + right_side(
            expect,
            *reply,
            match was {
                Some(w) => Some(*w),
                None => None,
            },
        ),
{
    match (expect, reply) {
        (Expect::Number(NumberRule::Is(n)), _) => push_decimal(out, n as u128),
        (Expect::Lease(LeaseRule::IndexIs(n)), _) => push_decimal(out, n as u128),
        (Expect::Lease(LeaseRule::LeaderSet), _) => push_decimal(out, 0),
        (Expect::Fallback(FallbackRule::Shard(n)), _) => push_decimal(out, n as u128),
        (Expect::Fallback(FallbackRule::IndexOfFirst), Reply::Fallback(b)) => push_decimal(
            out,
            b.first_wal_index as u128,
        ),
        (Expect::Balance(n), _) => push_cents(out, n),
        (Expect::FlagOther(_), _) => push_accepts(out, reply),
        _ => match was {
            Some(w) => push_earlier_side(out, expect, w),
            None => {
                assert(out@ =~= old(out)@ + Seq::<char>::empty());
            },
        },
    }
}

/// A message with the two values that were held against each other.
pub open spec fn two_sided(
    start: Seq<char>,
    message: Seq<char>,
    left: Seq<char>,
    right: Seq<char>,
) -> Seq<char> {
    start + message + "\n  left: "@ + left + "\n right: "@ + right
}

/// Appends a message with the figures that it names and the two values that were held against each
/// other.
pub fn push_two_sided(
    out: &mut String,
    start: &str,
    message: &str,
    expect: Expect,
    reply: &Reply,
    was: Option<&Reply>,
    registers: &Registers,
)
    ensures
        final(out)@ == old(out)@ + ({
            let before = match was {
                Some(w) => Some(*w),
                None => None,
            };
            two_sided(
                start@,
                filled(message@, expect, *reply, before, registers@),
                left_side(expect, *reply, before),
                right_side(expect, *reply, before),
            )
        }),
{
    let ghost begun = out@;
    let ghost before = match was {
        Some(w) => Some(*w),
        None => None,
    };
    out.append(start);
    push_filled(out, message, expect, reply, was, registers);
    out.append("\n  left: ");
    push_left(out, expect, reply, was);
    out.append("\n right: ");
    push_right(out, expect, reply, was);
    assert(out@ =~= begun + two_sided(
        start@,
        filled(message@, expect, *reply, before, registers@),
        left_side(expect, *reply, before),
        right_side(expect, *reply, before),
    ));
}

/// A time is told by the hundredth of a second that is nearest to it, the later one where two are as near.
pub proof fn times_are_told_to_the_nearest_hundredth(ms: u64, seconds: nat, rest: nat)
    requires
        rest < 100,
        -5 <= ms - (1000 * seconds + 10 * rest) < 5,
    ensures
        hundredths(ms) == decimal(seconds) + "."@ + padded(rest, 2) + "s"@,
{
    let n = (ms + 5) / 10;
    assert(n == 100 * seconds + rest);
    assert(n / 100 == seconds && n % 100 == rest);
}

} // verus!
