//! What is said of a reply that did not meet its expectation.

use crate::model::Refusal;
use crate::reply::Reply;
use crate::text::{decimal, push_decimal};
use vstd::prelude::*;

verus! {

/// `true` or `false`.
pub open spec fn flag_text(b: bool) -> Seq<char> {
    if b {
        "true"@
    } else {
        "false"@
    }
}

/// A number of cents, with its sign.
pub open spec fn cents_text(n: i64) -> Seq<char> {
    if n < 0 {
        "-"@ + decimal((-n) as nat)
    } else {
        decimal(n as nat)
    }
}

/// Why something was turned down.
pub open spec fn refusal_text(refusal: Refusal) -> Seq<char> {
    match refusal {
        Refusal::Coded(code) => "turned down with error "@ + decimal(code as nat),
        Refusal::NotLeader => "turned down by a node that does not lead"@,
        Refusal::TimedOut => "nothing came back in time"@,
        Refusal::Unreachable => "no connection"@,
        Refusal::OutOfStep => "an answer is still due on the connection"@,
        Refusal::Other => "turned down"@,
    }
}

/// A count of things.
pub open spec fn count_text(n: nat, things: Seq<char>) -> Seq<char> {
    "got "@ + decimal(n) + things
}

/// What a reply says.
pub open spec fn reply_text(reply: Reply) -> Seq<char> {
    match reply {
        Reply::Done => "it was done"@,
        Reply::Refused(refusal) => refusal_text(refusal),
        Reply::Halted { writer: _, event: _, refusal } => refusal_text(refusal),
        Reply::Redirected(address) => "pointed at "@ + address@,
        Reply::Started(address) => "started at "@ + address@,
        Reply::Number(n) => "got "@ + decimal(n as nat),
        Reply::Counts(a, b) => "got "@ + decimal(a as nat) + " and "@ + decimal(b as nat),
        Reply::Samples(v) => count_text(v@.len(), " samples"@),
        Reply::Flag(b) => "got "@ + flag_text(b),
        Reply::Leaders(a, b) => "node A accepts writes: "@ + flag_text(a)
            + ", node B accepts writes: "@ + flag_text(b),
        Reply::Batches(v) => count_text(v@.len(), " batches"@),
        Reply::Pairs(v) => count_text(v@.len(), " values"@),
        Reply::Lease(l) => "got lease index "@ + decimal(l.lease_index as nat) + ", epoch "@
            + decimal(l.lease_epoch as nat) + ", node "@ + decimal(l.leader_node_id as nat),
        Reply::Objects(v) => count_text(v@.len(), " objects"@),
        Reply::Segments(v) => count_text(v@.len(), " shards"@),
        Reply::LogFiles(v) => count_text(v@.len(), " files"@),
        Reply::Contents(v) => count_text(v@.len(), " objects"@),
        Reply::Fallback(b) => "got index "@ + decimal(b.fallback_index as nat) + " of shard "@
            + decimal(b.shard_id as nat) + " with "@ + decimal(b.items as nat) + " entries"@,
        Reply::Race(v) => count_text(v@.len(), " answers"@),
        Reply::Notices(v) => count_text(v@.len(), " reports"@),
        Reply::Followed(v) => count_text(v@.len(), " versions"@),
        Reply::Identity(given, own) => match given {
            Some(id) => "known as "@ + decimal(id as nat) + " instead of "@ + decimal(own as nat),
            None => "not known, instead of as "@ + decimal(own as nat),
        },
        Reply::Poured(n) => count_text(n as nat, " acknowledged"@),
        Reply::Ids(v) => count_text(v@.len(), " listed"@),
        Reply::Details(version, deleted) => "got version "@ + decimal(version as nat)
            + ", deleted: "@ + flag_text(deleted),
        Reply::Balance(n) => "got a balance of "@ + cents_text(n),
        Reply::Balances(m, n) => "got balances of "@ + cents_text(m) + " and "@ + cents_text(n),
        Reply::ShortOfFunds(n) => "the account holds only "@ + cents_text(n),
    }
}

pub fn push_flag(out: &mut String, b: bool)
    ensures
        final(out)@ == old(out)@ + flag_text(b),
{
    if b {
        out.append("true");
    } else {
        out.append("false");
    }
}

pub fn push_cents(out: &mut String, n: i64)
    ensures
        final(out)@ == old(out)@ + cents_text(n),
{
    if n < 0 {
        let size: i128 = -(n as i128);
        out.append("-");
        push_decimal(out, size as u128);
        assert(out@ =~= old(out)@ + cents_text(n));
    } else {
        push_decimal(out, n as u128);
    }
}

pub fn push_refusal(out: &mut String, refusal: Refusal)
    ensures
        final(out)@ == old(out)@ + refusal_text(refusal),
{
    match refusal {
        Refusal::Coded(code) => {
            out.append("turned down with error ");
            push_decimal(out, code as u128);
        },
        Refusal::NotLeader => out.append("turned down by a node that does not lead"),
        Refusal::TimedOut => out.append("nothing came back in time"),
        Refusal::Unreachable => out.append("no connection"),
        Refusal::OutOfStep => out.append("an answer is still due on the connection"),
        Refusal::Other => out.append("turned down"),
    }
    assert(out@ =~= old(out)@ + refusal_text(refusal));
}

fn push_count(out: &mut String, n: u128, things: &str)
    ensures
        final(out)@ == old(out)@ + count_text(n as nat, things@),
{
    out.append("got ");
    push_decimal(out, n);
    out.append(things);
    assert(out@ =~= old(out)@ + count_text(n as nat, things@));
}

/// Appends what a reply says.
pub fn push_reply(out: &mut String, reply: &Reply)
    ensures
        final(out)@ == old(out)@ + reply_text(*reply),
{
    match reply {
        Reply::Done => out.append("it was done"),
        Reply::Refused(refusal) => push_refusal(out, *refusal),
        Reply::Halted { writer: _, event: _, refusal } => push_refusal(out, *refusal),
        Reply::Redirected(address) => {
            out.append("pointed at ");
            out.append(address.as_str());
        },
        Reply::Started(address) => {
            out.append("started at ");
            out.append(address.as_str());
        },
        Reply::Number(n) => {
            out.append("got ");
            push_decimal(out, *n as u128);
        },
        Reply::Counts(a, b) => {
            out.append("got ");
            push_decimal(out, *a as u128);
            out.append(" and ");
            push_decimal(out, *b as u128);
        },
        Reply::Samples(v) => push_count(out, v.len() as u128, " samples"),
        Reply::Flag(b) => {
            out.append("got ");
            push_flag(out, *b);
        },
        Reply::Leaders(a, b) => {
            out.append("node A accepts writes: ");
            push_flag(out, *a);
            out.append(", node B accepts writes: ");
            push_flag(out, *b);
        },
        Reply::Batches(v) => push_count(out, v.len() as u128, " batches"),
        Reply::Pairs(v) => push_count(out, v.len() as u128, " values"),
        Reply::Lease(l) => {
            out.append("got lease index ");
            push_decimal(out, l.lease_index as u128);
            out.append(", epoch ");
            push_decimal(out, l.lease_epoch as u128);
            out.append(", node ");
            push_decimal(out, l.leader_node_id);
        },
        Reply::Objects(v) => push_count(out, v.len() as u128, " objects"),
        Reply::Segments(v) => push_count(out, v.len() as u128, " shards"),
        Reply::LogFiles(v) => push_count(out, v.len() as u128, " files"),
        Reply::Contents(v) => push_count(out, v.len() as u128, " objects"),
        Reply::Fallback(b) => {
            out.append("got index ");
            push_decimal(out, b.fallback_index as u128);
            out.append(" of shard ");
            push_decimal(out, b.shard_id as u128);
            out.append(" with ");
            push_decimal(out, b.items as u128);
            out.append(" entries");
        },
        Reply::Race(v) => push_count(out, v.len() as u128, " answers"),
        Reply::Notices(v) => push_count(out, v.len() as u128, " reports"),
        Reply::Followed(v) => push_count(out, v.len() as u128, " versions"),
        Reply::Identity(given, own) => match given {
            Some(id) => {
                out.append("known as ");
                push_decimal(out, *id);
                out.append(" instead of ");
                push_decimal(out, *own);
            },
            None => {
                out.append("not known, instead of as ");
                push_decimal(out, *own);
            },
        },
        Reply::Poured(n) => push_count(out, *n as u128, " acknowledged"),
        Reply::Ids(v) => push_count(out, v.len() as u128, " listed"),
        Reply::Details(version, deleted) => {
            out.append("got version ");
            push_decimal(out, *version as u128);
            out.append(", deleted: ");
            push_flag(out, *deleted);
        },
        Reply::Balance(n) => {
            out.append("got a balance of ");
            push_cents(out, *n);
        },
        Reply::Balances(m, n) => {
            out.append("got balances of ");
            push_cents(out, *m);
            out.append(" and ");
            push_cents(out, *n);
        },
        Reply::ShortOfFunds(n) => {
            out.append("the account holds only ");
            push_cents(out, *n);
        },
    }
    assert(out@ =~= old(out)@ + reply_text(*reply));
}

/// Whether there is nothing in a text.
pub fn is_blank(s: &str) -> (r: bool)
    ensures
        r == (s@.len() == 0),
{
    s.unicode_len() == 0
}

/// What is owed is told as what is held, with a sign in front.
pub proof fn debts_are_told_with_a_sign(n: i64)
    requires
        n > 0,
    ensures
        cents_text((0 - n) as i64) == "-"@ + cents_text(n),
        cents_text(n) == decimal(n as nat),
        cents_text(0) == decimal(0),
{
}

} // verus!
