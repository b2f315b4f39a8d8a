//! What a reply has to be like to meet an expectation, told by what the reply holds: its bytes,
//! numbers, codes and places.

use crate::expect::{
    DetailsRule, Expect, FallbackRule, Judgement, LeaseRule, ListingRule, Memory, NoticeRule,
    NumberRule, StreamRule, group_judgement, judgement, turned_down,
};
use crate::model::{Outcome, Refusal};
use crate::reply::{Batch, Lease, Notice, Pair, Reply, changes, tally};
use vstd::prelude::*;

verus! {

/// Whether a reply meets an expectation, after these replies.
pub open spec fn meets(expect: Expect, history: Seq<Reply>, memory: Memory, reply: Reply) -> bool {
    judgement(expect, history, memory, reply) == Judgement::Met
}

/// A stream that counts as the one an earlier step read has the same versions, and under each of
/// them as many events, each with the same number, the same minor version and the same bytes.
pub proof fn a_stream_read_again_is_the_same(
    at: usize,
    history: Seq<Reply>,
    memory: Memory,
    a: Vec<Batch>,
    b: Vec<Batch>,
    i: int,
    k: int,
    p: int,
)
    requires
        at < history.len(),
        history[at as int] == Reply::Batches(a),
        meets(Expect::Stream(StreamRule::SameAs(at)), history, memory, Reply::Batches(b)),
    ensures
        a@.len() == b@.len(),
        0 <= i < a@.len() ==> a@[i].version == b@[i].version && a@[i].events@.len()
            == b@[i].events@.len() && a@[i].events@.len() > 0,
        0 <= i < a@.len() && 0 <= k < a@[i].events@.len() ==> a@[i].events@[k].client_seq
            == b@[i].events@[k].client_seq && a@[i].events@[k].event_type_minor
            == b@[i].events@[k].event_type_minor && a@[i].events@[k].value@.len()
            == b@[i].events@[k].value@.len(),
        0 <= i < a@.len() && 0 <= k < a@[i].events@.len() && 0 <= p
            < a@[i].events@[k].value@.len() ==> a@[i].events@[k].value@[p]
            == b@[i].events@[k].value@[p],
{
    broadcast use group_judgement;

    if 0 <= i < a@.len() {
        assert(a@[i].version == b@[i].version);
        if 0 <= k < a@[i].events@.len() {
            assert(a@[i].events@[k].client_seq == b@[i].events@[k].client_seq);
        }
    }
}

/// A stream that comes back as it was is taken as the same.
pub proof fn an_unaltered_stream_is_the_same(
    at: usize,
    history: Seq<Reply>,
    memory: Memory,
    a: Vec<Batch>,
    b: Vec<Batch>,
)
    requires
        at < history.len(),
        history[at as int] == Reply::Batches(a),
        a@ == b@,
        forall|i: int| 0 <= i < a@.len() ==> (#[trigger] a@[i]).events@.len() > 0,
    ensures
        meets(Expect::Stream(StreamRule::SameAs(at)), history, memory, Reply::Batches(b)),
{
    broadcast use group_judgement;

}

/// Values that count as intact are so many, in the order of their versions, one event each, and
/// every byte that was read is the one that was written.
pub proof fn intact_values_are_what_was_written(
    n: u64,
    history: Seq<Reply>,
    memory: Memory,
    pairs: Vec<Pair>,
    i: int,
    p: int,
)
    requires
        meets(Expect::Intact(n), history, memory, Reply::Pairs(pairs)),
    ensures
        pairs@.len() == n,
        0 <= i < pairs@.len() ==> pairs@[i].version == i + 1 && pairs@[i].events == 1
            && pairs@[i].read@.len() == pairs@[i].written@.len(),
        0 <= i < pairs@.len() && 0 <= p < pairs@[i].written@.len() ==> pairs@[i].read@[p]
            == pairs@[i].written@[p],
{
    broadcast use group_judgement;

    if 0 <= i < pairs@.len() {
        assert(pairs@[i].version == i + 1);
    }
}

/// A stream that counts as that of one writer alone has the batches 1 to `k`, and every event of
/// batch `i` spells that writer's number and `i`, byte for byte.
pub proof fn a_tagged_stream_spells_its_tags(
    agg: u64,
    k: u64,
    history: Seq<Reply>,
    memory: Memory,
    batches: Vec<Batch>,
    i: int,
    e: int,
    p: int,
)
    requires
        meets(Expect::Stream(StreamRule::Tagged(agg, k)), history, memory, Reply::Batches(batches)),
    ensures
        batches@.len() == k,
        0 <= i < batches@.len() ==> batches@[i].version == i + 1 && batches@[i].events@.len() > 0,
        0 <= i < batches@.len() && 0 <= e < batches@[i].events@.len() ==> ({
            let text = "{\"agg\":"@ + crate::text::decimal(agg as nat) + ",\"seq\":"@
                + crate::text::decimal((i + 1) as nat) + "}"@;
            let value = batches@[i].events@[e].value@;
            &&& value.len() == text.len()
            &&& 0 <= p < value.len() ==> value[p] as int == text[p] as int
        }),
{
    broadcast use group_judgement;

    if 0 <= i < batches@.len() {
        assert(batches@[i].version == i + 1);
        let tag = crate::expect::tag(agg, (i + 1) as nat);
        assert(tag =~= "{\"agg\":"@ + crate::text::decimal(agg as nat) + ",\"seq\":"@
            + crate::text::decimal((i + 1) as nat) + "}"@);
        if 0 <= e < batches@[i].events@.len() {
            assert(crate::expect::spells(batches@[i].events@[e].value@, tag));
            if 0 <= p < tag.len() {
                assert(batches@[i].events@[e].value@[p] as int == tag[p] as int);
            }
        }
    }
}

/// Objects that count as untouched are so many, and each of them is the text that they were seeded
/// with, byte for byte.
pub proof fn untouched_objects_hold_their_text(
    n: u64,
    text: &'static str,
    history: Seq<Reply>,
    memory: Memory,
    contents: Vec<Vec<u8>>,
    i: int,
    p: int,
)
    requires
        meets(Expect::Untouched(n, text), history, memory, Reply::Contents(contents)),
    ensures
        contents@.len() == n,
        0 <= i < contents@.len() ==> contents@[i]@.len() == text@.len(),
        0 <= i < contents@.len() && 0 <= p < text@.len() ==> contents@[i]@[p] as int
            == text@[p] as int,
{
    broadcast use group_judgement;

    if 0 <= i < contents@.len() {
        assert(crate::expect::spells(contents@[i]@, text@));
        if 0 <= p < text@.len() {
            assert(contents@[i]@[p] as int == text@[p] as int);
        }
    }
}

/// A stream whose first or last value has to hold a text has a value there in which that text
/// stands, byte after byte; and one in which it stands is enough.
pub proof fn a_text_is_found_where_it_stands(
    text: &'static str,
    history: Seq<Reply>,
    memory: Memory,
    batches: Vec<Batch>,
)
    requires
        batches@.len() > 0,
        batches@.first().events@.len() > 0,
        batches@.last().events@.len() > 0,
    ensures
        meets(Expect::Stream(StreamRule::FirstHolds(text)), history, memory, Reply::Batches(batches))
            <==> stands_in(text@, batches@.first().events@[0].value@),
        meets(Expect::Stream(StreamRule::LastHolds(text)), history, memory, Reply::Batches(batches))
            <==> stands_in(text@, batches@.last().events@[0].value@),
{
    broadcast use group_judgement;

    lemma_stands_in(text@, batches@.first().events@[0].value@);
    lemma_stands_in(text@, batches@.last().events@[0].value@);
}

/// Whether the characters of `text` stand somewhere in `value`, one byte each.
pub open spec fn stands_in(text: Seq<char>, value: Seq<u8>) -> bool {
    exists|at: int| #[trigger] stands_at(text, value, at)
}

/// Whether the characters of `text` stand in `value` from `at` on.
pub open spec fn stands_at(text: Seq<char>, value: Seq<u8>, at: int) -> bool {
    &&& 0 <= at
    &&& at + text.len() <= value.len()
    &&& forall|p: int| 0 <= p < text.len() ==> value[at + p] as int == #[trigger] text[p] as int
}

proof fn lemma_stands_in(text: Seq<char>, value: Seq<u8>)
    ensures
        crate::expect::holds_text(value, text) <==> stands_in(text, value),
{
    if crate::expect::holds_text(value, text) {
        let at = choose|at: int|
            0 <= at <= value.len() - text.len() && #[trigger] crate::expect::spells(
                value.subrange(at, at + text.len()),
                text,
            );
        let part = value.subrange(at, at + text.len());
        assert(stands_at(text, value, at)) by {
            assert forall|p: int| 0 <= p < text.len() implies value[at + p] as int
                == #[trigger] text[p] as int by {
                assert(part[p] as int == text[p] as int);
            }
        }
    }
    if stands_in(text, value) {
        let at = choose|at: int| #[trigger] stands_at(text, value, at);
        let part = value.subrange(at, at + text.len());
        assert(crate::expect::spells(part, text)) by {
            assert forall|i: int| 0 <= i < part.len() implies part[i] as int
                == #[trigger] text[i] as int by {
                assert(value[at + i] as int == text[i] as int);
            }
        }
    }
}

/// A stream is told by its versions: those from `lo` to `hi` are all there, in order and once; its
/// first and last are those of its first and last batch; and it holds so many batches and events.
pub proof fn a_stream_is_told_by_its_batches(
    lo: u64,
    hi: u64,
    n: u64,
    history: Seq<Reply>,
    memory: Memory,
    batches: Vec<Batch>,
    i: int,
)
    ensures
        meets(Expect::Stream(StreamRule::Versions(lo, hi)), history, memory, Reply::Batches(batches))
            ==> lo <= hi && batches@.len() == hi - lo + 1 && (0 <= i < batches@.len()
            ==> batches@[i].version == lo + i),
        meets(Expect::Stream(StreamRule::StartsAt(n)), history, memory, Reply::Batches(batches)) <==>
            batches@.len() > 0 && batches@[0].version == n,
        meets(Expect::Stream(StreamRule::EndsAt(n)), history, memory, Reply::Batches(batches)) <==>
            batches@.len() > 0 && batches@[batches@.len() - 1].version == n,
        meets(Expect::Stream(StreamRule::Count(n)), history, memory, Reply::Batches(batches)) <==>
            batches@.len() == n,
        meets(Expect::Stream(StreamRule::NotEmpty), history, memory, Reply::Batches(batches)) <==>
            batches@.len() != 0,
        meets(Expect::Stream(StreamRule::FirstMinor(n)), history, memory, Reply::Batches(batches))
            ==> batches@.len() > 0 && batches@[0].events@.len() > 0
            && batches@[0].events@[0].event_type_minor == n,
        meets(Expect::Stream(StreamRule::OneEventEach), history, memory, Reply::Batches(batches))
            && 0 <= i < batches@.len() ==> batches@[i].events@.len() == 1,
        meets(Expect::Stream(StreamRule::ExactlyOnce(n)), history, memory, Reply::Batches(batches))
            ==> batches@.len() == n && (0 <= i < n ==> batches@[i].version == i + 1
            && batches@[i].events@.len() == 1 && batches@[i].events@[0].client_seq == i + 1),
{
    broadcast use group_judgement;

    if 0 <= i < batches@.len() {
        assert(batches@[i].version == batches@[i].version);
    }
}

/// Events are counted over all batches: a batch more adds its events to the count, and without a
/// batch there are none.
pub proof fn events_are_counted_over_all_batches(
    n: u64,
    history: Seq<Reply>,
    memory: Memory,
    batches: Vec<Batch>,
    longer: Vec<Batch>,
    more: Batch,
)
    requires
        longer@ == batches@.push(more),
        n + more.events@.len() <= u64::MAX,
    ensures
        meets(Expect::Stream(StreamRule::Events(n)), history, memory, Reply::Batches(batches)) <==>
            meets(
            Expect::Stream(StreamRule::Events((n + more.events@.len()) as u64)),
            history,
            memory,
            Reply::Batches(longer),
        ),
        batches@.len() == 0 ==> (meets(
            Expect::Stream(StreamRule::Events(n)),
            history,
            memory,
            Reply::Batches(batches),
        ) <==> n == 0),
{
    broadcast use group_judgement;

    assert(longer@.drop_last() =~= batches@);
}

/// Where a race has one winner, there is one reply that is an acknowledgement, and every other one
/// carries the code that its loser has to carry.
pub proof fn one_winner_leaves_only_losers(
    racers: u64,
    losers: Outcome,
    history: Seq<Reply>,
    memory: Memory,
    replies: Vec<Option<Refusal>>,
    i: int,
    j: int,
)
    requires
        meets(Expect::OneWinner(racers, losers), history, memory, Reply::Race(replies)),
        losers == Outcome::OccLost || losers == Outcome::Deduped,
        0 <= i < replies@.len(),
        0 <= j < replies@.len(),
    ensures
        replies@.len() == racers,
        exists|w: int| 0 <= w < replies@.len() && #[trigger] replies@[w] is None,
        replies@[i] is None && replies@[j] is None ==> i == j,
        replies@[i] is Some && losers == Outcome::OccLost ==> replies@[i] == Some(
            Refusal::Coded(2003),
        ),
        replies@[i] is Some && losers == Outcome::Deduped ==> replies@[i] == Some(
            Refusal::Coded(2002),
        ) || replies@[i] == Some(Refusal::Coded(2013)),
{
    broadcast use group_judgement;

    lemma_winner(replies@);
    lemma_all_counted(replies@, losers, i);
    if i != j {
        lemma_two_winners(replies@, i, j);
    }
}

proof fn lemma_winner(replies: Seq<Option<Refusal>>)
    requires
        tally(replies, Outcome::Won) >= 1,
    ensures
        exists|w: int| 0 <= w < replies.len() && #[trigger] replies[w] is None,
    decreases replies.len(),
{
    if replies.len() > 0 {
        if replies.last() is None {
            assert(replies[replies.len() - 1] is None);
        } else {
            lemma_winner(replies.drop_last());
            let w = choose|w: int|
                0 <= w < replies.drop_last().len() && #[trigger] replies.drop_last()[w] is None;
            assert(replies[w] is None);
        }
    }
}

proof fn lemma_all_counted(replies: Seq<Option<Refusal>>, losers: Outcome, i: int)
    requires
        0 <= i < replies.len(),
        losers != Outcome::Won,
    ensures
        tally(replies, Outcome::Won) + tally(replies, losers) <= replies.len(),
        crate::model::classify(replies[i]) != Outcome::Won && crate::model::classify(replies[i])
            != losers ==> tally(replies, Outcome::Won) + tally(replies, losers) < replies.len(),
    decreases replies.len(),
{
    reveal_with_fuel(tally, 2);
    let rest = replies.drop_last();
    if rest.len() > 0 {
        if i < rest.len() {
            assert(rest[i] == replies[i]);
            lemma_all_counted(rest, losers, i);
        } else {
            lemma_all_counted(rest, losers, 0);
        }
    } else {
        assert(rest =~= Seq::empty());
    }
}

proof fn lemma_two_winners(replies: Seq<Option<Refusal>>, i: int, j: int)
    requires
        0 <= i < replies.len(),
        0 <= j < replies.len(),
        i != j,
    ensures
        replies[i] is None && replies[j] is None ==> tally(replies, Outcome::Won) >= 2,
    decreases replies.len(),
{
    let rest = replies.drop_last();
    let last = replies.len() - 1;
    if i < last && j < last {
        assert(rest[i] == replies[i] && rest[j] == replies[j]);
        lemma_two_winners(rest, i, j);
    } else {
        let other = if i < last {
            i
        } else {
            j
        };
        assert(rest[other] == replies[other]);
        lemma_one_winner(rest, other);
    }
}

proof fn lemma_one_winner(replies: Seq<Option<Refusal>>, i: int)
    requires
        0 <= i < replies.len(),
    ensures
        replies[i] is None ==> tally(replies, Outcome::Won) >= 1,
    decreases replies.len(),
{
    if i < replies.len() - 1 {
        assert(replies.drop_last()[i] == replies[i]);
        lemma_one_winner(replies.drop_last(), i);
    }
}

/// A refusal is told by its code: one that has to carry a code carries that one and no other, and
/// an acceptance is never taken for a refusal or the other way round.
pub proof fn refusals_are_told_by_their_code(
    code: u32,
    other: u32,
    history: Seq<Reply>,
    memory: Memory,
    reply: Reply,
)
    ensures
        meets(
            Expect::RefusedWith(code),
            history,
            memory,
            Reply::Refused(Refusal::Coded(other)),
        ) <==> code == other,
        meets(Expect::RefusedWith(code), history, memory, reply) ==> reply == Reply::Refused(
            Refusal::Coded(code),
        ),
        meets(Expect::Accepted, history, memory, reply) <==> !meets(
            Expect::Rejected,
            history,
            memory,
            reply,
        ),
        meets(Expect::Accepted, history, memory, reply) <==> !(reply is Refused)
            && !(reply is Redirected) && !(reply is Halted),
        meets(Expect::NotLeader, history, memory, reply) ==> reply is Redirected || reply
            == Reply::Refused(Refusal::NotLeader),
        meets(Expect::NothingStored, history, memory, reply) ==> reply == Reply::Refused(
            Refusal::Coded(1001),
        ) || (reply matches Reply::Batches(b) && b@.len() == 0),
{
    broadcast use group_judgement;

    reveal(turned_down);
}

/// A number is held against the one it names: the same, the next, so much more, not above or
/// another than the earlier one, or one that is given.
pub proof fn numbers_are_held_against_each_other(
    at: usize,
    by: u64,
    history: Seq<Reply>,
    memory: Memory,
    m: u64,
    n: u64,
)
    requires
        at < history.len(),
        history[at as int] == Reply::Number(m),
    ensures
        meets(Expect::Number(NumberRule::Is(by)), history, memory, Reply::Number(n)) <==> n - by == 0,
        meets(Expect::Number(NumberRule::AtLeast(by)), history, memory, Reply::Number(n)) <==> !(n
            < by),
        meets(Expect::Number(NumberRule::AtMost(by)), history, memory, Reply::Number(n)) <==> !(n
            > by),
        meets(Expect::Number(NumberRule::Same(at)), history, memory, Reply::Number(n)) <==> n - m == 0,
        meets(Expect::Number(NumberRule::Next(at)), history, memory, Reply::Number(n)) <==> n - m == 1,
        meets(Expect::Number(NumberRule::Plus(at, by)), history, memory, Reply::Number(n)) <==> n - m
            == by,
        meets(Expect::Number(NumberRule::NotAbove(at)), history, memory, Reply::Number(n)) <==> !(n
            > m),
        meets(Expect::Number(NumberRule::Differs(at)), history, memory, Reply::Number(n)) <==> n - m
            != 0,
{
    broadcast use group_judgement;

}

/// A lease is held against an earlier one: its index or epoch has not moved, has moved on by one, on
/// at all, or on by no more than is allowed; it expires later; and it names the same node or
/// another.
pub proof fn leases_are_held_against_each_other(
    at: usize,
    by: u64,
    history: Seq<Reply>,
    memory: Memory,
    before: Lease,
    now: Lease,
)
    requires
        at < history.len(),
        history[at as int] == Reply::Lease(before),
    ensures
        ({
            let moved = now.lease_index - before.lease_index;
            let advanced = now.lease_epoch - before.lease_epoch;
            let met = |rule: LeaseRule|
                meets(Expect::Lease(rule), history, memory, Reply::Lease(now));
            &&& met(LeaseRule::IndexAfter(at)) <==> moved == 1
            &&& met(LeaseRule::IndexAbove(at)) <==> moved > 0
            &&& met(LeaseRule::IndexSame(at)) <==> moved == 0
            &&& met(LeaseRule::IndexWithin(at, by)) <==> moved <= by
            &&& met(LeaseRule::EpochNotBelow(at)) <==> advanced >= 0
            &&& met(LeaseRule::EpochAbove(at)) <==> advanced > 0
            &&& met(LeaseRule::EpochSame(at)) <==> advanced == 0
            &&& met(LeaseRule::EpochWithin(at, by)) <==> advanced <= by
            &&& met(LeaseRule::ExpiryAbove(at)) <==> now.expires_at_ms - before.expires_at_ms > 0
            &&& met(LeaseRule::LeaderSame(at)) <==> now.leader_node_id - before.leader_node_id == 0
            &&& met(LeaseRule::LeaderOther(at)) <==> now.leader_node_id - before.leader_node_id != 0
            &&& met(LeaseRule::LeaderSet) <==> now.leader_node_id > 0
            &&& met(LeaseRule::ExpirySet) <==> now.expires_at_ms > 0
            &&& met(LeaseRule::IndexIs(by)) <==> now.lease_index - by == 0
            &&& met(LeaseRule::IndexAtLeast(by)) <==> !(now.lease_index < by)
        }),
{
    broadcast use group_judgement;

}

/// A listing is held against an earlier one by how much it holds.
pub proof fn listings_are_held_against_each_other(
    at: usize,
    n: u64,
    history: Seq<Reply>,
    memory: Memory,
    before: Vec<String>,
    now: Vec<String>,
)
    requires
        at < history.len(),
        history[at as int] == Reply::Objects(before),
    ensures
        ({
            let met = |rule: ListingRule|
                meets(Expect::Listing(rule), history, memory, Reply::Objects(now));
            &&& met(ListingRule::Empty) <==> now@ =~= Seq::empty()
            &&& met(ListingRule::AtLeast(n)) <==> !(now@.len() < n)
            &&& met(ListingRule::AsMany(at)) <==> now@.len() - before@.len() == 0
            &&& met(ListingRule::NoMore(at)) <==> now@.len() - before@.len() <= 0
            &&& now@.len() > 0 || before@.len() > 0 ==> met(ListingRule::SomeSince(at))
        }),
{
    broadcast use group_judgement;

    assert(crate::expect::listed_by(history, at) == Some(before@.len()));
}

/// In a sorted listing no name comes after one that stands behind it.
pub proof fn sorted_listings_are_in_order(
    history: Seq<Reply>,
    memory: Memory,
    names: Vec<String>,
    i: int,
)
    requires
        meets(Expect::Listing(ListingRule::Sorted), history, memory, Reply::Objects(names)),
        0 <= i,
        i + 1 < names@.len(),
    ensures
        crate::text::text_le(names@[i]@, names@[i + 1]@),
{
    broadcast use group_judgement;

    assert(crate::text::text_le(names@[i]@, names@[i + 1]@));
}

/// A batch of the store is told by its shard and its entries, and held against an earlier one by
/// its index and against a lease by its term.
pub proof fn fallback_batches_are_held_against_each_other(
    at: usize,
    lease_at: usize,
    shard: u32,
    history: Seq<Reply>,
    memory: Memory,
    before: crate::reply::FallbackBatch,
    lease: Lease,
    now: crate::reply::FallbackBatch,
)
    requires
        at < history.len(),
        lease_at < history.len(),
        history[at as int] == Reply::Fallback(before),
        history[lease_at as int] == Reply::Lease(lease),
    ensures
        ({
            let met = |rule: FallbackRule|
                meets(Expect::Fallback(rule), history, memory, Reply::Fallback(now));
            &&& met(FallbackRule::Shard(shard)) <==> now.shard_id - shard == 0
            &&& met(FallbackRule::NotEmpty) <==> now.items != 0
            &&& met(FallbackRule::IndexOfFirst) ==> now.items != 0 && now.fallback_index
                - now.first_wal_index == 0
            &&& met(FallbackRule::Above(at)) <==> now.fallback_index - before.fallback_index > 0
            &&& met(FallbackRule::TermOf(lease_at)) ==> now.items != 0 && now.lease_index
                - lease.lease_index == 0
        }),
{
    broadcast use group_judgement;

}

/// Of two nodes exactly one leads, or takes its write, where one of the two flags is raised and the
/// other is not.
pub proof fn one_of_two_leads(history: Seq<Reply>, memory: Memory, a: bool, b: bool)
    ensures
        meets(Expect::OneWriter, history, memory, Reply::Leaders(a, b)) <==> (a && !b) || (!a && b),
        meets(Expect::SingleLeader, history, memory, Reply::Leaders(a, b)) <==> (a && !b) || (!a
            && b),
        meets(Expect::LeaderFound, history, memory, Reply::Leaders(a, b)) <==> !(!a && !b),
        judgement(Expect::SingleLeader, history, memory, Reply::Leaders(true, true))
            == Judgement::Hopeless,
{
    broadcast use group_judgement;

}

/// Two writes came out differently where one was taken and the other turned down.
pub proof fn one_of_two_writes_was_taken(
    at: usize,
    history: Seq<Reply>,
    memory: Memory,
    reply: Reply,
)
    requires
        at < history.len(),
        history[at as int] is Done || history[at as int] is Refused,
        reply is Done || reply is Refused,
    ensures
        meets(Expect::FlagOther(at), history, memory, reply) <==> (history[at as int] is Done)
            != (reply is Done),
{
    broadcast use group_judgement;

}

/// A lease was acquired anew as often as two times of acquisition that follow each other differ; a
/// time that stays adds nothing, and another one adds one.
pub proof fn renewals_are_changes_of_the_time(first: u64, samples: Seq<u64>, next: u64)
    ensures
        changes(first, Seq::empty()) == 0,
        changes(first, samples.push(next)) - changes(first, samples) == if next == (if samples.len()
            == 0 {
            first
        } else {
            samples.last()
        }) {
            0int
        } else {
            1
        },
{
    assert(samples.push(next).drop_last() =~= samples);
}

/// So many renewals are allowed, and one more is not.
pub proof fn renewals_are_limited(
    at: usize,
    n: u64,
    history: Seq<Reply>,
    memory: Memory,
    before: Lease,
    samples: Vec<u64>,
)
    requires
        at < history.len(),
        history[at as int] == Reply::Lease(before),
    ensures
        meets(Expect::RenewalsAtMost(at, n), history, memory, Reply::Samples(samples)) <==> !(changes(
            before.acquired_at_ms,
            samples@,
        ) > n),
{
    broadcast use group_judgement;

}

/// Two counts have come up to two earlier ones where neither is behind its own.
pub proof fn counts_come_up_to_earlier_ones(
    x: usize,
    y: usize,
    history: Seq<Reply>,
    memory: Memory,
    m: u64,
    n: u64,
    a: u64,
    b: u64,
)
    requires
        x < history.len() && history[x as int] == Reply::Number(m),
        y < history.len() && history[y as int] == Reply::Number(n),
    ensures
        meets(Expect::CountsReach(x, y), history, memory, Reply::Counts(a, b)) <==> !(a < m) && !(b
            < n),
{
    broadcast use group_judgement;

}

/// A report that was waited for is about the aggregate that was asked for, has a range where one was
/// asked for, and an operation that no earlier report had where that was asked for.
pub proof fn a_notice_is_the_one_waited_for(
    rule: NoticeRule,
    history: Seq<Reply>,
    memory: Memory,
    notices: Vec<Notice>,
)
    requires
        meets(Expect::Notice(rule), history, memory, Reply::Notices(notices)),
    ensures
        exists|i: int|
            0 <= i < notices@.len() && (#[trigger] notices@[i]).aggregate_id == rule.aggregate_id && (
            rule.ranged ==> notices@[i].to_aggregate_version is Some) && (rule.fresh ==> forall|j: int|
                0 <= j < memory.operations.len() ==> memory.operations[j] != notices@[i].operation),
{
    broadcast use group_judgement;

    lemma_first_notice(rule, memory.operations, notices@);
    let i = choose|i: int|
        0 <= i < notices@.len() && #[trigger] crate::expect::notice_fits(
            rule,
            memory.operations,
            notices@[i],
        );
    assert(notices@[i].aggregate_id == rule.aggregate_id);
    if rule.fresh {
        assert forall|j: int| 0 <= j < memory.operations.len() implies memory.operations[j]
            != notices@[i].operation by {
            if memory.operations[j] == notices@[i].operation {
                assert(memory.operations.contains(notices@[i].operation));
            }
        }
    }
}

proof fn lemma_first_notice(rule: NoticeRule, seen: Seq<u64>, notices: Seq<Notice>)
    requires
        crate::expect::first_notice(rule, seen, notices) is Some,
    ensures
        exists|i: int|
            0 <= i < notices.len() && #[trigger] crate::expect::notice_fits(rule, seen, notices[i]),
    decreases notices.len(),
{
    if notices.len() > 0 {
        if crate::expect::notice_fits(rule, seen, notices[0]) {
        } else {
            lemma_first_notice(rule, seen, notices.skip(1));
            let i = choose|i: int|
                0 <= i < notices.skip(1).len() && #[trigger] crate::expect::notice_fits(
                    rule,
                    seen,
                    notices.skip(1)[i],
                );
            assert(notices.skip(1)[i] == notices[i + 1]);
        }
    }
}

/// The last report names its organisation and type and reaches the version that it has to reach; and no
/// two of the reports that were waited for had the same operation.
pub proof fn reports_are_told_by_what_they_name(
    org: u128,
    kind: u128,
    v: u64,
    n: u64,
    history: Seq<Reply>,
    memory: Memory,
    reply: Reply,
    last: Notice,
    i: int,
    j: int,
)
    requires
        memory.last == Some(last),
    ensures
        meets(Expect::NoticeNames(org, kind), history, memory, reply) <==> last.org_id == org
            && last.aggregate_type_id == kind,
        meets(Expect::NoticeReaches(v), history, memory, reply) <==> (
        last.to_aggregate_version matches Some(to) && !(to < v)),
        meets(Expect::DistinctOperations(n), history, memory, reply) ==> memory.operations.len() == n
            && (0 <= i < j < memory.operations.len() ==> memory.operations[i]
            != memory.operations[j]),
{
    broadcast use group_judgement;

}

/// A watch that was followed showed every version from 1 on, each in its place.
pub proof fn a_followed_watch_misses_nothing(
    n: u64,
    history: Seq<Reply>,
    memory: Memory,
    versions: Vec<u64>,
    i: int,
)
    requires
        meets(Expect::FollowedTo(n), history, memory, Reply::Followed(versions)),
    ensures
        versions@.len() == n,
        0 <= i < n ==> versions@[i] - i == 1,
{
    broadcast use group_judgement;

    if 0 <= i < n {
        assert(versions@[i] == i + 1);
    }
}

/// Who a client is, what a listing holds, what details tell and what accounts hold is taken at its
/// word, and by nothing else.
pub proof fn answers_are_taken_at_their_word(
    id: u128,
    own: u128,
    v: u64,
    w: u64,
    gone: bool,
    a: i64,
    b: i64,
    m: i64,
    n: i64,
    history: Seq<Reply>,
    memory: Memory,
    ids: Vec<u128>,
    batches: Vec<Batch>,
)
    ensures
        ({
            let met = |expect: Expect, reply: Reply| meets(expect, history, memory, reply);
            &&& met(Expect::IdentityMatches, Reply::Identity(Some(id), own)) <==> id - own == 0
            &&& !met(Expect::IdentityMatches, Reply::Identity(None, own))
            &&& met(Expect::Lists(id), Reply::Ids(ids)) <==> exists|i: int|
                0 <= i < ids@.len() && #[trigger] ids@[i] == id
            &&& met(Expect::ListsSome, Reply::Ids(ids)) <==> ids@.len() != 0
            &&& met(Expect::Unseen, Reply::Batches(batches)) <==> batches@.len() == 0
            &&& met(Expect::Details(DetailsRule::Present), Reply::Details(v, gone)) <==> !gone
            &&& met(Expect::Details(DetailsRule::Gone), Reply::Details(v, gone)) <==> gone
            &&& met(Expect::Details(DetailsRule::Version(w)), Reply::Details(v, gone)) <==> v - w == 0
            &&& met(Expect::Balance(n), Reply::Balance(a)) <==> a - n == 0
            &&& met(Expect::Balances(m, n), Reply::Balances(a, b)) <==> a - m == 0 && b - n == 0
            &&& met(Expect::ShortOfFunds(n), Reply::ShortOfFunds(a)) <==> a - n == 0
            &&& !met(Expect::Balance(n), Reply::ShortOfFunds(n))
        }),
{
    broadcast use group_judgement;

    reveal(turned_down);
}

/// Only a refusal that came in time, only a redirection, and only a client's own refusal count as such.
pub proof fn refusals_are_told_apart(history: Seq<Reply>, memory: Memory, r: Refusal, address: String)
    ensures
        meets(Expect::RefusedInTime, history, memory, Reply::Refused(r)) <==> !(r is TimedOut),
        !meets(Expect::RefusedInTime, history, memory, Reply::Done),
        meets(Expect::Redirect, history, memory, Reply::Redirected(address)),
        !meets(Expect::Redirect, history, memory, Reply::Done),
        !meets(Expect::Redirect, history, memory, Reply::Refused(r)),
        meets(Expect::OutOfStep, history, memory, Reply::Refused(r)) <==> r is OutOfStep,
        !meets(Expect::OutOfStep, history, memory, Reply::Done),
        meets(Expect::NotLeader, history, memory, Reply::Refused(r)) <==> r is NotLeader,
{
    broadcast use group_judgement;

}

} // verus!
