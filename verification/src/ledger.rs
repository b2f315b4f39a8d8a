//! What a sound server holds after the steps of a script, what it answers, and that a script whose
//! steps ask for just that passes on its answers.

use crate::bench::Routing;
use crate::expect::{
    Expect, NumberRule, StreamRule, group_judgement, holds_text, spells, turned_down,
};
use crate::model::{AggregateKey, Outcome, Payload, Refusal, Sequence, Write, payload_text};
use crate::reply::{Batch, Reply, event_total, tally};
use crate::script::{Action, Deletion, Race, Step, met_at, passes};
use vstd::prelude::*;

verus! {

/// A write that was taken, and the number of the writer that sent it.
pub struct Entry {
    pub write: Write,
    pub writer: u64,
}

/// What a server holds under one key.
pub struct Held {
    /// The writes that can still be read, the oldest first.
    pub kept: Seq<Entry>,
    /// The version of the oldest.
    pub first: nat,
    /// How many events were counted.
    pub sequence: nat,
    /// It was deleted and must not be made again.
    pub barred: bool,
    /// It was deleted, and its events are counted on where it is made again.
    pub carries: bool,
    /// Which client has used which number.
    pub seen: Set<(u128, u64)>,
}

/// What is held under a key that was never written to.
pub open spec fn nothing() -> Held {
    Held {
        kept: Seq::empty(),
        first: 1,
        sequence: 0,
        barred: false,
        carries: false,
        seen: Set::empty(),
    }
}

/// The version that a key is at: 0 where there is nothing to read.
pub open spec fn version(h: Held) -> nat {
    if h.kept.len() == 0 {
        0
    } else {
        (h.first + h.kept.len() - 1) as nat
    }
}

/// What becomes of a request.
pub enum Fate {
    Taken,
    /// Turned down, with this code where one is told.
    Refused(Option<u32>),
}

/// What becomes of a write: one that repeats a number of its client is turned down, and so is one
/// to a key that is barred, one to a key without events that it may not create, and one that
/// expects another version.
pub open spec fn fate(h: Held, w: Write) -> Fate {
    if w.enforce_client_idempotency && h.seen.contains((w.client_id, w.client_seq)) {
        Fate::Refused(Some(2002))
    } else if h.kept.len() == 0 && h.barred {
        Fate::Refused(Some(2006))
    } else if h.kept.len() == 0 && !w.allow_create {
        Fate::Refused(None)
    } else if w.expected_version is Some && w.expected_version->0 != version(h) {
        Fate::Refused(Some(2003))
    } else {
        Fate::Taken
    }
}

/// What is held once a write was taken.
pub open spec fn grown(h: Held, w: Write, writer: u64) -> Held {
    Held {
        kept: h.kept.push(Entry { write: w, writer }),
        first: if h.kept.len() == 0 {
            1
        } else {
            h.first
        },
        sequence: if h.kept.len() == 0 && !h.carries {
            1
        } else {
            h.sequence + 1
        },
        barred: false,
        carries: false,
        seen: h.seen.insert((w.client_id, w.client_seq)),
    }
}

/// What is held after a write.
pub open spec fn written(h: Held, w: Write, writer: u64) -> Held {
    if fate(h, w) is Taken {
        grown(h, w, writer)
    } else {
        h
    }
}

/// What becomes of a request to drop every version before `keep`.
pub open spec fn trim_fate(h: Held, keep: u64) -> Fate {
    if h.kept.len() == 0 {
        Fate::Refused(Some(3000))
    } else if keep > version(h) || keep < h.first {
        Fate::Refused(Some(3004))
    } else {
        Fate::Taken
    }
}

/// What is held after such a request.
pub open spec fn trimmed(h: Held, keep: u64) -> Held {
    if trim_fate(h, keep) is Taken {
        Held { kept: h.kept.skip(keep - h.first), first: keep as nat, ..h }
    } else {
        h
    }
}

/// What becomes of a request to delete.
pub open spec fn delete_fate(h: Held, d: Deletion) -> Fate {
    if h.kept.len() == 0 {
        Fate::Refused(Some(4000))
    } else if d.expected_version is Some && d.expected_version->0 != version(h) {
        Fate::Refused(Some(4002))
    } else {
        Fate::Taken
    }
}

/// What is held after such a request.
pub open spec fn deleted(h: Held, d: Deletion) -> Held {
    if delete_fate(h, d) is Taken {
        Held {
            kept: Seq::empty(),
            barred: !d.allow_recreate,
            carries: d.allow_sequence_continuation,
            ..h
        }
    } else {
        h
    }
}

/// How many events a sequence has.
pub open spec fn events_in(s: Sequence) -> nat {
    if s.lo <= s.hi {
        (s.hi - s.lo + 1) as nat
    } else {
        0
    }
}

/// What is held after the first `n` events of a sequence.
pub open spec fn sent(h: Held, s: Sequence, writer: u64, n: nat) -> Held
    decreases n,
{
    if n == 0 {
        h
    } else {
        written(sent(h, s, writer, (n - 1) as nat), s.write((s.lo + n - 1) as u64), writer)
    }
}

/// Whether each of the first `n` events of a sequence is taken.
pub open spec fn all_taken(h: Held, s: Sequence, writer: u64, n: nat) -> bool
    decreases n,
{
    n == 0 || (all_taken(h, s, writer, (n - 1) as nat) && fate(
        sent(h, s, writer, (n - 1) as nat),
        s.write((s.lo + n - 1) as u64),
    ) is Taken)
}

/// A server: how many shards it has, what a key is routed by, and what it holds under each key.
pub struct Server {
    pub shards: Option<u64>,
    pub by_org: bool,
    pub held: Map<AggregateKey, Held>,
}

/// A server without events.
pub open spec fn unused() -> Server {
    Server { shards: None, by_org: false, held: Map::empty() }
}

/// What a server holds under a key.
pub open spec fn under(s: Server, key: AggregateKey) -> Held {
    if s.held.contains_key(key) {
        s.held[key]
    } else {
        nothing()
    }
}

/// A server that holds something else under a key.
pub open spec fn with(s: Server, key: AggregateKey, h: Held) -> Server {
    Server { held: s.held.insert(key, h), ..s }
}

/// Whether two keys belong to different shards.
pub open spec fn apart(s: Server, a: AggregateKey, b: AggregateKey) -> bool {
    s.shards matches Some(n) && n > 0 && if s.by_org {
        a.org_id as int % n as int != b.org_id as int % n as int
    } else {
        a.aggregate_id as int % n as int != b.aggregate_id as int % n as int
    }
}

/// What becomes of two writes in one request: both are taken or neither is.
pub open spec fn fate_of_both(s: Server, a: Write, b: Write) -> Fate {
    if apart(s, a.key, b.key) {
        Fate::Refused(Some(9001))
    } else if fate(under(s, a.key), a) is Refused {
        fate(under(s, a.key), a)
    } else {
        fate(under(with(s, a.key, grown(under(s, a.key), a, 0)), b.key), b)
    }
}

/// What becomes of two deletions in one request.
pub open spec fn delete_fate_of_both(s: Server, a: Deletion, b: Deletion) -> Fate {
    if apart(s, a.key, b.key) {
        Fate::Refused(Some(9001))
    } else if delete_fate(under(s, a.key), a) is Refused {
        delete_fate(under(s, a.key), a)
    } else {
        delete_fate(under(with(s, a.key, deleted(under(s, a.key), a)), b.key), b)
    }
}

/// What a server holds once `n` writers have each sent their events.
pub open spec fn filled(s: Server, q: Sequence, n: nat) -> Server
    decreases n,
{
    if n == 0 {
        s
    } else {
        let before = filled(s, q, (n - 1) as nat);
        let own = q.shifted((n - 1) as u64);
        with(before, own.key, sent(under(before, own.key), own, (n - 1) as u64, events_in(own)))
    }
}

/// The server after an action. Of writers that race each other, `winner` comes first.
pub open spec fn served(s: Server, action: Action, winner: u64) -> Server {
    match action {
        Action::StartNode { config, .. } => Server {
            shards: config.num_shards,
            by_org: config.routing_rule == Some(Routing::OrgId),
            held: Map::empty(),
        },
        Action::Write(_, w) => with(s, w.key, written(under(s, w.key), w, 0)),
        Action::WriteFresh(_, w) => with(s, w.key, written(under(s, w.key), w, 0)),
        Action::WriteTogether(_, a, b) => if fate_of_both(s, a, b) is Taken {
            let half = with(s, a.key, grown(under(s, a.key), a, 0));
            with(half, b.key, grown(under(half, b.key), b, 0))
        } else {
            s
        },
        Action::WriteSequence(_, q) => with(
            s,
            q.key,
            sent(under(s, q.key), q, 0, events_in(q)),
        ),
        Action::WriteMany(_, q, n) => filled(s, q, n as nat),
        Action::Race(_, race) => with(
            s,
            race.write.key,
            written(under(s, race.write.key), race.write_of(winner), winner),
        ),
        Action::Trim(_, key, keep) => with(s, key, trimmed(under(s, key), keep)),
        Action::Delete(_, d) => with(s, d.key, deleted(under(s, d.key), d)),
        Action::DeleteTogether(_, a, b) => if delete_fate_of_both(s, a, b) is Taken {
            let half = with(s, a.key, deleted(under(s, a.key), a));
            with(half, b.key, deleted(under(half, b.key), b))
        } else {
            s
        },
        _ => s,
    }
}

/// The server before step `k`.
pub open spec fn server_at(steps: Seq<Step>, winner: u64, k: nat) -> Server
    decreases k,
{
    if k == 0 {
        unused()
    } else {
        served(server_at(steps, winner, (k - 1) as nat), steps[k - 1].action, winner)
    }
}

/// What step `k` asks to become of a request, or what it was written to meet.
pub open spec fn fate_at(steps: Seq<Step>, winner: u64, k: nat) -> Option<Fate> {
    let s = server_at(steps, winner, k);
    match steps[k as int].action {
        Action::StartNode { .. } => Some(Fate::Taken),
        Action::Connect(_) => Some(Fate::Taken),
        Action::Write(_, w) => Some(fate(under(s, w.key), w)),
        Action::WriteFresh(_, w) => Some(fate(under(s, w.key), w)),
        Action::WriteTogether(_, a, b) => Some(fate_of_both(s, a, b)),
        Action::WriteSequence(_, q) => if all_taken(under(s, q.key), q, 0, events_in(q)) {
            Some(Fate::Taken)
        } else {
            None
        },
        Action::WriteMany(_, q, n) => if forall|w: u64|
            w < n ==> #[trigger] all_taken(
                under(s, q.shifted(w).key),
                q.shifted(w),
                w,
                events_in(q),
            ) {
            Some(Fate::Taken)
        } else {
            None
        },
        Action::Trim(_, key, keep) => Some(trim_fate(under(s, key), keep)),
        Action::Delete(_, d) => Some(delete_fate(under(s, d.key), d)),
        Action::DeleteTogether(_, a, b) => Some(delete_fate_of_both(s, a, b)),
        _ => None,
    }
}

/// The number that step `k` is told.
pub open spec fn number_at(steps: Seq<Step>, winner: u64, k: nat) -> Option<nat> {
    let s = server_at(steps, winner, k);
    match steps[k as int].action {
        Action::Version(_, key) => if under(s, key).kept.len() > 0 {
            Some(version(under(s, key)))
        } else {
            None
        },
        Action::LastSequence(_, key) => if under(s, key).kept.len() > 0 {
            Some(under(s, key).sequence)
        } else {
            None
        },
        _ => None,
    }
}

/// The key that step `k` reads, and the version from which it does.
pub open spec fn reading_at(steps: Seq<Step>, winner: u64, k: nat) -> Option<(AggregateKey, nat)> {
    match steps[k as int].action {
        Action::Read(_, key, from) => Some((key, from as nat)),
        Action::ReadAll(_, key) => Some((key, under(server_at(steps, winner, k), key).first)),
        _ => None,
    }
}

/// The code with which the read of step `k` is turned down.
pub open spec fn unread_at(steps: Seq<Step>, winner: u64, k: nat) -> Option<u32> {
    match reading_at(steps, winner, k) {
        Some((key, from)) => {
            let h = under(server_at(steps, winner, k), key);
            if h.kept.len() == 0 {
                Some(1001)
            } else if from < h.first {
                Some(1000)
            } else {
                None
            }
        },
        None => None,
    }
}

/// What the read of step `k` is shown: the version that it starts at and the writes from there on.
pub open spec fn shown_at(steps: Seq<Step>, winner: u64, k: nat) -> Option<(nat, Seq<Entry>)> {
    match reading_at(steps, winner, k) {
        Some((key, from)) => {
            let h = under(server_at(steps, winner, k), key);
            if h.kept.len() > 0 && h.first <= from <= version(h) {
                Some((from, h.kept.skip(from - h.first)))
            } else {
                None
            }
        },
        None => None,
    }
}

/// Whether a later step looks at what step `k` gets.
pub open spec fn looked_at(steps: Seq<Step>, k: nat) -> bool {
    exists|m: int| k < m < steps.len() && #[trigger] looks_at(steps[m], k)
}

/// Whether a step looks at what step `k` gets.
pub open spec fn looks_at(step: Step, k: nat) -> bool {
    ||| step.action matches Action::Recall(at) && at == k
    ||| step.expect matches Expect::Number(NumberRule::Same(at)) && at == k
    ||| step.expect matches Expect::Number(NumberRule::Next(at)) && at == k
    ||| step.expect matches Expect::Number(NumberRule::NotAbove(at)) && at == k
    ||| step.expect matches Expect::Number(NumberRule::Differs(at)) && at == k
}

/// Whether a number that step `j` is told is exactly what step `k` asks for.
pub open spec fn number_fits(
    steps: Seq<Step>,
    winner: u64,
    j: nat,
    k: nat,
    rule: NumberRule,
) -> bool {
    number_at(steps, winner, j) matches Some(n) && match rule {
        NumberRule::Is(m) => n == m,
        NumberRule::Same(at) => at < k && number_at(steps, winner, at as nat) == Some(n),
        NumberRule::Next(at) => at < k && (number_at(steps, winner, at as nat) matches Some(m) && n
            == m + 1),
        NumberRule::NotAbove(at) => at < k && (number_at(steps, winner, at as nat) matches Some(m)
            && n <= m),
        NumberRule::Differs(at) => at < k && (number_at(steps, winner, at as nat) matches Some(m)
            && n != m),
        _ => false,
    }
}

/// Whether the characters of `part` stand somewhere in `text`.
pub open spec fn part_of(part: Seq<char>, text: Seq<char>) -> bool {
    exists|at: int|
        0 <= at <= text.len() - part.len() && #[trigger] text.subrange(at, at + part.len()) == part
}

/// Whether a stream that step `j` is shown is exactly what step `k` asks for.
pub open spec fn stream_fits(
    steps: Seq<Step>,
    winner: u64,
    j: nat,
    k: nat,
    rule: StreamRule,
) -> bool {
    shown_at(steps, winner, j) matches Some((from, shown)) && match rule {
        StreamRule::Count(n) => shown.len() == n,
        StreamRule::NotEmpty => shown.len() > 0,
        StreamRule::Events(n) => shown.len() == n,
        StreamRule::Versions(lo, hi) => lo >= 1 && lo == from && shown.len() > 0 && hi == from
            + shown.len() - 1,
        StreamRule::StartsAt(v) => v == from && shown.len() > 0,
        StreamRule::EndsAt(v) => shown.len() > 0 && v == from + shown.len() - 1,
        StreamRule::SameAs(at) => at < k && shown_at(steps, winner, at as nat) == Some(
            (from, shown),
        ),
        StreamRule::LastHolds(text) => shown.len() > 0 && (
        shown.last().write.payload matches Payload::Text(t) && part_of(text@, t@)),
        StreamRule::Tagged(agg, n) => from == 1 && shown.len() == n && forall|i: int|
            0 <= i < shown.len() ==> {
                &&& (#[trigger] shown[i]).write.payload is Tagged
                &&& shown[i].writer == agg
                &&& shown[i].write.client_seq == i + 1
            },
        _ => false,
    }
}

/// Whether what step `j` gets is exactly what step `k` asks for.
pub open spec fn reading_fits(steps: Seq<Step>, winner: u64, j: nat, k: nat) -> bool {
    match steps[k as int].expect {
        Expect::Number(rule) => number_fits(steps, winner, j, k, rule),
        Expect::Stream(rule) => stream_fits(steps, winner, j, k, rule),
        Expect::RefusedWith(code) => unread_at(steps, winner, j) == Some(code),
        Expect::NothingStored => unread_at(steps, winner, j) == Some(1001u32),
        Expect::Accepted => j == k && looked_at(steps, k) && (number_at(steps, winner, j) is Some
            || shown_at(steps, winner, j) is Some),
        _ => false,
    }
}

/// Whether a write that has to be turned down is turned down for the reason that its step names and
/// for no other: one whose version is stale expects a version that the key has passed, one that
/// comes with a write to another shard would be taken without it, and so would the first of two
/// that fail together.
pub open spec fn refused_for_one_reason(steps: Seq<Step>, winner: u64, k: nat, code: u32) -> bool {
    let s = server_at(steps, winner, k);
    match steps[k as int].action {
        Action::Write(_, w) => code == 2003 ==> (w.expected_version matches Some(v) && v < version(
            under(s, w.key),
        )),
        Action::WriteTogether(_, a, b) => if code == 9001 {
            fate(under(s, a.key), a) is Taken && fate(under(s, b.key), b) is Taken
        } else {
            &&& fate(under(s, a.key), a) is Taken
            &&& a.key != b.key
            &&& code == 2003 ==> (b.expected_version matches Some(v) && v < version(under(s, b.key)))
        },
        Action::Delete(_, d) => code == 4002 ==> (d.expected_version matches Some(v) && v < version(
            under(s, d.key),
        )),
        Action::DeleteTogether(_, a, b) => code == 9001 ==> delete_fate(under(s, a.key), a)
            is Taken && delete_fate(under(s, b.key), b) is Taken,
        _ => true,
    }
}

/// Whether step `k` sends what a later step sends again, which asks for this refusal.
pub open spec fn repeated_with(steps: Seq<Step>, k: nat, code: u32) -> bool {
    exists|m: int|
        k < m < steps.len() && (#[trigger] steps[m]).action == steps[k as int].action
            && steps[m].expect == Expect::RefusedWith(code)
}

/// Whether a race can be won by each of its writers and by no second one.
pub open spec fn race_fits(h: Held, race: Race, losers: Outcome) -> bool {
    &&& race.writers > 1
    &&& losers == Outcome::OccLost || losers == Outcome::Deduped
    &&& forall|i: u64|
        #![trigger race.write_of(i)]
        i < race.writers ==> fate(h, race.write_of(i)) is Taken
    &&& forall|i: u64, j: u64|
        #![trigger race.write_of(i), race.write_of(j)]
        i < race.writers && j < race.writers && i != j ==> fate(
            grown(h, race.write_of(i), i),
            race.write_of(j),
        ) == Fate::Refused(
            if losers == Outcome::OccLost {
                Some(2003)
            } else {
                Some(2002)
            },
        )
}

/// Whether step `k` asks for exactly what a sound server answers.
pub open spec fn fits(steps: Seq<Step>, winner: u64, k: nat) -> bool {
    let expect = steps[k as int].expect;
    let s = server_at(steps, winner, k);
    match steps[k as int].action {
        Action::Recall(j) => j < k && reading_fits(steps, winner, j as nat, k),
        Action::Race(_, race) => expect matches Expect::OneWinner(racers, losers) && racers
            == race.writers && winner < racers && race_fits(
            under(s, race.write.key),
            race,
            losers,
        ),
        Action::ReadPairs(_, q) => {
            let h = under(s, q.key);
            expect matches Expect::Intact(n) && n == h.kept.len() && h.first == 1 && n == events_in(
                q,
            ) && q.lo == 1 && forall|i: int|
                0 <= i < h.kept.len() ==> #[trigger] h.kept[i] == (Entry {
                    write: q.write((i + 1) as u64),
                    writer: 0,
                })
        },
        _ => match fate_at(steps, winner, k) {
            Some(Fate::Taken) => expect == Expect::Accepted,
            Some(Fate::Refused(Some(code))) => {
                &&& refused_for_one_reason(steps, winner, k, code)
                &&& expect == Expect::RefusedWith(code) || (expect == Expect::Anything
                    && repeated_with(steps, k, code))
            },
            Some(Fate::Refused(None)) => false,
            None => reading_fits(steps, winner, k, k),
        },
    }
}

/// Whether `value` gives each write the bytes that its payload spells.
pub open spec fn faithful(value: spec_fn(Entry) -> Seq<u8>) -> bool {
    forall|e: Entry|
        #![trigger value(e)]
        payload_text(e.write.payload, e.writer, e.write.client_seq) matches Some(t) ==> spells(
            value(e),
            t,
        )
}

/// Whether a stream is the one that a sound server shows.
pub open spec fn is_shown(
    b: Seq<Batch>,
    from: nat,
    shown: Seq<Entry>,
    value: spec_fn(Entry) -> Seq<u8>,
) -> bool {
    &&& b.len() == shown.len()
    &&& forall|i: int|
        0 <= i < b.len() ==> {
            &&& (#[trigger] b[i]).version == from + i
            &&& b[i].events@.len() == 1
            &&& b[i].events@[0].client_seq == shown[i].write.client_seq
            &&& b[i].events@[0].event_type_minor == shown[i].write.event_type_minor
            &&& b[i].events@[0].value@ == value(shown[i])
        }
}

/// Whether the replies to a race are those of a server that takes the write of `winner` first.
pub open spec fn is_raced(
    replies: Seq<Option<Refusal>>,
    h: Held,
    race: Race,
    winner: u64,
) -> bool {
    &&& replies.len() == race.writers
    &&& forall|i: int|
        0 <= i < replies.len() ==> if i == winner {
            (#[trigger] replies[i]) is None
        } else {
            match fate(grown(h, race.write_of(winner), winner), race.write_of(i as u64)) {
                Fate::Taken => replies[i] is None,
                Fate::Refused(Some(code)) => replies[i] == Some(Refusal::Coded(code)) || (code
                    == 2002 && replies[i] == Some(Refusal::Coded(2013))),
                Fate::Refused(None) => replies[i] is Some,
            }
        }
}

/// Whether the reply to step `k` is one that a sound server gives.
pub open spec fn answered(
    steps: Seq<Step>,
    history: Seq<Reply>,
    winner: u64,
    value: spec_fn(Entry) -> Seq<u8>,
    k: nat,
) -> bool {
    let reply = history[k as int];
    let s = server_at(steps, winner, k);
    match steps[k as int].action {
        Action::Recall(_) => true,
        Action::Race(_, race) => reply matches Reply::Race(r) && is_raced(
            r@,
            under(s, race.write.key),
            race,
            winner,
        ),
        Action::ReadPairs(_, q) => {
            let h = under(s, q.key);
            reply matches Reply::Pairs(p) && p@.len() == h.kept.len() && forall|i: int|
                0 <= i < p@.len() ==> {
                    &&& (#[trigger] p@[i]).version == h.first + i
                    &&& p@[i].events == 1
                    &&& p@[i].read@ == value(h.kept[i])
                    &&& p@[i].written@ == value(
                        Entry { write: q.write((q.lo + i) as u64), writer: 0 },
                    )
                }
        },
        _ => {
            &&& fate_at(steps, winner, k) matches Some(fate) ==> match fate {
                Fate::Taken => reply is Done || reply is Started,
                Fate::Refused(Some(code)) => reply == Reply::Refused(Refusal::Coded(code)),
                Fate::Refused(None) => reply is Refused,
            }
            &&& number_at(steps, winner, k) matches Some(n) ==> (reply matches Reply::Number(m) && m
                == n)
            &&& unread_at(steps, winner, k) matches Some(code) ==> reply == Reply::Refused(
                Refusal::Coded(code),
            )
            &&& shown_at(steps, winner, k) matches Some((from, shown)) ==> (
            reply matches Reply::Batches(b) && is_shown(b@, from, shown, value))
        },
    }
}

proof fn lemma_one_event_each_adds_up(b: Seq<Batch>)
    requires
        forall|i: int| 0 <= i < b.len() ==> (#[trigger] b[i]).events@.len() == 1,
    ensures
        event_total(b) == b.len(),
    decreases b.len(),
{
    if b.len() > 0 {
        assert forall|i: int| 0 <= i < b.drop_last().len() implies (
        #[trigger] b.drop_last()[i]).events@.len() == 1 by {
            assert(b.drop_last()[i] == b[i]);
        }
        lemma_one_event_each_adds_up(b.drop_last());
        assert(b[b.len() - 1].events@.len() == 1);
    }
}

proof fn lemma_losers_add_up(r: Seq<Option<Refusal>>, winner: int, losers: Outcome)
    requires
        losers != Outcome::Won,
        forall|i: int|
            0 <= i < r.len() ==> crate::model::classify(#[trigger] r[i]) == if i == winner {
                Outcome::Won
            } else {
                losers
            },
    ensures
        tally(r, Outcome::Won) == if 0 <= winner < r.len() {
            1nat
        } else {
            0
        },
        tally(r, losers) + tally(r, Outcome::Won) == r.len(),
    decreases r.len(),
{
    if r.len() > 0 {
        let rest = r.drop_last();
        assert forall|i: int| 0 <= i < rest.len() implies crate::model::classify(
            #[trigger] rest[i],
        ) == (if i == winner {
            Outcome::Won
        } else {
            losers
        }) by {
            assert(rest[i] == r[i]);
        }
        lemma_losers_add_up(rest, winner, losers);
        assert(crate::model::classify(r[r.len() - 1]) == if r.len() - 1 == winner {
            Outcome::Won
        } else {
            losers
        });
    }
}

proof fn lemma_part_is_held(value: Seq<u8>, part: Seq<char>, text: Seq<char>)
    requires
        spells(value, text),
        part_of(part, text),
    ensures
        holds_text(value, part),
{
    let at = choose|at: int|
        0 <= at <= text.len() - part.len() && #[trigger] text.subrange(at, at + part.len()) == part;
    let cut = value.subrange(at, at + part.len());
    assert(spells(cut, part)) by {
        assert forall|i: int| 0 <= i < cut.len() implies cut[i] as int == #[trigger] part[i] as int by {
            assert(text.subrange(at, at + part.len())[i] == text[at + i]);
            assert(value[at + i] as int == text[at + i] as int);
        }
    }
}

proof fn lemma_number_met(
    steps: Seq<Step>,
    history: Seq<Reply>,
    winner: u64,
    value: spec_fn(Entry) -> Seq<u8>,
    j: nat,
    k: nat,
    rule: NumberRule,
)
    requires
        j <= k < steps.len(),
        history.len() == steps.len(),
        forall|i: nat| i < steps.len() ==> #[trigger] answered(steps, history, winner, value, i),
        number_fits(steps, winner, j, k, rule),
    ensures
        history[j as int] matches Reply::Number(n) && crate::expect::number_ok(
            rule,
            history.take(k as int),
            n,
        ),
{
    assert(answered(steps, history, winner, value, j));
    match rule {
        NumberRule::Same(at) => {
            assert(answered(steps, history, winner, value, at as nat));
        },
        NumberRule::Next(at) => {
            assert(answered(steps, history, winner, value, at as nat));
        },
        NumberRule::NotAbove(at) => {
            assert(answered(steps, history, winner, value, at as nat));
        },
        NumberRule::Differs(at) => {
            assert(answered(steps, history, winner, value, at as nat));
        },
        _ => {},
    }
}

proof fn lemma_stream_met(
    steps: Seq<Step>,
    history: Seq<Reply>,
    winner: u64,
    value: spec_fn(Entry) -> Seq<u8>,
    j: nat,
    k: nat,
    rule: StreamRule,
)
    requires
        j <= k < steps.len(),
        history.len() == steps.len(),
        faithful(value),
        forall|i: nat| i < steps.len() ==> #[trigger] answered(steps, history, winner, value, i),
        stream_fits(steps, winner, j, k, rule),
    ensures
        history[j as int] matches Reply::Batches(b) && crate::expect::stream_ok(
            rule,
            history.take(k as int),
            b@,
        ),
{
    assert(answered(steps, history, winner, value, j));
    let (from, shown) = shown_at(steps, winner, j)->0;
    let b = history[j as int]->Batches_0@;
    assert(is_shown(b, from, shown, value));
    lemma_one_event_each_adds_up(b);
    if b.len() > 0 {
        assert(b[0].version == from);
        assert(b[b.len() - 1].version == from + b.len() - 1);
    }
    match rule {
        StreamRule::SameAs(at) => {
            assert(answered(steps, history, winner, value, at as nat));
            let a = history[at as int]->Batches_0@;
            assert(is_shown(a, from, shown, value));
            assert(crate::expect::same_stream(a, b)) by {
                assert forall|i: int| 0 <= i < a.len() implies {
                    &&& (#[trigger] a[i]).version == b[i].version
                    &&& a[i].events@.len() > 0
                    &&& crate::expect::same_events(a[i].events@, b[i].events@)
                } by {
                    assert(b[i].version == from + i);
                }
            }
        },
        StreamRule::LastHolds(text) => {
            let last = shown.last();
            let t = last.write.payload->Text_0;
            assert(payload_text(last.write.payload, last.writer, last.write.client_seq) == Some(
                t@,
            ));
            assert(spells(value(last), t@));
            lemma_part_is_held(value(last), text@, t@);
        },
        StreamRule::Tagged(agg, n) => {
            assert forall|i: int| 0 <= i < b.len() implies {
                &&& (#[trigger] b[i]).version == i + 1
                &&& crate::expect::all_spell(
                    b[i].events@,
                    crate::expect::tag(agg, (i + 1) as nat),
                )
            } by {
                let e = shown[i];
                assert(payload_text(e.write.payload, e.writer, e.write.client_seq) == Some(
                    crate::expect::tag(agg, (i + 1) as nat),
                ));
                assert(spells(value(e), crate::expect::tag(agg, (i + 1) as nat)));
            }
        },
        _ => {},
    }
}

proof fn lemma_reading_met(
    steps: Seq<Step>,
    history: Seq<Reply>,
    winner: u64,
    value: spec_fn(Entry) -> Seq<u8>,
    j: nat,
    k: nat,
)
    requires
        j <= k < steps.len(),
        history.len() == steps.len(),
        faithful(value),
        forall|i: nat| i < steps.len() ==> #[trigger] answered(steps, history, winner, value, i),
        reading_fits(steps, winner, j, k),
        crate::script::subject(steps[k as int], history.take(k as int), history[k as int])
            == history[j as int],
    ensures
        met_at(steps, history, k as int),
{
    broadcast use group_judgement;

    reveal(turned_down);
    assert(answered(steps, history, winner, value, j));
    match steps[k as int].expect {
        Expect::Number(rule) => {
            lemma_number_met(steps, history, winner, value, j, k, rule);
        },
        Expect::Stream(rule) => {
            lemma_stream_met(steps, history, winner, value, j, k, rule);
        },
        _ => {},
    }
}

/// A script passes on the answers of a sound server where each of its steps asks for exactly what
/// such a server answers.
pub proof fn what_fits_passes(
    steps: Seq<Step>,
    history: Seq<Reply>,
    winner: u64,
    value: spec_fn(Entry) -> Seq<u8>,
)
    requires
        history.len() == steps.len(),
        faithful(value),
        forall|k: nat| k < steps.len() ==> #[trigger] fits(steps, winner, k),
        forall|k: nat| k < steps.len() ==> #[trigger] answered(steps, history, winner, value, k),
    ensures
        passes(steps, history),
{
    assert forall|k: int| 0 <= k < steps.len() implies #[trigger] met_at(steps, history, k) by {
        lemma_step_met(steps, history, winner, value, k as nat);
    }
}

proof fn lemma_step_met(
    steps: Seq<Step>,
    history: Seq<Reply>,
    winner: u64,
    value: spec_fn(Entry) -> Seq<u8>,
    k: nat,
)
    requires
        k < steps.len(),
        history.len() == steps.len(),
        faithful(value),
        fits(steps, winner, k),
        forall|i: nat| i < steps.len() ==> #[trigger] answered(steps, history, winner, value, i),
    ensures
        met_at(steps, history, k as int),
{
    broadcast use group_judgement;

    reveal(turned_down);
    assert(answered(steps, history, winner, value, k));
    let s = server_at(steps, winner, k);
    match steps[k as int].action {
        Action::Recall(j) => {
            lemma_reading_met(steps, history, winner, value, j as nat, k);
        },
        Action::Race(_, race) => {
            let h = under(s, race.write.key);
            let r = history[k as int]->Race_0@;
            let losers = steps[k as int].expect->OneWinner_1;
            assert forall|i: int| 0 <= i < r.len() implies crate::model::classify(#[trigger] r[i])
                == (if i == winner {
                Outcome::Won
            } else {
                losers
            }) by {
                if i != winner {
                    assert(race.write_of(i as u64) == race.write_of(i as u64));
                    assert(race.write_of(winner) == race.write_of(winner));
                    assert((i as u64) != winner);
                }
            }
            lemma_losers_add_up(r, winner as int, losers);
            assert(crate::expect::one_winner(r, race.writers, losers));
        },
        Action::ReadPairs(_, q) => {
            let h = under(s, q.key);
            let p = history[k as int]->Pairs_0@;
            assert forall|i: int| 0 <= i < p.len() implies {
                &&& (#[trigger] p[i]).version == i + 1
                &&& p[i].events == 1
                &&& p[i].read@ == p[i].written@
            } by {
                assert(h.kept[i] == (Entry { write: q.write((i + 1) as u64), writer: 0 }));
            }
            let n: u64 = steps[k as int].expect->Intact_0;
            assert(crate::expect::intact(p, n));
        },
        _ => {
            if fate_at(steps, winner, k) is None {
                lemma_reading_met(steps, history, winner, value, k, k);
            }
        },
    }
}

/// Whether every step of a script asks for exactly what a sound server answers.
pub open spec fn all_fit(steps: Seq<Step>, winner: u64) -> bool {
    forall|k: nat| k < steps.len() ==> #[trigger] fits(steps, winner, k)
}

/// Whether the first `n` steps of a script do.
pub open spec fn fit_before(steps: Seq<Step>, winner: u64, n: nat) -> bool
    decreases n,
{
    n == 0 || (fit_before(steps, winner, (n - 1) as nat) && fits(steps, winner, (n - 1) as nat))
}

/// A script fits where each of its steps, one after the other, does.
pub proof fn fitting_is_step_by_step(steps: Seq<Step>, winner: u64, n: nat)
    requires
        fit_before(steps, winner, n),
    ensures
        forall|k: nat| k < n ==> #[trigger] fits(steps, winner, k),
    decreases n,
{
    if n > 0 {
        fitting_is_step_by_step(steps, winner, (n - 1) as nat);
    }
}

/// A sequence that starts with the first event, on a key without events, is taken to its end, and
/// is then what the key holds.
pub proof fn a_first_run_is_taken(h: Held, s: Sequence, writer: u64, n: nat)
    requires
        h.kept.len() == 0,
        !h.barred,
        s.lo == 1,
        n <= s.hi <= crate::model::LAST_EVENT,
    ensures
        all_taken(h, s, writer, n),
        n == 0 ==> sent(h, s, writer, n) == h,
        n > 0 ==> ({
            let after = sent(h, s, writer, n);
            &&& after.kept == Seq::new(
                n,
                |i: int| Entry { write: s.write((i + 1) as u64), writer },
            )
            &&& after.first == 1
            &&& after.sequence == n + if h.carries {
                h.sequence
            } else {
                0
            }
            &&& !after.barred
            &&& !after.carries
        }),
    decreases n,
{
    if n > 0 {
        a_first_run_is_taken(h, s, writer, (n - 1) as nat);
        let before = sent(h, s, writer, (n - 1) as nat);
        let after = sent(h, s, writer, n);
        assert(version(before) == n - 1);
        assert(after.kept =~= Seq::new(
            n,
            |i: int| Entry { write: s.write((i + 1) as u64), writer },
        ));
    }
}

/// Steps that only read leave a server as it is.
pub proof fn reading_changes_nothing(steps: Seq<Step>, winner: u64, a: nat, b: nat)
    requires
        a <= b <= steps.len(),
        forall|k: int|
            a <= k < b ==> (#[trigger] steps[k]).action is ReadAll || steps[k].action is Connect,
    ensures
        server_at(steps, winner, b) == server_at(steps, winner, a),
    decreases b,
{
    if a < b {
        reading_changes_nothing(steps, winner, a, (b - 1) as nat);
    }
}

/// Writers that each write to a key of their own leave there what they sent, and nothing elsewhere.
pub proof fn writers_fill_their_own(s: Server, q: Sequence, n: nat, total: nat, w: u64)
    requires
        n <= total <= u64::MAX,
        w < total,
        q.key.aggregate_id + total <= u128::MAX,
        forall|v: u64| v < total ==> under(s, (#[trigger] q.shifted(v)).key) == nothing(),
    ensures
        under(filled(s, q, n), q.shifted(w).key) == if w < n {
            sent(nothing(), q.shifted(w), w, events_in(q))
        } else {
            nothing()
        },
    decreases n,
{
    if n > 0 {
        let last = (n - 1) as u64;
        writers_fill_their_own(s, q, (n - 1) as nat, total, w);
        writers_fill_their_own(s, q, (n - 1) as nat, total, last);
        if w != last {
            crate::model::writers_have_keys_of_their_own(q, w, last);
        }
    }
}

} // verus!
