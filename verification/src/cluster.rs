//! What becomes of two nodes and their store over the steps of a script: which of them run, which
//! of them leads and what they hold. A script is sound where each of its steps reaches what it asks
//! and asks for what two sound nodes answer.

use crate::bench::{Node, Who, other, resolve};
use crate::expect::{Expect, FallbackRule, LeaseRule, ListingRule, NumberRule, StreamRule};
use crate::ledger::events_in;
use crate::model::{AggregateKey, Write};
use crate::script::{Action, Patience, Prefix, Step, Target};
use vstd::prelude::*;

verus! {

/// How a node fares.
pub struct Place {
    pub up: bool,
    /// There is a connection to it.
    pub linked: bool,
    /// It came back, and nothing was written since.
    pub behind: bool,
    /// How many events there were of each aggregate when it stopped.
    pub had: Map<AggregateKey, nat>,
}

/// How two nodes and their store fare.
pub struct Cluster {
    pub a: Place,
    pub b: Place,
    /// The node that leads; none while it is open which.
    pub leads: Option<Node>,
    /// How often the lead has passed on.
    pub terms: nat,
    /// How often a node that did not lead was lost.
    pub lost: nat,
    /// A link was cut, so that who leads is no longer told by who runs.
    pub cut: bool,
    /// The store answers.
    pub store: bool,
    /// How many events were taken for each aggregate.
    pub events: Map<AggregateKey, nat>,
}

/// A node that was not started.
pub open spec fn idle() -> Place {
    Place { up: false, linked: false, behind: false, had: Map::empty() }
}

/// Two nodes that were not started.
pub open spec fn quiet() -> Cluster {
    Cluster {
        a: idle(),
        b: idle(),
        leads: None,
        terms: 0,
        lost: 0,
        cut: false,
        store: false,
        events: Map::empty(),
    }
}

/// How a node fares in a cluster.
pub open spec fn place(c: Cluster, n: Node) -> Place {
    match n {
        Node::A => c.a,
        Node::B => c.b,
    }
}

/// A cluster in which a node fares otherwise.
pub open spec fn put(c: Cluster, n: Node, p: Place) -> Cluster {
    match n {
        Node::A => Cluster { a: p, ..c },
        Node::B => Cluster { b: p, ..c },
    }
}

/// A number that is kept under a key.
pub open spec fn tallied(m: Map<AggregateKey, nat>, key: AggregateKey) -> nat {
    if m.contains_key(key) {
        m[key]
    } else {
        0
    }
}

/// A cluster that has taken `n` more events of an aggregate on a node, which leads from then on where
/// that was open.
pub open spec fn took(c: Cluster, node: Node, key: AggregateKey, n: nat) -> Cluster {
    Cluster {
        a: Place { behind: false, ..c.a },
        b: Place { behind: false, ..c.b },
        leads: if c.leads is None {
            Some(node)
        } else {
            c.leads
        },
        terms: if c.leads is None {
            c.terms + 1
        } else {
            c.terms
        },
        events: c.events.insert(key, tallied(c.events, key) + n),
        ..c
    }
}

/// A cluster after a pause: the only node that runs leads, once five seconds have passed.
pub open spec fn rested(c: Cluster, ms: u64) -> Cluster {
    if ms >= 5000 && c.leads is None && !c.cut && c.a.up != c.b.up {
        Cluster {
            leads: Some(
                if c.a.up {
                    Node::A
                } else {
                    Node::B
                },
            ),
            terms: c.terms + 1,
            ..c
        }
    } else {
        c
    }
}

/// The cluster after a step. At first `lead` leads, and it is the node that a script means by its
/// leader.
#[verifier::opaque]
pub open spec fn moved(c: Cluster, step: Step, lead: Node) -> Cluster {
    match step.action {
        Action::StartStore { .. } => Cluster { store: true, ..c },
        Action::PauseStore => Cluster { store: false, ..c },
        Action::StopStore => Cluster { store: false, ..c },
        Action::StartNode { node, .. } => {
            let started = put(c, node, Place { up: true, ..idle() });
            Cluster {
                leads: if node == lead && c.terms == 0 {
                    Some(lead)
                } else {
                    c.leads
                },
                ..started
            }
        },
        Action::StopNode(who) => {
            let n = resolve(who, lead);
            let gone = put(c, n, Place { had: c.events, ..idle() });
            if c.leads == Some(n) {
                Cluster { leads: None, ..gone }
            } else {
                Cluster { lost: c.lost + 1, ..gone }
            }
        },
        Action::RestartNode(who) => {
            let n = resolve(who, lead);
            put(c, n, Place { up: true, linked: false, behind: true, ..place(c, n) })
        },
        Action::Block(_) => Cluster { cut: true, ..c },
        Action::Sleep(ms) => rested(c, ms),
        Action::Connect(who) => {
            let n = resolve(who, lead);
            put(c, n, Place { linked: true, ..place(c, n) })
        },
        Action::ConnectTls(_) => Cluster { a: Place { linked: true, ..c.a }, ..c },
        Action::Disconnect(who) => {
            let n = resolve(who, lead);
            put(c, n, Place { linked: false, ..place(c, n) })
        },
        Action::WriteEach(v, _) => took(c, lead, v.key, 1),
        Action::WriteCounted(who, key, _, _) => took(c, resolve(who, lead), key, 1),
        Action::WriteLarge(who, key, lo, hi, _) => if lo <= hi {
            took(c, resolve(who, lead), key, (hi - lo + 1) as nat)
        } else {
            c
        },
        Action::WriteSequence(who, q) => took(c, resolve(who, lead), q.key, events_in(q)),
        _ => match writing(step.action) {
            Some((who, w)) => if step.expect == Expect::Accepted {
                took(c, resolve(who, lead), w.key, 1)
            } else {
                c
            },
            None => c,
        },
    }
}

/// The node and the write of an action that sends one.
pub open spec fn writing(action: Action) -> Option<(Who, Write)> {
    match action {
        Action::Write(who, w) => Some((who, w)),
        Action::WriteRenewing(who, w) => Some((who, w)),
        Action::WriteFresh(who, w) => Some((who, w)),
        _ => None,
    }
}

/// The cluster before step `k`.
pub open spec fn cluster_at(steps: Seq<Step>, lead: Node, k: nat) -> Cluster
    decreases k,
{
    if k == 0 {
        quiet()
    } else {
        moved(cluster_at(steps, lead, (k - 1) as nat), steps[k - 1], lead)
    }
}

/// The node that an action asks, and whether it does so over the connection to it.
pub open spec fn asked(action: Action) -> Option<(Who, bool)> {
    match action {
        Action::Write(who, _) => Some((who, true)),
        Action::WriteRenewing(who, _) => Some((who, true)),
        Action::WriteFresh(who, _) => Some((who, false)),
        Action::WriteSequence(who, _) => Some((who, false)),
        Action::WriteTogether(who, _, _) => Some((who, true)),
        Action::WriteMany(who, _, _) => Some((who, false)),
        Action::Race(who, _) => Some((who, false)),
        Action::Probe(who, _) => Some((who, false)),
        Action::Pour { who, .. } => Some((who, true)),
        Action::Version(who, _) => Some((who, true)),
        Action::LastSequence(who, _) => Some((who, true)),
        Action::Read(who, _, _) => Some((who, true)),
        Action::ReadAll(who, _) => Some((who, true)),
        Action::ReadPairs(who, _) => Some((who, true)),
        Action::Count(who, _) => Some((who, true)),
        Action::CountFresh(who, _) => Some((who, false)),
        Action::CountBoth(who, _, _) => Some((who, false)),
        Action::AwaitConverged(who, _, _) => Some((who, true)),
        Action::WriteCounted(who, _, _, _) => Some((who, true)),
        Action::WriteLarge(who, _, _, _, _) => Some((who, true)),
        Action::AwaitCount(who, _, _, _) => Some((who, false)),
        Action::Trim(who, _, _) => Some((who, true)),
        Action::Delete(who, _) => Some((who, true)),
        Action::DeleteTogether(who, _, _) => Some((who, true)),
        Action::IsLeader(who) => Some((who, false)),
        Action::ReadAllFresh(who, _) => Some((who, false)),
        Action::ListLogFiles(who) => Some((who, false)),
        Action::Drive { who, .. } => Some((who, false)),
        Action::Connect(who) => Some((who, false)),
        _ => None,
    }
}

/// Whether an action reaches what it is about: a node that it asks runs, and there is a connection to
/// it where it needs one; a node that it stops runs and one that it starts does not; and the store
/// answers where it is asked.
pub open spec fn reaches(c: Cluster, action: Action, lead: Node) -> bool {
    match action {
        Action::StartNode { node, .. } => !place(c, node).up,
        Action::StopNode(who) => place(c, resolve(who, lead)).up,
        Action::RestartNode(who) => !place(c, resolve(who, lead)).up,
        Action::Unblock(_) => c.cut,
        Action::WriteEach(_, _) => c.a.up && c.b.up && c.a.linked && c.b.linked,
        Action::ProbeBoth(_, _) => c.a.up && c.b.up,
        Action::FindLeader => c.a.up && c.b.up,
        Action::ProbeLeaders => c.a.up && c.b.up,
        Action::ReadLease(_) => c.store,
        Action::SampleLease { .. } => c.store,
        Action::ReadMembership(_) => c.store,
        Action::ListObjects(_) => c.store,
        Action::ReadFallback(_, _) => c.store,
        Action::ReadLastFallback(_) => c.store,
        Action::SeedObjects(_, _, _, _) => c.store,
        Action::ReadSeeded => c.store,
        Action::CountFallback(_) => c.store,
        Action::PauseStore => c.store,
        Action::StopStore => c.store,
        _ => match asked(action) {
            Some((who, linked)) => {
                let p = place(c, resolve(who, lead));
                p.up && (linked ==> p.linked)
            },
            None => true,
        },
    }
}

/// Whether a node takes writes: it leads, and what it takes is kept by the other node or by the store.
pub open spec fn takes(c: Cluster, n: Node) -> bool {
    c.leads == Some(n) && (place(c, other(n)).up || c.store)
}

/// Whether a write that has to be accepted is one that is: its node takes writes, or comes to while
/// it is tried again; the aggregate is there, or the write may create it; and it expects the number of
/// writes that were taken before it. A write that has to be turned down goes to a node that takes
/// none.
pub open spec fn write_is_sound(c: Cluster, step: Step, n: Node, w: Write) -> bool {
    match step.expect {
        Expect::Accepted => {
            &&& c.cut || takes(c, n) || (c.leads is None && !(step.patience is Once) && c.store)
            &&& tallied(c.events, w.key) == 0 ==> w.allow_create
            &&& w.expected_version is Some ==> w.expected_version->0 == tallied(c.events, w.key)
        },
        Expect::Rejected => c.cut || !takes(c, n),
        Expect::NotLeader => !c.cut && c.leads == Some(other(n)),
        Expect::Redirect => !c.cut && c.leads == Some(other(n)),
        Expect::FlagOther(_) => true,
        Expect::Anything => true,
        _ => false,
    }
}

/// The node and the aggregate whose events an action counts or reads.
pub open spec fn counting(action: Action, lead: Node) -> Option<(Node, AggregateKey)> {
    match action {
        Action::Count(who, key) => Some((resolve(who, lead), key)),
        Action::CountFresh(who, key) => Some((resolve(who, lead), key)),
        Action::AwaitConverged(who, key, _) => Some((resolve(who, lead), key)),
        Action::AwaitCount(who, key, _, _) => Some((resolve(who, lead), key)),
        Action::ReadAll(who, key) => Some((resolve(who, lead), key)),
        Action::ReadAllFresh(who, key) => Some((resolve(who, lead), key)),
        _ => None,
    }
}

/// How many events an action waits for, where it waits for some.
pub open spec fn awaited(action: Action) -> Option<u64> {
    match action {
        Action::AwaitConverged(_, _, n) => Some(n),
        Action::AwaitCount(_, _, Target::Events(n), _) => Some(n),
        _ => None,
    }
}

/// Whether a count of a node's events, got by step `j`, is what step `k` asks for: all that were taken,
/// or, on a node that has just come back, those that there were when it stopped; and no more than were
/// taken where it is a lower bound.
pub open spec fn count_is_sound(
    steps: Seq<Step>,
    lead: Node,
    j: nat,
    k: nat,
    rule: NumberRule,
) -> bool {
    let c = cluster_at(steps, lead, j);
    counting(steps[j as int].action, lead) matches Some((n, key)) && {
        let taken = tallied(c.events, key);
        let had = tallied(place(c, n).had, key);
        match rule {
            NumberRule::Is(m) => {
                &&& m == taken || (place(c, n).behind && m == had)
                &&& awaited(steps[j as int].action) matches Some(t) ==> t == m
            },
            NumberRule::AtLeast(m) => {
                &&& 0 < m <= taken
                &&& had <= m || !place(c, n).behind
                &&& awaited(steps[j as int].action) matches Some(t) ==> t == m
            },
            NumberRule::Same(at) => at < k && counting(steps[at as int].action, lead) == Some(
                (other(n), key),
            ),
            NumberRule::Plus(at, by) => at < k && (counting(
                steps[at as int].action,
                lead,
            ) matches Some((_, earlier)) && earlier == key && by == taken - tallied(
                cluster_at(steps, lead, at as nat).events,
                key,
            )),
            NumberRule::OnePlusAcked(at) => at < k && (
            steps[at as int].action matches Action::Pour { sequence, .. } && sequence.key == key
                && taken == 1),
            _ => false,
        }
    }
}

/// Whether a stream that step `j` reads is what is asked for: all events that were taken.
pub open spec fn stream_is_sound(steps: Seq<Step>, lead: Node, j: nat, rule: StreamRule) -> bool {
    let c = cluster_at(steps, lead, j);
    counting(steps[j as int].action, lead) matches Some((n, key)) && {
        let taken = tallied(c.events, key);
        match rule {
            StreamRule::Count(m) => m == taken,
            StreamRule::Events(m) => m == taken,
            StreamRule::ExactlyOnce(m) => m == taken,
            StreamRule::Versions(lo, hi) => lo == 1 && hi == taken,
            StreamRule::NotEmpty => taken > 0,
            StreamRule::OneEventEach => true,
            StreamRule::OnePlusAcked(at) => at < j && (
            steps[at as int].action matches Action::Pour { sequence, .. } && sequence.key == key
                && taken == 1),
            _ => false,
        }
    }
}

/// Whether step `i` read the same object of the store as step `j` does later.
pub open spec fn read_before(steps: Seq<Step>, i: usize, j: nat) -> bool {
    i < j && steps[i as int].action == steps[j as int].action
}

/// Whether a lease that step `j` reads is what is asked for: it has moved on where the lead has
/// passed on or a node was lost, names another node where the lead has passed on, and the same node
/// where it has not or has come back.
pub open spec fn lease_is_sound(steps: Seq<Step>, lead: Node, j: nat, rule: LeaseRule) -> bool {
    let now = cluster_at(steps, lead, j);
    steps[j as int].action is ReadLease && match rule {
        LeaseRule::IndexIs(n) => n == 1 && now.terms == 0 && !now.cut,
        LeaseRule::IndexAfter(i) => read_before(steps, i, j) && {
            let was = cluster_at(steps, lead, i as nat);
            now.terms == was.terms + 1 || (now.terms == was.terms && now.lost == was.lost + 1)
        },
        LeaseRule::IndexAbove(i) => read_before(steps, i, j) && {
            let was = cluster_at(steps, lead, i as nat);
            now.terms > was.terms || (now.cut && !was.cut)
        },
        LeaseRule::IndexSame(i) => read_before(steps, i, j) && now.terms == cluster_at(
            steps,
            lead,
            i as nat,
        ).terms && !now.cut,
        LeaseRule::LeaderSame(i) => read_before(steps, i, j) && now.leads is Some && now.leads
            == cluster_at(steps, lead, i as nat).leads,
        LeaseRule::LeaderOther(i) => read_before(steps, i, j) && now.leads is Some && cluster_at(
            steps,
            lead,
            i as nat,
        ).leads == Some(other(now.leads->0)),
        LeaseRule::EpochSame(i) => read_before(steps, i, j) && now.terms == cluster_at(
            steps,
            lead,
            i as nat,
        ).terms && !now.cut,
        LeaseRule::IndexWithin(i, _) => read_before(steps, i, j),
        LeaseRule::EpochNotBelow(i) => read_before(steps, i, j),
        LeaseRule::EpochWithin(i, _) => read_before(steps, i, j),
        LeaseRule::EpochAbove(i) => read_before(steps, i, j) && (now.leads
            != cluster_at(steps, lead, i as nat).leads),
        LeaseRule::ExpiryAbove(i) => read_before(steps, i, j) && now.leads == cluster_at(
            steps,
            lead,
            i as nat,
        ).leads,
        LeaseRule::LeaderSet => now.leads is Some,
        LeaseRule::ExpirySet => now.leads is Some,
        LeaseRule::IndexAtLeast(n) => n >= 1,
    }
}

/// Whether both nodes run and have all along.
pub open spec fn whole(c: Cluster) -> bool {
    c.a.up && c.b.up && c.lost == 0 && c.terms == 0 && !c.cut
}

/// Whether a listing that step `j` makes is what is asked for: nothing stands in for a node while
/// both run, something does once one is missing, and two listings that are held against each other
/// are of the same objects.
pub open spec fn listing_is_sound(steps: Seq<Step>, lead: Node, j: nat, rule: ListingRule) -> bool {
    let c = cluster_at(steps, lead, j);
    steps[j as int].action is ListObjects && match rule {
        ListingRule::Empty => whole(c),
        ListingRule::AtLeast(n) => n >= 1 && !whole(c),
        ListingRule::AsMany(i) => read_before(steps, i, j) && c.a.up && c.b.up,
        ListingRule::NoMore(i) => read_before(steps, i, j) && c.a.up && c.b.up,
        ListingRule::Sorted => true,
        ListingRule::SomeSince(i) => i < j && steps[i as int].action is ListObjects && !whole(
            cluster_at(steps, lead, i as nat),
        ),
    }
}

/// The listing that an action takes an object from.
pub open spec fn taken_from(action: Action) -> Option<usize> {
    match action {
        Action::ReadFallback(at, _) => Some(at),
        Action::ReadLastFallback(at) => Some(at),
        _ => None,
    }
}

/// Whether an object that step `j` reads is what is asked for: it is of the shard whose objects were
/// listed, and one that must be above another stands behind it in a listing of the same shard.
pub open spec fn fallback_is_sound(steps: Seq<Step>, j: nat, rule: FallbackRule) -> bool {
    taken_from(steps[j as int].action) matches Some(at) && at < j
        && steps[at as int].action is ListObjects && match rule {
        FallbackRule::Shard(s) => steps[at as int].action == Action::ListObjects(Prefix::Shard(s)),
        FallbackRule::NotEmpty => true,
        FallbackRule::IndexOfFirst => true,
        FallbackRule::Above(i) => i < j && (
        steps[i as int].action matches Action::ReadFallback(from, lower) && (
        steps[j as int].action matches Action::ReadFallback(to, upper) && lower < upper && from < i
            && steps[from as int].action == steps[to as int].action)),
        FallbackRule::TermOf(i) => i < j && steps[i as int].action is ReadLease,
    }
}

/// Whether a later step looks at what step `k` gets.
pub open spec fn looked_at(steps: Seq<Step>, k: nat) -> bool {
    exists|m: int| k < m < steps.len() && #[trigger] looks_at(steps[m], k)
}

/// The step whose lease a lease is held against.
pub open spec fn held_against(rule: LeaseRule) -> Option<nat> {
    match rule {
        LeaseRule::IndexAfter(at) => Some(at as nat),
        LeaseRule::IndexAbove(at) => Some(at as nat),
        LeaseRule::IndexSame(at) => Some(at as nat),
        LeaseRule::IndexWithin(at, _) => Some(at as nat),
        LeaseRule::EpochNotBelow(at) => Some(at as nat),
        LeaseRule::EpochAbove(at) => Some(at as nat),
        LeaseRule::EpochSame(at) => Some(at as nat),
        LeaseRule::EpochWithin(at, _) => Some(at as nat),
        LeaseRule::ExpiryAbove(at) => Some(at as nat),
        LeaseRule::LeaderSame(at) => Some(at as nat),
        LeaseRule::LeaderOther(at) => Some(at as nat),
        _ => None,
    }
}

/// Whether a step looks at what step `k` gets.
pub open spec fn looks_at(step: Step, k: nat) -> bool {
    ||| step.action matches Action::Recall(at) && at == k
    ||| step.action matches Action::Compare(at, _) && at == k
    ||| step.action matches Action::Compare(_, at) && at == k
    ||| step.action matches Action::ReadFallback(at, _) && at == k
    ||| step.action matches Action::WriteCounted(_, _, at, _) && at == k
    ||| step.action matches Action::WriteRedirected(at, _) && at == k
    ||| step.expect matches Expect::Number(NumberRule::Same(at)) && at == k
    ||| step.expect matches Expect::CountsReach(at, _) && at == k
    ||| step.expect matches Expect::CountsReach(_, at) && at == k
    ||| step.expect matches Expect::Listing(ListingRule::NoMore(at)) && at == k
    ||| step.expect matches Expect::Listing(ListingRule::AsMany(at)) && at == k
    ||| step.expect matches Expect::Listing(ListingRule::SomeSince(at)) && at <= k
    ||| step.expect matches Expect::RenewalsAtMost(at, _) && at == k
    ||| step.expect matches Expect::Lease(rule) && held_against(rule) == Some(k)
    ||| step.expect matches Expect::FlagOther(at) && at == k
    ||| step.expect matches Expect::Fallback(FallbackRule::TermOf(at)) && at == k
}

/// Whether some step before `k` has put `n` objects with this text into the store.
pub open spec fn seeded_before(steps: Seq<Step>, k: nat, n: u64, text: &'static str) -> bool {
    exists|m: int|
        0 <= m < k && ((#[trigger] steps[m]).action matches Action::SeedObjects(_, lo, hi, t) && lo
            <= hi && n == hi - lo + 1 && t == text)
}

/// Whether what step `j` gets is what step `k` asks for.
#[verifier::opaque]
pub open spec fn answer_is_sound(steps: Seq<Step>, lead: Node, j: nat, k: nat) -> bool {
    let c = cluster_at(steps, lead, j);
    match steps[k as int].expect {
        Expect::Number(NumberRule::AtMost(_)) => steps[j as int].action is SinceStop && (!c.a.up
            || !c.b.up),
        Expect::Number(rule) => match steps[j as int].action {
            Action::Drive { .. } => rule is AtLeast,
            Action::CountFallback(_) => rule is AtLeast && !whole(c),
            _ => count_is_sound(steps, lead, j, k, rule),
        },
        Expect::Stream(rule) => stream_is_sound(steps, lead, j, rule),
        Expect::Lease(rule) => lease_is_sound(steps, lead, j, rule),
        Expect::Listing(rule) => listing_is_sound(steps, lead, j, rule),
        Expect::Fallback(rule) => fallback_is_sound(steps, j, rule),
        Expect::Flag(flag) => match steps[j as int].action {
            Action::IsAlive(who) => flag == place(c, resolve(who, lead)).up,
            Action::IsLeader(who) => flag == (c.leads == Some(resolve(who, lead))),
            Action::ReadMembership(_) => flag == (c.a.up && c.b.up),
            _ => false,
        },
        Expect::OneWriter => c.a.up && c.b.up,
        Expect::SingleLeader => c.a.up && c.b.up,
        Expect::LeaderFound => c.a.up && c.b.up,
        Expect::CountsReach(x, y) => x < k && y < k && (
        steps[j as int].action matches Action::CountBoth(who, v, w) && counting(
            steps[x as int].action,
            lead,
        ) == Some((other(resolve(who, lead)), v)) && counting(steps[y as int].action, lead) == Some(
            (other(resolve(who, lead)), w),
        )),
        Expect::RenewalsAtMost(i, _) => i < k && (
        steps[j as int].action matches Action::SampleLease { path, .. } && steps[i as int].action
            == Action::ReadLease(path)),
        Expect::MoreSegments(i) => read_before(steps, i, j),
        Expect::Summarised => steps[j as int].action is ListLogFiles,
        Expect::Unseen => c.cut && steps[j as int].action is ReadAllFresh,
        Expect::Untouched(n, text) => steps[j as int].action is ReadSeeded && seeded_before(
            steps,
            k,
            n,
            text,
        ),
        Expect::PortOf(who) => steps[j as int].expect is Redirect && c.leads == Some(
            resolve(who, lead),
        ),
        Expect::PortOtherThan(who) => steps[j as int].expect is Redirect && c.leads == Some(
            other(resolve(who, lead)),
        ),
        _ => false,
    }
}

/// Whether step `k` reaches what it asks and asks for what two sound nodes answer.
#[verifier::opaque]
pub open spec fn is_sound(steps: Seq<Step>, lead: Node, k: nat) -> bool {
    sound_in(cluster_at(steps, lead, k), steps, lead, k)
}

/// Whether step `k`, in a cluster that fares like this, reaches what it asks and asks for what two
/// sound nodes answer.
pub open spec fn sound_in(c: Cluster, steps: Seq<Step>, lead: Node, k: nat) -> bool {
    let step = steps[k as int];
    &&& reaches(c, step.action, lead)
    &&& match step.action {
        Action::Recall(j) => j < k && answer_is_sound(steps, lead, j as nat, k),
        Action::WriteSequence(who, q) => {
            &&& step.expect is Accepted
            &&& c.cut || takes(c, resolve(who, lead))
            &&& q.lo == tallied(c.events, q.key) + 1
            &&& q.lo <= q.hi
        },
        Action::WriteLarge(who, key, lo, hi, _) => {
            &&& step.expect is Accepted
            &&& c.cut || takes(c, resolve(who, lead))
            &&& lo == tallied(c.events, key) + 1
            &&& lo <= hi
        },
        Action::WriteCounted(who, key, at, offset) => {
            &&& step.expect is Accepted
            &&& c.cut || takes(c, resolve(who, lead))
            &&& at < k
            &&& counting(steps[at as int].action, lead) == Some((resolve(who, lead), key))
            &&& offset == tallied(c.events, key) - tallied(
                cluster_at(steps, lead, at as nat).events,
                key,
            ) + 1
        },
        Action::WriteRedirected(at, w) => {
            &&& at < k
            &&& steps[at as int].expect is Redirect
            &&& step.expect is Accepted
            &&& writing(steps[at as int].action) matches Some((_, earlier)) && earlier == w
        },
        Action::WriteEach(v, w) => {
            &&& step.expect is OneWriter
            &&& v.key == w.key
            &&& v.allow_create && w.allow_create
        },
        Action::Compare(i, j) => i < k && j < k && i != j && step.expect is Accepted && (counting(
            steps[i as int].action,
            lead,
        ) matches Some((n, key)) && counting(steps[j as int].action, lead) == Some(
            (other(n), key),
        )),
        _ => match writing(step.action) {
            Some((who, w)) => {
                &&& write_is_sound(c, step, resolve(who, lead), w)
                &&& step.expect matches Expect::FlagOther(at) ==> (at < k && (writing(
                    steps[at as int].action,
                ) matches Some((earlier, _)) && resolve(earlier, lead) == other(
                    resolve(who, lead),
                )))
                &&& step.expect is Anything ==> looked_at(steps, k)
            },
            None => match step.expect {
                Expect::Anything => step.action is Sleep || step.action is Disconnect
                    || step.action is StopNode || step.action is Block || step.action is Unblock
                    || step.action is SetNext || step.action is Throttle
                    || step.action is Unthrottle,
                Expect::Accepted => looked_at(steps, k) || sets_up(step.action) || takes_listed(
                    steps,
                    k,
                ),
                Expect::Rejected => step.action is Probe && c.cut,
                _ => answer_is_sound(steps, lead, k, k),
            },
        },
    }
}

/// Whether step `k` takes an object that an earlier step listed.
pub open spec fn takes_listed(steps: Seq<Step>, k: nat) -> bool {
    taken_from(steps[k as int].action) matches Some(at) && at < k
        && steps[at as int].action is ListObjects
}

/// Whether an action is done for what it changes and not for what it is told.
pub open spec fn sets_up(action: Action) -> bool {
    ||| action is StartStore
    ||| action is PauseStore
    ||| action is StopStore
    ||| action is StartNode
    ||| action is RestartNode
    ||| action is StartProxy
    ||| action is Connect
    ||| action is SeedObjects
    ||| action is Pour
}

/// Whether every step of a script reaches what it asks and asks for what two sound nodes answer.
pub open spec fn all_sound(steps: Seq<Step>, lead: Node) -> bool {
    forall|k: nat| k < steps.len() ==> #[trigger] is_sound(steps, lead, k)
}

/// Whether steps `i` and `j` start the two nodes of one cluster: over the same store, with as many
/// shards and under the same lease, at ports of their own.
pub open spec fn are_paired(steps: Seq<Step>, i: int, j: int) -> bool {
    match (steps[i].action, steps[j].action) {
        (
            Action::StartNode { node: m, port: p, config: c, .. },
            Action::StartNode { node: n, port: q, config: d, .. },
        ) => {
            &&& m != n
            &&& p.base is Named || p.offset != q.offset
            &&& c.num_shards == d.num_shards
            &&& c.routing_rule == d.routing_rule
            &&& c.s3_subfolder == d.s3_subfolder
            &&& c.s3_lease_duration_ms == d.s3_lease_duration_ms
            &&& c.heartbeat_lease_duration_ms == d.heartbeat_lease_duration_ms
            &&& c.heartbeat_interval_ms == d.heartbeat_interval_ms
            &&& c.max_clock_drift_ms == d.max_clock_drift_ms
            &&& !c.standalone && !d.standalone
        },
        _ => false,
    }
}

/// Whether the first `n` steps of a script do.
pub open spec fn sound_before(steps: Seq<Step>, lead: Node, n: nat) -> bool
    decreases n,
{
    n == 0 || (sound_before(steps, lead, (n - 1) as nat) && is_sound(steps, lead, (n - 1) as nat))
}

/// A script is sound where each of its steps, one after the other, is.
pub proof fn soundness_is_step_by_step(steps: Seq<Step>, lead: Node, n: nat)
    requires
        sound_before(steps, lead, n),
    ensures
        forall|k: nat| k < n ==> #[trigger] is_sound(steps, lead, k),
    decreases n,
{
    if n > 0 {
        soundness_is_step_by_step(steps, lead, (n - 1) as nat);
    }
}

/// A step of a sound script that asks a node asks one that runs.
pub proof fn sound_steps_ask_running_nodes(steps: Seq<Step>, lead: Node, k: nat)
    requires
        all_sound(steps, lead),
        k < steps.len(),
    ensures
        asked(steps[k as int].action) matches Some((who, _)) ==> place(
            cluster_at(steps, lead, k),
            resolve(who, lead),
        ).up,
{
    reveal(is_sound);
    assert(is_sound(steps, lead, k));
}

/// A node runs exactly where it was started and was not stopped since.
pub proof fn a_node_runs_from_start_to_stop(steps: Seq<Step>, lead: Node, k: nat, n: Node)
    requires
        k < steps.len(),
    ensures
        place(cluster_at(steps, lead, k + 1), n).up == match steps[k as int].action {
            Action::StartNode { node, .. } => node == n || place(cluster_at(steps, lead, k), n).up,
            Action::RestartNode(who) => resolve(who, lead) == n || place(
                cluster_at(steps, lead, k),
                n,
            ).up,
            Action::StopNode(who) => resolve(who, lead) != n && place(
                cluster_at(steps, lead, k),
                n,
            ).up,
            _ => place(cluster_at(steps, lead, k), n).up,
        },
        !place(cluster_at(steps, lead, 0), n).up,
{
    reveal(moved);
}

/// In a sound script a write that has to be accepted at its first try, while no link was cut, goes
/// to the node that leads, and that node runs.
pub proof fn accepted_writes_go_to_the_leader(steps: Seq<Step>, lead: Node, k: nat)
    requires
        all_sound(steps, lead),
        k < steps.len(),
        writing(steps[k as int].action) is Some,
        steps[k as int].expect is Accepted,
        steps[k as int].patience is Once,
        !cluster_at(steps, lead, k).cut,
    ensures
        ({
            let (who, _) = writing(steps[k as int].action)->0;
            let c = cluster_at(steps, lead, k);
            c.leads == Some(resolve(who, lead)) && place(c, resolve(who, lead)).up
        }),
{
    reveal(is_sound);
    assert(is_sound(steps, lead, k));
}

/// A node that leads goes on leading until it is stopped.
pub proof fn the_lead_is_lost_by_stopping(steps: Seq<Step>, lead: Node, k: nat, n: Node)
    requires
        k < steps.len(),
        cluster_at(steps, lead, k).leads == Some(n),
        !(steps[k as int].action is StartNode),
    ensures
        cluster_at(steps, lead, k + 1).leads != Some(n) <==> (
        steps[k as int].action matches Action::StopNode(who) && resolve(who, lead) == n),
{
    reveal(moved);
}

/// Whether step `k` is sound and leads to the cluster `d`.
pub open spec fn leads_to(steps: Seq<Step>, lead: Node, k: nat, d: Cluster) -> bool {
    &&& is_sound(steps, lead, k)
    &&& cluster_at(steps, lead, k + 1) == d
}

pub proof fn lemma_store(steps: Seq<Step>, lead: Node, k: nat)
    requires
        steps[k as int].action is StartStore,
        steps[k as int].expect is Accepted,
    ensures
        ({
            let c = cluster_at(steps, lead, k);
            leads_to(steps, lead, k, (Cluster { store: true, ..c }))
        }),
{
    reveal(is_sound);
    reveal(moved);
}

pub proof fn lemma_store_gone(steps: Seq<Step>, lead: Node, k: nat)
    requires
        steps[k as int].action is PauseStore || steps[k as int].action is StopStore,
        steps[k as int].expect is Accepted,
        cluster_at(steps, lead, k).store,
    ensures
        ({
            let c = cluster_at(steps, lead, k);
            leads_to(steps, lead, k, (Cluster { store: false, ..c }))
        }),
{
    reveal(is_sound);
    reveal(moved);
}

pub proof fn lemma_start(steps: Seq<Step>, lead: Node, k: nat)
    requires
        steps[k as int].action is StartNode,
        steps[k as int].expect is Accepted,
        !place(cluster_at(steps, lead, k), steps[k as int].action->StartNode_node).up,
        cluster_at(steps, lead, k).terms == 0,
    ensures
        ({
            let c = cluster_at(steps, lead, k);
            leads_to(steps, lead, k, (Cluster {
                leads: if steps[k as int].action->StartNode_node == lead {
                    Some(lead)
                } else {
                    c.leads
                },
                ..put(c, steps[k as int].action->StartNode_node, Place { up: true, ..idle() })
            }))
        }),
{
    reveal(is_sound);
    reveal(moved);
}

pub proof fn lemma_stop(steps: Seq<Step>, lead: Node, k: nat)
    requires
        steps[k as int].action is StopNode,
        steps[k as int].expect is Anything,
        place(cluster_at(steps, lead, k), resolve(steps[k as int].action->StopNode_0, lead)).up,
    ensures
        ({
            let c = cluster_at(steps, lead, k);
            let n = resolve(steps[k as int].action->StopNode_0, lead);
            let gone = put(c, n, Place { had: c.events, ..idle() });
            leads_to(
                steps,
                lead,
                k,
                if c.leads == Some(n) {
                    Cluster { leads: None, ..gone }
                } else {
                    Cluster { lost: c.lost + 1, ..gone }
                },
            )
        }),
{
    reveal(is_sound);
    reveal(moved);
}

pub proof fn lemma_restart(steps: Seq<Step>, lead: Node, k: nat)
    requires
        steps[k as int].action is RestartNode,
        steps[k as int].expect is Accepted,
        !place(cluster_at(steps, lead, k), resolve(steps[k as int].action->RestartNode_0, lead)).up,
    ensures
        ({
            let c = cluster_at(steps, lead, k);
            let n = resolve(steps[k as int].action->RestartNode_0, lead);
            leads_to(steps, lead, k, put(c, n, Place { up: true, linked: false, behind: true, ..place(c, n) }))
        }),
{
    reveal(is_sound);
    reveal(moved);
}

pub proof fn lemma_connect(steps: Seq<Step>, lead: Node, k: nat)
    requires
        steps[k as int].action is Connect,
        steps[k as int].expect is Accepted,
        place(cluster_at(steps, lead, k), resolve(steps[k as int].action->Connect_0, lead)).up,
    ensures
        ({
            let c = cluster_at(steps, lead, k);
            let n = resolve(steps[k as int].action->Connect_0, lead);
            leads_to(steps, lead, k, put(c, n, Place { linked: true, ..place(c, n) }))
        }),
{
    reveal(is_sound);
    reveal(moved);
}

pub proof fn lemma_disconnect(steps: Seq<Step>, lead: Node, k: nat)
    requires
        steps[k as int].action is Disconnect,
        steps[k as int].expect is Anything,
    ensures
        ({
            let c = cluster_at(steps, lead, k);
            let n = resolve(steps[k as int].action->Disconnect_0, lead);
            leads_to(steps, lead, k, put(c, n, Place { linked: false, ..place(c, n) }))
        }),
{
    reveal(is_sound);
    reveal(moved);
}

pub proof fn lemma_block(steps: Seq<Step>, lead: Node, k: nat)
    requires
        steps[k as int].action is Block,
        steps[k as int].expect is Anything,
    ensures
        ({
            let c = cluster_at(steps, lead, k);
            leads_to(steps, lead, k, (Cluster { cut: true, ..c }))
        }),
{
    reveal(is_sound);
    reveal(moved);
}

pub proof fn lemma_pause(steps: Seq<Step>, lead: Node, k: nat)
    requires
        steps[k as int].action is Sleep,
        steps[k as int].expect is Anything,
    ensures
        ({
            let c = cluster_at(steps, lead, k);
            leads_to(steps, lead, k, rested(c, steps[k as int].action->Sleep_0))
        }),
{
    reveal(is_sound);
    reveal(moved);
}

pub proof fn lemma_taken(steps: Seq<Step>, lead: Node, k: nat)
    requires
        writing(steps[k as int].action) is Some,
        steps[k as int].expect is Accepted,
        ({
            let c = cluster_at(steps, lead, k);
            let (who, w) = writing(steps[k as int].action)->0;
            let n = resolve(who, lead);
            &&& place(c, n).up
            &&& place(c, n).linked || steps[k as int].action is WriteFresh
            &&& c.cut || takes(c, n) || (c.leads is None && !(steps[k as int].patience is Once)
                && c.store)
            &&& tallied(c.events, w.key) == 0 ==> w.allow_create
            &&& w.expected_version is Some ==> w.expected_version->0 == tallied(c.events, w.key)
        }),
    ensures
        ({
            let (who, w) = writing(steps[k as int].action)->0;
            leads_to(
                steps,
                lead,
                k,
                took(cluster_at(steps, lead, k), resolve(who, lead), w.key, 1),
            )
        }),
{
    reveal(is_sound);
    reveal(moved);
}

pub proof fn lemma_refused(steps: Seq<Step>, lead: Node, k: nat)
    requires
        writing(steps[k as int].action) is Some,
        ({
            let c = cluster_at(steps, lead, k);
            let (who, _) = writing(steps[k as int].action)->0;
            let n = resolve(who, lead);
            &&& place(c, n).up
            &&& place(c, n).linked || steps[k as int].action is WriteFresh
            &&& (steps[k as int].expect is Rejected && (c.cut || !takes(c, n))) || ((
            steps[k as int].expect is NotLeader || steps[k as int].expect is Redirect) && !c.cut
                && c.leads == Some(other(n)))
        }),
    ensures
        leads_to(steps, lead, k, cluster_at(steps, lead, k)),
{
    reveal(is_sound);
    reveal(moved);
}

pub proof fn lemma_run_taken(steps: Seq<Step>, lead: Node, k: nat)
    requires
        steps[k as int].action is WriteSequence,
        steps[k as int].expect is Accepted,
        ({
            let c = cluster_at(steps, lead, k);
            let n = resolve(steps[k as int].action->WriteSequence_0, lead);
            let q = steps[k as int].action->WriteSequence_1;
            &&& place(c, n).up
            &&& c.cut || takes(c, n)
            &&& q.lo == tallied(c.events, q.key) + 1
            &&& q.lo <= q.hi
        }),
    ensures
        ({
            let q = steps[k as int].action->WriteSequence_1;
            leads_to(
                steps,
                lead,
                k,
                took(
                    cluster_at(steps, lead, k),
                    resolve(steps[k as int].action->WriteSequence_0, lead),
                    q.key,
                    (q.hi - q.lo + 1) as nat,
                ),
            )
        }),
{
    reveal(is_sound);
    reveal(moved);
}

pub proof fn lemma_large_taken(steps: Seq<Step>, lead: Node, k: nat)
    requires
        steps[k as int].expect is Accepted,
        steps[k as int].action matches Action::WriteLarge(who, key, lo, hi, _) && {
            let c = cluster_at(steps, lead, k);
            let n = resolve(who, lead);
            &&& place(c, n).up
            &&& place(c, n).linked
            &&& c.cut || takes(c, n)
            &&& lo == tallied(c.events, key) + 1
            &&& lo <= hi
        },
    ensures
        steps[k as int].action matches Action::WriteLarge(who, key, lo, hi, _) && leads_to(
            steps,
            lead,
            k,
            took(cluster_at(steps, lead, k), resolve(who, lead), key, (hi - lo + 1) as nat),
        ),
{
    reveal(is_sound);
    reveal(moved);
}

pub proof fn lemma_counted_taken(steps: Seq<Step>, lead: Node, k: nat)
    requires
        steps[k as int].expect is Accepted,
        steps[k as int].action matches Action::WriteCounted(who, key, at, offset) && {
            let c = cluster_at(steps, lead, k);
            let n = resolve(who, lead);
            &&& place(c, n).up
            &&& place(c, n).linked
            &&& c.cut || takes(c, n)
            &&& at < k
            &&& counting(steps[at as int].action, lead) == Some((n, key))
            &&& offset == tallied(c.events, key) - tallied(
                cluster_at(steps, lead, at as nat).events,
                key,
            ) + 1
        },
    ensures
        steps[k as int].action matches Action::WriteCounted(who, key, _, _) && leads_to(
            steps,
            lead,
            k,
            took(cluster_at(steps, lead, k), resolve(who, lead), key, 1),
        ),
{
    reveal(is_sound);
    reveal(moved);
}

pub proof fn lemma_one_of_two_taken(steps: Seq<Step>, lead: Node, k: nat)
    requires
        steps[k as int].expect is OneWriter,
        steps[k as int].action matches Action::WriteEach(v, w) && {
            let c = cluster_at(steps, lead, k);
            &&& c.a.up && c.b.up && c.a.linked && c.b.linked
            &&& v.key == w.key
            &&& v.allow_create && w.allow_create
        },
    ensures
        steps[k as int].action matches Action::WriteEach(v, _) && leads_to(
            steps,
            lead,
            k,
            took(cluster_at(steps, lead, k), lead, v.key, 1),
        ),
{
    reveal(is_sound);
    reveal(moved);
}

/// Whether an action leaves the nodes and the store as they are.
pub open spec fn looks_only(action: Action) -> bool {
    ||| counting(action, Node::A) is Some
    ||| action is CountBoth
    ||| action is Compare
    ||| action is WriteRedirected
    ||| action is ReadLease
    ||| action is SampleLease
    ||| action is ReadMembership
    ||| action is ListObjects
    ||| action is ReadFallback
    ||| action is ReadLastFallback
    ||| action is SeedObjects
    ||| action is ReadSeeded
    ||| action is ListLogFiles
    ||| action is FindLeader
    ||| action is ProbeLeaders
    ||| action is ProbeBoth
    ||| action is StartProxy
    ||| action is Unblock
    ||| action is Throttle
    ||| action is Unthrottle
    ||| action is SetNext
    ||| action is Probe
    ||| action is Pour
    ||| action is SinceStop
    ||| action is IsLeader
    ||| action is IsAlive
    ||| action is Drive
    ||| action is CountFallback
}

pub proof fn lemma_by_count(steps: Seq<Step>, lead: Node, j: nat, k: nat)
    requires
        steps[k as int].expect is Number,
        counting(steps[j as int].action, lead) is Some,
        count_is_sound(steps, lead, j, k, steps[k as int].expect->Number_0),
    ensures
        answer_is_sound(steps, lead, j, k),
{
    reveal(answer_is_sound);
}

pub proof fn lemma_by_stream(steps: Seq<Step>, lead: Node, j: nat, k: nat)
    requires
        steps[k as int].expect is Stream,
        stream_is_sound(steps, lead, j, steps[k as int].expect->Stream_0),
    ensures
        answer_is_sound(steps, lead, j, k),
{
    reveal(answer_is_sound);
}

pub proof fn lemma_by_lease(steps: Seq<Step>, lead: Node, j: nat, k: nat)
    requires
        steps[k as int].expect is Lease,
        lease_is_sound(steps, lead, j, steps[k as int].expect->Lease_0),
    ensures
        answer_is_sound(steps, lead, j, k),
{
    reveal(answer_is_sound);
}

pub proof fn lemma_by_listing(steps: Seq<Step>, lead: Node, j: nat, k: nat)
    requires
        steps[k as int].expect is Listing,
        listing_is_sound(steps, lead, j, steps[k as int].expect->Listing_0),
    ensures
        answer_is_sound(steps, lead, j, k),
{
    reveal(answer_is_sound);
}

pub proof fn lemma_by_fallback(steps: Seq<Step>, lead: Node, j: nat, k: nat)
    requires
        steps[k as int].expect is Fallback,
        fallback_is_sound(steps, j, steps[k as int].expect->Fallback_0),
    ensures
        answer_is_sound(steps, lead, j, k),
{
    reveal(answer_is_sound);
}

/// A step that is told something, which it is held against at once.
pub proof fn lemma_told(steps: Seq<Step>, lead: Node, k: nat)
    requires
        looks_only(steps[k as int].action),
        !(steps[k as int].action is Compare),
        !(steps[k as int].action is WriteRedirected),
        !(steps[k as int].expect is Anything),
        !(steps[k as int].expect is Accepted),
        !(steps[k as int].expect is Rejected),
        reaches(cluster_at(steps, lead, k), steps[k as int].action, lead),
        answer_is_sound(steps, lead, k, k),
    ensures
        leads_to(steps, lead, k, cluster_at(steps, lead, k)),
{
    reveal(is_sound);
    reveal(moved);
}

/// A step that is told something which step `m` looks at.
pub proof fn lemma_kept(steps: Seq<Step>, lead: Node, k: nat, m: int)
    requires
        looks_only(steps[k as int].action),
        !(steps[k as int].action is Compare),
        !(steps[k as int].action is WriteRedirected),
        steps[k as int].expect is Accepted,
        reaches(cluster_at(steps, lead, k), steps[k as int].action, lead),
        k < m < steps.len(),
        looks_at(steps[m], k),
    ensures
        leads_to(steps, lead, k, cluster_at(steps, lead, k)),
{
    reveal(is_sound);
    reveal(moved);
}

/// A step that is done for what it changes elsewhere.
pub proof fn lemma_set_up(steps: Seq<Step>, lead: Node, k: nat)
    requires
        looks_only(steps[k as int].action),
        reaches(cluster_at(steps, lead, k), steps[k as int].action, lead),
        (steps[k as int].expect is Accepted && (steps[k as int].action is StartProxy
            || steps[k as int].action is SeedObjects || steps[k as int].action is Pour
            || takes_listed(steps, k))) || (
        steps[k as int].expect is Anything && (steps[k as int].action is Unblock
            || steps[k as int].action is Throttle || steps[k as int].action is Unthrottle
            || steps[k as int].action is SetNext)) || (steps[k as int].expect is Rejected
            && steps[k as int].action is Probe && cluster_at(steps, lead, k).cut),
    ensures
        leads_to(steps, lead, k, cluster_at(steps, lead, k)),
{
    reveal(is_sound);
    reveal(moved);
}

/// A step that looks at what step `j` got.
pub proof fn lemma_recalled(steps: Seq<Step>, lead: Node, k: nat)
    requires
        steps[k as int].action matches Action::Recall(j) && j < k && answer_is_sound(
            steps,
            lead,
            j as nat,
            k,
        ),
    ensures
        leads_to(steps, lead, k, cluster_at(steps, lead, k)),
{
    reveal(is_sound);
    reveal(moved);
}

/// A write whose outcome step `m` looks at.
pub proof fn lemma_tried(steps: Seq<Step>, lead: Node, k: nat, m: int)
    requires
        steps[k as int].action is Write,
        ({
            let n = resolve(steps[k as int].action->Write_0, lead);
            &&& place(cluster_at(steps, lead, k), n).up
            &&& place(cluster_at(steps, lead, k), n).linked
            &&& (steps[k as int].expect is Anything && k < m < steps.len() && looks_at(steps[m], k))
                || (steps[k as int].expect matches Expect::FlagOther(at) && at < k && (writing(
                steps[at as int].action,
            ) matches Some((earlier, _)) && resolve(earlier, lead) == other(n)))
        }),
    ensures
        leads_to(steps, lead, k, cluster_at(steps, lead, k)),
{
    reveal(is_sound);
    reveal(moved);
}

/// A comparison of what two nodes hold of an aggregate, or a write to where another was pointed.
pub proof fn lemma_compared(steps: Seq<Step>, lead: Node, k: nat)
    requires
        steps[k as int].action is Compare || steps[k as int].action is WriteRedirected,
        sound_in(cluster_at(steps, lead, k), steps, lead, k),
    ensures
        leads_to(steps, lead, k, cluster_at(steps, lead, k)),
{
    reveal(is_sound);
    reveal(moved);
}

} // verus!
