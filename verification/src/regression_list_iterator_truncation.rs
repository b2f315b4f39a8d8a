//! Listings are complete however the range of shards is found.
//!
//! A client that is not told how many shards there are finds out by asking for one more. What that
//! question comes to must never change what is listed. So the same aggregates are listed twice,
//! once with the question and once with the number of shards given, and both listings are held
//! against what was written: a listing that is short only with the question points at the client,
//! one that is short both times at the server.

use crate::bench::{Node, NodeConfig, Port, Who, run_port, standalone};
use crate::expect::lists_id;
use crate::reply::Reply;
use crate::script::{Action, Step, must};
use crate::text::{decimal, push_decimal};
use vstd::prelude::*;

verus! {

pub const NUM_SHARDS: u64 = 2;

pub const NUM_AGGREGATES: u128 = 300;

pub const LIST_PAGE_SIZE: u64 = 20;

/// Small enough for the writes to seal several segments: only sealed segments are listed in pages.
pub const SEGMENT_BYTES: u64 = 2_097_152;

/// The size of the second value of each aggregate.
pub const PAYLOAD_BYTES: u64 = 24_576;

pub const ORG_ID: u128 = 1;

pub const AGG_TYPE_ID: u128 = 1;

/// The port of the server.
#[verifier::allow_in_spec]
pub fn server_port() -> Port
    returns
        (run_port(18900, 0)),
{
    run_port(18900, 0)
}

/// The settings of the server.
#[verifier::allow_in_spec]
pub fn server_config() -> NodeConfig
    returns
        (NodeConfig {
            log_level: Some("warn"),
            list_page_size: Some(LIST_PAGE_SIZE),
            shard_log_preallocate_bytes: Some(SEGMENT_BYTES),
            list_max_duration_ms: Some(10_000),
            ..standalone(NUM_SHARDS)
        }),
{
    NodeConfig {
        log_level: Some("warn"),
        list_page_size: Some(LIST_PAGE_SIZE),
        shard_log_preallocate_bytes: Some(SEGMENT_BYTES),
        list_max_duration_ms: Some(10_000),
        ..standalone(NUM_SHARDS)
    }
}

/// The highest shard, as the second listing is told it.
#[verifier::allow_in_spec]
pub fn max_shard_hint() -> u64
    returns
        (1u64),
{
    1
}

/// The aggregates that are written.
pub open spec fn expected_ids() -> Set<u128> {
    Set::new(|i: u128| 1 <= i <= NUM_AGGREGATES)
}

/// What is wrong with the listings.
#[derive(Debug, Clone, Copy, PartialEq, Eq, Structural)]
pub enum ListingFault {
    /// The listing that finds the shards out by itself is not what was written.
    Discovery { missing: u64, unexpected: u64, got: u64, want: u64 },
    /// The listing that was told the shards is not what was written.
    Hinted { got: u64, want: u64 },
    /// The two listings differ.
    Disagree { discovery: u64, hinted: u64 },
}

/// What is said of a fault.
pub open spec fn fault_text(fault: ListingFault) -> Seq<char> {
    match fault {
        ListingFault::Discovery { missing, unexpected, got, want } => "discovery listing wrong: "@
            + decimal(missing as nat) + " missing, "@ + decimal(unexpected as nat)
            + " unexpected (got "@ + decimal(got as nat) + " of "@ + decimal(want as nat) + ")"@,
        ListingFault::Hinted { got, want } => "hinted listing wrong: got "@ + decimal(got as nat)
            + " of "@ + decimal(want as nat)
            + " -- the probe is suppressed on this path, so this points at the server or the write path, NOT at the iterator"@,
        ListingFault::Disagree { discovery, hinted } =>
            "discovery and hinted listings disagree ("@ + decimal(discovery as nat) + " vs "@
            + decimal(hinted as nat)
            + ") -- shard discovery is not answer-preserving, which is the defect this test guards"@,
    }
}

/// What is said of a fault.
pub fn describe(fault: ListingFault) -> (r: String)
    ensures
        r@ == fault_text(fault),
{
    match fault {
        ListingFault::Discovery { missing, unexpected, got, want } => {
            let mut out: String = "discovery listing wrong: ".to_owned();
            push_decimal(&mut out, missing as u128);
            out.append(" missing, ");
            push_decimal(&mut out, unexpected as u128);
            out.append(" unexpected (got ");
            push_decimal(&mut out, got as u128);
            out.append(" of ");
            push_decimal(&mut out, want as u128);
            out.append(")");
            out
        },
        ListingFault::Hinted { got, want } => {
            let mut out: String = "hinted listing wrong: got ".to_owned();
            push_decimal(&mut out, got as u128);
            out.append(" of ");
            push_decimal(&mut out, want as u128);
            out.append(
                " -- the probe is suppressed on this path, so this points at the server or the write path, NOT at the iterator",
            );
            out
        },
        ListingFault::Disagree { discovery, hinted } => {
            let mut out: String = "discovery and hinted listings disagree (".to_owned();
            push_decimal(&mut out, discovery as u128);
            out.append(" vs ");
            push_decimal(&mut out, hinted as u128);
            out.append(
                ") -- shard discovery is not answer-preserving, which is the defect this test guards",
            );
            out
        },
    }
}

/// Those of `v` that are not among `without`, each once.
fn difference(v: &Vec<u128>, without: &Vec<u128>) -> (r: Vec<u128>)
    ensures
        r@.no_duplicates(),
        r@.to_set() =~= v@.to_set().difference(without@.to_set()),
        r@.len() == v@.to_set().difference(without@.to_set()).len(),
{
    let mut out: Vec<u128> = Vec::new();
    for i in 0..v.len()
        invariant
            out@.no_duplicates(),
            forall|x: u128|
                #![trigger out@.contains(x)]
                out@.contains(x) <==> v@.take(i as int).contains(x) && !without@.contains(x),
    {
        let x: u128 = v[i];
        let ghost before = out@;
        let ghost seen = v@.take(i as int);
        assert(v@.take(i + 1) =~= seen.push(x));
        if !lists_id(without, x) && !lists_id(&out, x) {
            out.push(x);
            assert(out@.no_duplicates()) by {
                assert forall|p: int, q: int| 0 <= p < q < out@.len() implies out@[p] != out@[q] by {
                    if q == before.len() {
                        assert(before.contains(before[p]));
                    }
                }
            }
            assert forall|y: u128|
                #![trigger out@.contains(y)]
                out@.contains(y) <==> v@.take(i + 1).contains(y) && !without@.contains(y) by {
                lemma_push_contains(before, x, y);
                lemma_push_contains(seen, x, y);
            }
        } else {
            assert forall|y: u128|
                #![trigger out@.contains(y)]
                out@.contains(y) <==> v@.take(i + 1).contains(y) && !without@.contains(y) by {
                lemma_push_contains(seen, x, y);
            }
        }
    }
    assert(v@.take(v@.len() as int) =~= v@);
    assert(out@.to_set() =~= v@.to_set().difference(without@.to_set())) by {
        assert forall|x: u128| out@.to_set().contains(x) == v@.to_set().difference(
            without@.to_set(),
        ).contains(x) by {
            assert(out@.contains(x) <==> v@.contains(x) && !without@.contains(x));
        }
    }
    proof {
        out@.unique_seq_to_set();
    }
    out
}

proof fn lemma_push_contains(s: Seq<u128>, x: u128, y: u128)
    ensures
        s.push(x).contains(y) <==> s.contains(y) || x == y,
{
    if s.contains(y) {
        let i = choose|i: int| 0 <= i < s.len() && s[i] == y;
        assert(s.push(x)[i] == y);
    }
    if x == y {
        assert(s.push(x)[s.len() as int] == y);
    }
    if s.push(x).contains(y) {
        let i = choose|i: int| 0 <= i < s.push(x).len() && s.push(x)[i] == y;
        if i < s.len() {
            assert(s[i] == y);
        }
    }
}

/// Every one of `v` once.
fn distinct(v: &Vec<u128>) -> (r: Vec<u128>)
    ensures
        r@.no_duplicates(),
        r@.to_set() == v@.to_set(),
        r@.len() == v@.to_set().len(),
{
    let none: Vec<u128> = Vec::new();
    let r: Vec<u128> = difference(v, &none);
    assert(v@.to_set().difference(none@.to_set()) =~= v@.to_set());
    r
}

/// Whether `a` and `b` hold the same.
fn same(a: &Vec<u128>, b: &Vec<u128>) -> (r: bool)
    ensures
        r == (a@.to_set() == b@.to_set()),
{
    let x: Vec<u128> = difference(a, b);
    let y: Vec<u128> = difference(b, a);
    proof {
        let (sa, sb) = (a@.to_set(), b@.to_set());
        if x@.len() == 0 && y@.len() == 0 {
            assert(x@.to_set() =~= Set::empty());
            assert(y@.to_set() =~= Set::empty());
            assert forall|i: u128| sa.contains(i) == sb.contains(i) by {
                assert(!sa.difference(sb).contains(i));
                assert(!sb.difference(sa).contains(i));
            }
            assert(sa =~= sb);
        } else if x@.len() > 0 {
            assert(x@.to_set().contains(x@[0]));
            assert(sa.difference(sb).contains(x@[0]));
        } else {
            assert(y@.to_set().contains(y@[0]));
            assert(sb.difference(sa).contains(y@[0]));
        }
    }
    x.len() == 0 && y.len() == 0
}

/// What is wrong with two listings, where `expected` was written.
pub open spec fn faults(
    expected: Set<u128>,
    discovery: Set<u128>,
    hinted: Set<u128>,
) -> Seq<ListingFault> {
    let first = if discovery != expected {
        seq![
            ListingFault::Discovery {
                missing: expected.difference(discovery).len() as u64,
                unexpected: discovery.difference(expected).len() as u64,
                got: discovery.len() as u64,
                want: expected.len() as u64,
            },
        ]
    } else {
        Seq::empty()
    };
    let second = if hinted != expected {
        seq![ListingFault::Hinted { got: hinted.len() as u64, want: expected.len() as u64 }]
    } else {
        Seq::empty()
    };
    let third = if discovery != hinted {
        seq![
            ListingFault::Disagree {
                discovery: discovery.len() as u64,
                hinted: hinted.len() as u64,
            },
        ]
    } else {
        Seq::empty()
    };
    first + second + third
}

/// Holds two listings against what was written. An aggregate that is listed twice counts once.
pub fn check_listings(
    expected: &Vec<u128>,
    discovery: &Vec<u128>,
    hinted: &Vec<u128>,
) -> (r: Vec<ListingFault>)
    ensures
        r@ == faults(expected@.to_set(), discovery@.to_set(), hinted@.to_set()),
{
    let mut out: Vec<ListingFault> = Vec::new();
    let want: u64 = distinct(expected).len() as u64;
    let got: u64 = distinct(discovery).len() as u64;
    let told: u64 = distinct(hinted).len() as u64;
    if !same(discovery, expected) {
        out.push(
            ListingFault::Discovery {
                missing: difference(expected, discovery).len() as u64,
                unexpected: difference(discovery, expected).len() as u64,
                got,
                want,
            },
        );
    }
    if !same(hinted, expected) {
        out.push(ListingFault::Hinted { got: told, want });
    }
    if !same(discovery, hinted) {
        out.push(ListingFault::Disagree { discovery: got, hinted: told });
    }
    assert(out@ =~= faults(expected@.to_set(), discovery@.to_set(), hinted@.to_set()));
    out
}

/// Nothing is wrong exactly where both listings are what was written.
pub proof fn no_fault_means_all_agree(
    expected: Set<u128>,
    discovery: Set<u128>,
    hinted: Set<u128>,
)
    ensures
        faults(expected, discovery, hinted).len() == 0 <==> discovery == expected && hinted
            == expected,
{
}

/// A listing that is wrong although the one that was told the shards is right shows as wrong
/// discovery, never as a fault of the server.
pub proof fn wrong_discovery_is_told_from_lost_data(
    expected: Set<u128>,
    discovery: Set<u128>,
    hinted: Set<u128>,
)
    requires
        hinted == expected,
        discovery != expected,
    ensures
        faults(expected, discovery, hinted).len() == 2,
        faults(expected, discovery, hinted)[0] is Discovery,
        faults(expected, discovery, hinted)[1] is Disagree,
{
}

/// The steps of [`run`].
pub open spec fn run_steps() -> Seq<Step> {
    seq![
        must(Action::StartNode {
            node: Node::A,
            port: server_port(),
            label: Some("standalone"),
            config: server_config(),
        }),
        must(Action::Connect(Who::A)),
        must(Action::FillListed {
            org: ORG_ID,
            kind: AGG_TYPE_ID,
            count: NUM_AGGREGATES,
            payload_bytes: PAYLOAD_BYTES,
        }),
        must(Action::ListAggregates { org: ORG_ID, kind: AGG_TYPE_ID, max_shard_hint: None }),
        must(Action::ListAggregates {
            org: ORG_ID,
            kind: AGG_TYPE_ID,
            max_shard_hint: Some(max_shard_hint()),
        }),
    ]
}

/// Fills a server of two shards and lists its aggregates, once with the shards to be found out and
/// once with the last of them given. [`verdict`] holds the listings against what was written.
pub fn run() -> (r: Vec<Step>)
    ensures
        r@ == run_steps(),
{
    let steps: Vec<Step> = vec![
        must(Action::StartNode {
            node: Node::A,
            port: server_port(),
            label: Some("standalone"),
            config: server_config(),
        }),
        must(Action::Connect(Who::A)),
        must(Action::FillListed {
            org: ORG_ID,
            kind: AGG_TYPE_ID,
            count: NUM_AGGREGATES,
            payload_bytes: PAYLOAD_BYTES,
        }),
        must(Action::ListAggregates { org: ORG_ID, kind: AGG_TYPE_ID, max_shard_hint: None }),
        must(Action::ListAggregates {
            org: ORG_ID,
            kind: AGG_TYPE_ID,
            max_shard_hint: Some(max_shard_hint()),
        }),
    ];
    assert(steps@ =~= run_steps());
    steps
}

/// What step `at` listed; nothing where it listed nothing.
pub open spec fn listed_at(history: Seq<Reply>, at: int) -> Seq<u128> {
    if 0 <= at < history.len() {
        match history[at] {
            Reply::Ids(ids) => ids@,
            _ => Seq::empty(),
        }
    } else {
        Seq::empty()
    }
}

fn get_listed(history: &Vec<Reply>, at: usize) -> (r: Vec<u128>)
    ensures
        r@ == listed_at(history@, at as int),
{
    let mut out: Vec<u128> = Vec::new();
    if at < history.len() {
        match &history[at] {
            Reply::Ids(ids) => {
                for i in 0..ids.len()
                    invariant
                        out@ == ids@.take(i as int),
                {
                    out.push(ids[i]);
                    assert(out@ =~= ids@.take(i + 1));
                }
                assert(ids@.take(ids@.len() as int) =~= ids@);
            },
            _ => {},
        }
    }
    out
}

/// What is wrong with the listings of a run that came to its end.
pub fn verdict(history: &Vec<Reply>) -> (r: Vec<ListingFault>)
    ensures
        r@ == faults(
            expected_ids(),
            listed_at(history@, 3).to_set(),
            listed_at(history@, 4).to_set(),
        ),
{
    check_listings(&written_ids(), &get_listed(history, 3), &get_listed(history, 4))
}

/// The ids that are written, in order.
pub fn written_ids() -> (r: Vec<u128>)
    ensures
        r@.to_set() == expected_ids(),
        r@.len() == NUM_AGGREGATES,
        forall|i: int| 0 <= i < r@.len() ==> #[trigger] r@[i] == i + 1,
{
    let mut out: Vec<u128> = Vec::new();
    let mut i: u128 = 1;
    while i <= NUM_AGGREGATES
        invariant
            1 <= i <= NUM_AGGREGATES + 1,
            out@.len() == i - 1,
            forall|j: int| 0 <= j < out@.len() ==> #[trigger] out@[j] == j + 1,
        decreases NUM_AGGREGATES + 1 - i,
    {
        out.push(i);
        i = i + 1;
    }
    assert(out@.to_set() =~= expected_ids()) by {
        assert forall|x: u128| out@.to_set().contains(x) == expected_ids().contains(x) by {
            if expected_ids().contains(x) {
                assert(out@[x - 1] == x);
            }
        }
    }
    out
}

/// What the run ends with where something is wrong.
pub fn failure_message(faults: usize) -> (r: String)
    ensures
        r@ == decimal(faults as nat) + " assertion(s) failed"@,
{
    let mut out: String = String::new();
    push_decimal(&mut out, faults as u128);
    out.append(" assertion(s) failed");
    assert(out@ =~= decimal(faults as nat) + " assertion(s) failed"@);
    out
}

/// What is missing and what was listed make up as much as what was written and what is listed beside
/// it, and a wrong listing tells these four numbers.
pub proof fn the_numbers_of_a_wrong_listing_add_up(
    expected: Set<u128>,
    discovery: Set<u128>,
    hinted: Set<u128>,
)
    requires
        expected.finite() && expected.len() <= u64::MAX,
        discovery.finite() && discovery.len() <= u64::MAX,
        discovery != expected,
    ensures
        faults(expected, discovery, hinted)[0] matches ListingFault::Discovery {
            missing,
            unexpected,
            got,
            want,
        } && missing + got == want + unexpected && got == discovery.len() && want == expected.len()
            && (missing == 0 ==> unexpected > 0),
        (forall|i: u128| #[trigger] discovery.contains(i) ==> expected.contains(i)) ==> faults(
            expected,
            discovery,
            hinted,
        )[0]->unexpected == 0,
{
    vstd::set_lib::lemma_set_difference_len(expected, discovery);
    vstd::set_lib::lemma_set_difference_len(discovery, expected);
    vstd::set_lib::lemma_len_difference(expected, discovery);
    vstd::set_lib::lemma_len_difference(discovery, expected);
    assert(expected.intersect(discovery) =~= discovery.intersect(expected));
    let (lost, more) = (expected.difference(discovery), discovery.difference(expected));
    if lost.len() == 0 && more.len() == 0 {
        assert(lost =~= Set::empty());
        assert(more =~= Set::empty());
        assert forall|i: u128| expected.contains(i) == discovery.contains(i) by {
            assert(!lost.contains(i));
            assert(!more.contains(i));
        }
        assert(expected =~= discovery);
    }
    if forall|i: u128| #[trigger] discovery.contains(i) ==> expected.contains(i) {
        assert(more =~= Set::empty());
    }
}

/// Both listings of [`run`] are of what was filled: the same organisation and the same type. The one finds
/// the shards out by itself, and the other is told the last of them.
pub proof fn what_is_listed_was_filled()
    ensures
        ({
            let steps = run_steps();
            steps[2].action matches Action::FillListed { org, kind, count, .. } && (
            steps[3].action matches Action::ListAggregates {
                org: first_org,
                kind: first_kind,
                max_shard_hint: first_hint,
            } && (steps[4].action matches Action::ListAggregates {
                org: second_org,
                kind: second_kind,
                max_shard_hint: second_hint,
            } && org == first_org && org == second_org && kind == first_kind && kind == second_kind
                && first_hint is None && (second_hint matches Some(last) && last + 1 == NUM_SHARDS)
                && count == NUM_AGGREGATES))
        }),
        server_config().num_shards == Some(NUM_SHARDS),
{
}

} // verus!
