//! A node whose attempt to lead fails must go on running.
//!
//! A node that has won the lease but cannot catch up from the store is to step back and try again.
//! That it does not is seen in two ways: its process ends, or its log shows the panic that ends the
//! election path. The log has to be scanned all the time, since only its last lines are kept, and a
//! supervisor may start the panicking part again under a process that goes on running.

use crate::bench::{
    Link, Node, NodeConfig, Routing, S3Fields, ServerConfig, Store, Who, holds_text, plain,
    server_config, spread_port,
};
use crate::codec::{lowercased, to_lower};
use crate::expect::{Expect, LeaseRule, NumberRule, StreamRule, group_judgement, turned_down};
use crate::model::{AggregateKey, LAST_EVENT, Payload, Write, append};
use crate::reply::Reply;
use crate::script::{
    Action, Run, Step, accepted_through, keep_trying, met_before, must, note, passes,
    passing_is_step_by_step, step,
};
use crate::sorting::texts;
use crate::text::{contains, contains_text, decimal, joined, push_decimal};
use vstd::prelude::*;

verus! {

pub const NUM_SHARDS: u64 = 4;

/// The time that the first election and the heartbeats take.
pub const SETTLE_MS: u64 = 12_000;

/// How long the leader takes writes with the link cut.
pub const PARTITION_LOAD_MS: u64 = 25_000;

pub const WRITE_WORKERS: u64 = 8;

pub const PAYLOAD_BYTES: u64 = 4_096;

/// With fewer, the leader never really wrote to the store.
pub const MIN_PARTITIONED_EVENTS: u64 = 100;

/// How long after the kill the lease is watched, and how often.
pub const EPOCH_WATCH_MS: u64 = 40_000;

pub const EPOCH_POLL_MS: u64 = 50;

/// How long the store stands still.
pub const STALL_MS: u64 = 150_000;

pub const LIVENESS_POLL_MS: u64 = 100;

pub const WRITE_PROBE_INTERVAL_MS: u64 = 2_000;

pub const WRITE_PROBE_TIMEOUT_MS: u64 = 2_000;

/// A node that serves writes this soon had caught up before the store stood still.
pub const MISSED_WINDOW_GRACE_MS: u64 = 8_000;

/// How long the node is watched after the store is back.
pub const RECOVERY_BUDGET_MS: u64 = 90_000;

/// The nonce that the probes of the second watch begin at.
pub const SECOND_NONCE: u64 = 1_000_000;

/// How many of the last lines of a log are scanned at a time.
pub const LOG_TAIL: usize = 400;

/// The aggregate at position `i`; they are numbered from 1.
#[verifier::allow_in_spec]
pub fn agg_key(i: u64) -> AggregateKey
    returns
        (AggregateKey::new(1, 1, (i as u128 + 1) as u128)),
{
    AggregateKey::new(1, 1, i as u128 + 1)
}

/// Event `seq` with a value of so many bytes that do not compress.
#[verifier::allow_in_spec]
pub fn event(
    key: AggregateKey,
    payload_bytes: usize,
    seq: u64,
    client_id: u128,
    allow_create: bool,
) -> Write
    requires
        seq <= LAST_EVENT,
    returns
        (Write {
            client_id,
            allow_create,
            ..append(key, seq, 100, (1000 + seq) as u64, Payload::Seeded(payload_bytes))
        }),
{
    Write {
        client_id,
        allow_create,
        ..append(key, seq, 100, 1000 + seq, Payload::Seeded(payload_bytes))
    }
}

/// What the scenario sets of both nodes.
#[verifier::allow_in_spec]
pub fn node_settings() -> NodeConfig
    returns
        (NodeConfig {
            num_shards: Some(NUM_SHARDS),
            log_level: Some("info"),
            routing_rule: Some(Routing::AggregateId),
            heartbeat_lease_duration_ms: Some(1_500),
            heartbeat_interval_ms: Some(500),
            max_clock_drift_ms: Some(500),
            s3_lease_duration_ms: Some(10_000),
            store: Store::Container,
            ..plain()
        }),
{
    NodeConfig {
        num_shards: Some(NUM_SHARDS),
        log_level: Some("info"),
        routing_rule: Some(Routing::AggregateId),
        heartbeat_lease_duration_ms: Some(1_500),
        heartbeat_interval_ms: Some(500),
        max_clock_drift_ms: Some(500),
        s3_lease_duration_ms: Some(10_000),
        store: Store::Container,
        ..plain()
    }
}

/// The settings of both nodes, with those of the store as the bench reports them.
pub fn node_config(s3: &S3Fields) -> (r: ServerConfig)
    ensures
        r.node == node_settings(),
        r.node.num_shards == Some(4u64),
        r.node.log_level matches Some(level) && level@ == "info"@,
        r.node.routing_rule == Some(Routing::AggregateId),
        r.node.heartbeat_lease_duration_ms == Some(1_500u64),
        r.node.heartbeat_interval_ms == Some(500u64),
        r.node.max_clock_drift_ms == Some(500u64),
        r.node.s3_lease_duration_ms == Some(10_000u64),
        r.s3_enabled,
        holds_text(r.s3_region, s3.region@),
        holds_text(r.s3_bucket, s3.bucket@),
        holds_text(r.s3_access_key_id, s3.access_key@),
        holds_text(r.s3_secret_access_key, s3.secret_key@),
        holds_text(r.s3_endpoint_override, s3.endpoint@),
        r.s3_allow_http == s3.allow_http,
        !r.tls_strict,
        r.tls_ca_cert is None,
        r.tls_node_cert is None,
        r.tls_node_key is None,
        r.tls_client_auth is None,
{
    server_config(node_settings(), Some(s3), None)
}

/// What is said of a setup that never got to what is to be seen.
pub fn harness(message: &str) -> (r: String)
    ensures
        r@ == "HARNESS FAILURE (setup never reached the defect's preconditions): "@ + message@,
{
    let mut out: String =
        "HARNESS FAILURE (setup never reached the defect's preconditions): ".to_owned();
    out.append(message);
    out
}

/// What is said of a setup whose run failed, where it did. Whatever step failed, nothing of what is
/// to be seen was tried.
pub fn setup_failure(run: &Run) -> (r: Option<String>)
    requires
        run.wf(),
    ensures
        r is Some == (run.failed && !run.done()),
        r matches Some(text) ==> text@
            == "HARNESS FAILURE (setup never reached the defect's preconditions): "@
            + run.account(),
{
    match run.report() {
        Some(said) => Some(harness(said.as_str())),
        None => None,
    }
}

/// Write `seq` of the writes that show that the link works.
#[verifier::allow_in_spec]
pub fn warm_up(seq: u64) -> Step
    requires
        seq <= LAST_EVENT,
    returns
        (must(Action::Write(Who::A, event(agg_key(0), 64, seq, 1, seq == 1)))),
{
    must(Action::Write(Who::A, event(agg_key(0), 64, seq, 1, seq == 1)))
}

/// The aggregate that shows whether the follower is behind.
#[verifier::allow_in_spec]
pub fn lag_key() -> AggregateKey
    returns
        (AggregateKey::new(5, 5, 1)),
{
    AggregateKey::new(5, 5, 1)
}

/// Write `seq` of the writes that the follower must not have.
#[verifier::allow_in_spec]
pub fn lag_probe(seq: u64) -> Step
    requires
        seq <= LAST_EVENT,
    returns
        (must(Action::Write(Who::A, event(lag_key(), 64, seq, 2, seq == 1)))),
{
    must(Action::Write(Who::A, event(lag_key(), 64, seq, 2, seq == 1)))
}

/// The steps of [`run`].
pub open spec fn run_steps() -> Seq<Step> {
    seq![
        must(
            Action::StartStore { port: spread_port(21_500, 3), bucket: Some("promotion-failure") },
        ),
        must(
            Action::StartProxy {
                link: Link::Replication(Who::B),
                port: spread_port(21_500, 8),
                target: spread_port(21_500, 5),
            },
        ),
        must(Action::StartNode {
            node: Node::A,
            port: spread_port(21_500, 0),
            label: Some("leader"),
            config: node_settings(),
        }),
        note(Action::Sleep(1_000)),
        must(Action::StartNode {
            node: Node::B,
            port: spread_port(21_500, 4),
            label: Some("challenger"),
            config: NodeConfig {
                advertised_replication_address: Some(spread_port(21_500, 8)),
                ..node_settings()
            },
        }),
        note(Action::Sleep(SETTLE_MS)),
        step(Action::IsLeader(Who::A), Expect::Flag(true), "node on {first_node} never became leader"),
        must(Action::Connect(Who::A)),
        warm_up(1),
        warm_up(2),
        warm_up(3),
        warm_up(4),
        warm_up(5),
        keep_trying(
            Action::ReadAllFresh(Who::B, agg_key(0)),
            Expect::Stream(StreamRule::NotEmpty),
            20_000,
            200,
            "follower never received the warm-up writes over TCP",
        ),
        note(Action::Block(Link::Replication(Who::B))),
        step(
            Action::Drive { who: Who::A, workers: WRITE_WORKERS, for_ms: PARTITION_LOAD_MS },
            Expect::Number(NumberRule::AtLeast(MIN_PARTITIONED_EVENTS)),
            "only {got} events acked with the link severed (need 100); the leader never built an S3 backlog",
        ),
        step(
            Action::IsAlive(Who::A),
            Expect::Flag(true),
            "leader died during the partitioned load",
        ),
        step(
            Action::CountFallback(4),
            Expect::Number(NumberRule::AtLeast(1)),
            "no S3 fallback objects; the promoting node would have no S3 catch-up work to stall",
        ),
        must(Action::Connect(Who::A)),
        lag_probe(1),
        lag_probe(2),
        lag_probe(3),
        step(
            Action::ReadAllFresh(Who::B, lag_key()),
            Expect::Unseen,
            "follower already had the leader's newest writes; it is not behind, so its promotion has no meaningful catch-up to fail",
        ),
        step(
            Action::ReadLease("cluster/lease.json"),
            Expect::Accepted,
            "could not read the pre-kill lease: {reply}",
        ),
        note(Action::StopNode(Who::A)),
        note(Action::Unblock(Link::Replication(Who::B))),
        step(
            Action::IsAlive(Who::A),
            Expect::Flag(false),
            "leader process still running after SIGKILL",
        ),
        keep_trying(
            Action::ReadLease("cluster/lease.json"),
            Expect::Lease(LeaseRule::EpochAbove(23)),
            EPOCH_WATCH_MS,
            EPOCH_POLL_MS,
            "lease epoch never rose above {was_epoch} within 40s of the kill; no challenge was made, so there was no failed challenge to observe",
        ),
        must(Action::PauseStore),
    ]
}

/// Brings a follower that is behind to the point where it has won the lease and has to catch up
/// from a store that stands still: the two nodes replicate, the link is cut, the leader writes to
/// the store instead, and it is killed; the store is stopped at the moment the lease changes hands.
/// Every step that fails here is a failure of the setup ([`harness`]). Then the node is watched
/// ([`Watcher`]), first while the store stands still and again once it is back, and [`verdict`]
/// says what that shows.
pub fn run() -> (r: Vec<Step>)
    ensures
        r@ == run_steps(),
{
    let steps: Vec<Step> = vec![
        must(
            Action::StartStore { port: spread_port(21_500, 3), bucket: Some("promotion-failure") },
        ),
        must(
            Action::StartProxy {
                link: Link::Replication(Who::B),
                port: spread_port(21_500, 8),
                target: spread_port(21_500, 5),
            },
        ),
        must(Action::StartNode {
            node: Node::A,
            port: spread_port(21_500, 0),
            label: Some("leader"),
            config: node_settings(),
        }),
        note(Action::Sleep(1_000)),
        must(Action::StartNode {
            node: Node::B,
            port: spread_port(21_500, 4),
            label: Some("challenger"),
            config: NodeConfig {
                advertised_replication_address: Some(spread_port(21_500, 8)),
                ..node_settings()
            },
        }),
        note(Action::Sleep(SETTLE_MS)),
        step(Action::IsLeader(Who::A), Expect::Flag(true), "node on {first_node} never became leader"),
        must(Action::Connect(Who::A)),
        warm_up(1),
        warm_up(2),
        warm_up(3),
        warm_up(4),
        warm_up(5),
        keep_trying(
            Action::ReadAllFresh(Who::B, agg_key(0)),
            Expect::Stream(StreamRule::NotEmpty),
            20_000,
            200,
            "follower never received the warm-up writes over TCP",
        ),
        note(Action::Block(Link::Replication(Who::B))),
        step(
            Action::Drive { who: Who::A, workers: WRITE_WORKERS, for_ms: PARTITION_LOAD_MS },
            Expect::Number(NumberRule::AtLeast(MIN_PARTITIONED_EVENTS)),
            "only {got} events acked with the link severed (need 100); the leader never built an S3 backlog",
        ),
        step(
            Action::IsAlive(Who::A),
            Expect::Flag(true),
            "leader died during the partitioned load",
        ),
        step(
            Action::CountFallback(4),
            Expect::Number(NumberRule::AtLeast(1)),
            "no S3 fallback objects; the promoting node would have no S3 catch-up work to stall",
        ),
        must(Action::Connect(Who::A)),
        lag_probe(1),
        lag_probe(2),
        lag_probe(3),
        step(
            Action::ReadAllFresh(Who::B, lag_key()),
            Expect::Unseen,
            "follower already had the leader's newest writes; it is not behind, so its promotion has no meaningful catch-up to fail",
        ),
        step(
            Action::ReadLease("cluster/lease.json"),
            Expect::Accepted,
            "could not read the pre-kill lease: {reply}",
        ),
        note(Action::StopNode(Who::A)),
        note(Action::Unblock(Link::Replication(Who::B))),
        step(
            Action::IsAlive(Who::A),
            Expect::Flag(false),
            "leader process still running after SIGKILL",
        ),
        keep_trying(
            Action::ReadLease("cluster/lease.json"),
            Expect::Lease(LeaseRule::EpochAbove(23)),
            EPOCH_WATCH_MS,
            EPOCH_POLL_MS,
            "lease epoch never rose above {was_epoch} within 40s of the kill; no challenge was made, so there was no failed challenge to observe",
        ),
        must(Action::PauseStore),
    ];
    assert(steps@ =~= run_steps());
    steps
}

/// What [`run`] demands of the replies, one for each of its steps.
pub open spec fn run_holds(history: Seq<Reply>) -> bool {
    &&& history.len() == 29
    &&& accepted_through(history, 0, 2)
    &&& !turned_down(history[4])
    &&& history[6] == Reply::Flag(true)
    &&& accepted_through(history, 7, 12)
    &&& history[13] matches Reply::Batches(b) && b@.len() > 0
    &&& history[15] matches Reply::Number(n) && n >= MIN_PARTITIONED_EVENTS
    &&& history[16] == Reply::Flag(true)
    &&& history[17] matches Reply::Number(n) && n >= 1
    &&& accepted_through(history, 18, 21)
    &&& !(history[22] matches Reply::Batches(b) && b@.len() > 0)
    &&& !turned_down(history[23])
    &&& history[26] == Reply::Flag(false)
    &&& history[23] matches Reply::Lease(e)
        && (history[27] matches Reply::Lease(l) && l.lease_epoch > e.lease_epoch)
    &&& !turned_down(history[28])
}

/// [`run`] passes exactly on the replies that it demands.
#[verifier::rlimit(60)]
pub proof fn run_passes(history: Seq<Reply>)
    ensures
        passes(run_steps(), history) <==> run_holds(history),
{
    broadcast use group_judgement;

    let steps = run_steps();
    passing_is_step_by_step(steps, history);
    reveal_with_fuel(met_before, 30);
}

/// What the panic says, in lower case.
pub open spec fn panic_marker() -> Seq<char> {
    "election failed after retries"@
}

/// What the supervisor says when it starts a shard again.
pub open spec fn restart_marker() -> Seq<char> {
    "Shard executor panic detected"@
}

/// Whether a line of a log shows the panic, however it is spelled.
pub open spec fn shows_panic() -> spec_fn(Seq<char>) -> bool {
    |line: Seq<char>| contains_text(lowercased(line), panic_marker())
}

/// Whether a line of a log shows that a shard was started again.
pub open spec fn shows_restart() -> spec_fn(Seq<char>) -> bool {
    |line: Seq<char>| contains_text(line, restart_marker())
}

/// The first of `lines` that `p` holds of.
pub open spec fn first_where(lines: Seq<Seq<char>>, p: spec_fn(Seq<char>) -> bool) -> Option<
    Seq<char>,
>
    decreases lines.len(),
{
    if lines.len() == 0 {
        None
    } else if p(lines[0]) {
        Some(lines[0])
    } else {
        first_where(lines.skip(1), p)
    }
}

/// What a log has shown so far.
pub struct LogWatch {
    pub panic_line: Option<String>,
    pub restart_line: Option<String>,
    /// The lines among which the panic was found.
    pub context: Vec<String>,
}

/// [`LogWatch`] as plain values.
#[verifier::ext_equal]
pub struct LogView {
    pub panic_line: Option<Seq<char>>,
    pub restart_line: Option<Seq<char>>,
    pub context: Seq<Seq<char>>,
}

/// The characters of a text, where there is one.
pub open spec fn text_of(s: Option<String>) -> Option<Seq<char>> {
    match s {
        Some(t) => Some(t@),
        None => None,
    }
}

impl View for LogWatch {
    type V = LogView;

    open spec fn view(&self) -> LogView {
        LogView {
            panic_line: text_of(self.panic_line),
            restart_line: text_of(self.restart_line),
            context: texts(self.context@),
        }
    }
}

/// What a log has shown after these lines too: each of the two is kept as it was first seen.
pub open spec fn scanned(w: LogView, lines: Seq<Seq<char>>) -> LogView {
    let panics = first_where(lines, shows_panic());
    LogView {
        panic_line: match w.panic_line {
            Some(l) => Some(l),
            None => panics,
        },
        restart_line: match w.restart_line {
            Some(l) => Some(l),
            None => first_where(lines, shows_restart()),
        },
        context: if w.panic_line is None && panics is Some {
            lines
        } else {
            w.context
        },
    }
}

/// What a log has shown after being looked at again and again.
pub open spec fn scanned_all(w: LogView, tails: Seq<Seq<Seq<char>>>) -> LogView
    decreases tails.len(),
{
    if tails.len() == 0 {
        w
    } else {
        scanned(scanned_all(w, tails.drop_last()), tails.last())
    }
}

proof fn lemma_first_where(lines: Seq<Seq<char>>, p: spec_fn(Seq<char>) -> bool, n: int)
    requires
        0 <= n <= lines.len(),
        forall|i: int| 0 <= i < n ==> !p(#[trigger] lines[i]),
    ensures
        first_where(lines, p) == first_where(lines.skip(n), p),
        n < lines.len() && p(lines[n]) ==> first_where(lines, p) == Some(lines[n]),
        n == lines.len() ==> first_where(lines, p) is None,
    decreases n,
{
    if n == 0 {
        assert(lines.skip(0) =~= lines);
    } else {
        let rest = lines.skip(1);
        assert(!p(lines[0]));
        assert forall|i: int| 0 <= i < n - 1 implies !p(#[trigger] rest[i]) by {
            assert(rest[i] == lines[i + 1]);
        }
        lemma_first_where(rest, p, n - 1);
        assert(rest.skip(n - 1) =~= lines.skip(n));
        if n < lines.len() {
            assert(rest[n - 1] == lines[n]);
        }
    }
}

fn find_panic(lines: &Vec<String>) -> (r: Option<usize>)
    ensures
        match r {
            Some(i) => i < lines@.len() && first_where(texts(lines@), shows_panic()) == Some(
                lines@[i as int]@,
            ),
            None => first_where(texts(lines@), shows_panic()) is None,
        },
{
    for i in 0..lines.len()
        invariant
            forall|j: int| 0 <= j < i ==> !shows_panic()(#[trigger] texts(lines@)[j]),
    {
        let lower: String = to_lower(lines[i].as_str());
        if contains(lower.as_str(), "election failed after retries") {
            proof {
                lemma_first_where(texts(lines@), shows_panic(), i as int);
            }
            return Some(i);
        }
        assert(!shows_panic()(texts(lines@)[i as int]));
    }
    proof {
        lemma_first_where(texts(lines@), shows_panic(), lines@.len() as int);
    }
    None
}

fn find_restart(lines: &Vec<String>) -> (r: Option<usize>)
    ensures
        match r {
            Some(i) => i < lines@.len() && first_where(texts(lines@), shows_restart()) == Some(
                lines@[i as int]@,
            ),
            None => first_where(texts(lines@), shows_restart()) is None,
        },
{
    for i in 0..lines.len()
        invariant
            forall|j: int| 0 <= j < i ==> !shows_restart()(#[trigger] texts(lines@)[j]),
    {
        if contains(lines[i].as_str(), "Shard executor panic detected") {
            proof {
                lemma_first_where(texts(lines@), shows_restart(), i as int);
            }
            return Some(i);
        }
        assert(!shows_restart()(texts(lines@)[i as int]));
    }
    proof {
        lemma_first_where(texts(lines@), shows_restart(), lines@.len() as int);
    }
    None
}

impl LogWatch {
    /// Nothing seen.
    pub fn new() -> (r: LogWatch)
        ensures
            r@ == (LogView { panic_line: None, restart_line: None, context: Seq::empty() }),
    {
        let r: LogWatch = LogWatch { panic_line: None, restart_line: None, context: Vec::new() };
        assert(texts(r.context@) =~= Seq::empty());
        r
    }

    /// Whether both have been seen, so that no more lines are needed.
    pub fn is_full(&self) -> (r: bool)
        ensures
            r == (self@.panic_line is Some && self@.restart_line is Some),
    {
        self.panic_line.is_some() && self.restart_line.is_some()
    }

    /// Looks at the last lines of the log.
    pub fn poll(&mut self, tail: Vec<String>)
        ensures
            final(self)@ == scanned(old(self)@, texts(tail@)),
    {
        if self.restart_line.is_none() {
            match find_restart(&tail) {
                Some(i) => {
                    self.restart_line = Some(tail[i].clone());
                },
                None => {},
            }
        }
        if self.panic_line.is_none() {
            match find_panic(&tail) {
                Some(i) => {
                    self.panic_line = Some(tail[i].clone());
                    self.context = tail;
                },
                None => {},
            }
        }
    }
}

/// A log that shows the panic in any of the looks at it has shown it for good, however many lines
/// come after.
pub proof fn a_panic_is_never_lost(w: LogView, tails: Seq<Seq<Seq<char>>>, i: int, j: int)
    requires
        0 <= i < tails.len(),
        0 <= j < tails[i].len(),
        shows_panic()(tails[i][j]),
    ensures
        scanned_all(w, tails).panic_line is Some,
    decreases tails.len(),
{
    if i < tails.len() - 1 {
        assert(tails.drop_last()[i] == tails[i]);
        a_panic_is_never_lost(w, tails.drop_last(), i, j);
    } else {
        lemma_found(tails[i], shows_panic(), j);
    }
}

proof fn lemma_found(lines: Seq<Seq<char>>, p: spec_fn(Seq<char>) -> bool, j: int)
    requires
        0 <= j < lines.len(),
        p(lines[j]),
    ensures
        first_where(lines, p) is Some,
    decreases lines.len(),
{
    if !p(lines[0]) {
        assert(lines.skip(1)[j - 1] == lines[j]);
        lemma_found(lines.skip(1), p, j - 1);
    }
}

/// What was seen first stays, whatever the log shows later.
pub proof fn the_first_sight_stays(w: LogView, lines: Seq<Seq<char>>)
    ensures
        w.panic_line is Some ==> scanned(w, lines).panic_line == w.panic_line && scanned(
            w,
            lines,
        ).context == w.context,
        w.restart_line is Some ==> scanned(w, lines).restart_line == w.restart_line,
{
}

/// Lines set off from the text around them.
pub open spec fn indented(lines: Seq<Seq<char>>) -> Seq<char> {
    joined(lines.map_values(|l: Seq<char>| "      | "@ + l), "\n"@)
}

/// Lines set off from the text around them.
pub fn indent(lines: &Vec<String>) -> (r: String)
    ensures
        r@ == indented(texts(lines@)),
{
    let mut out: String = String::new();
    let ghost parts = texts(lines@).map_values(|l: Seq<char>| "      | "@ + l);
    assert(parts.take(0) =~= Seq::empty());
    for i in 0..lines.len()
        invariant
            parts == texts(lines@).map_values(|l: Seq<char>| "      | "@ + l),
            out@ == joined(parts.take(i as int), "\n"@),
    {
        assert(parts.take(i + 1).drop_last() =~= parts.take(i as int));
        assert(parts.take(i + 1).last() == "      | "@ + lines@[i as int]@);
        if i > 0 {
            out.append("\n");
        }
        out.append("      | ");
        out.append(lines[i].as_str());
        assert(out@ =~= joined(parts.take(i + 1), "\n"@));
    }
    assert(parts.take(parts.len() as int) =~= parts);
    out
}

/// What watching a node has shown.
pub struct NodeWatch {
    /// How its process ended, where it did.
    pub death: Option<String>,
    /// When it first accepted a write, in milliseconds from the start of the watch.
    pub first_writable: Option<u64>,
}

/// What a watch does before its next look.
#[derive(Debug, Clone, Copy, PartialEq, Eq, Structural)]
pub enum Tick {
    /// Nothing more: the watch is over.
    Over,
    /// It pauses.
    Pause,
    /// It sends a write under this number and does not wait for it; then it pauses.
    Probe(u64),
}

/// A watch on one node. The writes that show whether it serves run beside it, so that a node that
/// does not answer cannot keep the log from being scanned.
pub struct Watcher {
    pub budget: u64,
    pub nonce_base: u64,
    pub next_probe: u64,
    /// Whether a write is under way.
    pub probing: bool,
    pub seen: NodeWatch,
    pub over: bool,
}

impl Watcher {
    /// A watch that goes on while neither end was seen.
    pub open spec fn wf(&self) -> bool {
        self.over <==> self.seen.death is Some || self.seen.first_writable is Some
    }

    /// A watch before its first look.
    pub fn new(budget: u64, nonce_base: u64) -> (r: Watcher)
        ensures
            r.wf(),
            r.budget == budget,
            r.nonce_base == nonce_base,
            r.next_probe == 0,
            !r.probing,
            !r.over,
    {
        Watcher {
            budget,
            nonce_base,
            next_probe: 0,
            probing: false,
            seen: NodeWatch { death: None, first_writable: None },
            over: false,
        }
    }

    /// Whether another look is due, `now` milliseconds after the start.
    pub fn goes_on(&self, now: u64) -> (r: bool)
        ensures
            r == (!self.over && now < self.budget),
    {
        !self.over && now < self.budget
    }

    /// The process has ended like this.
    pub fn died(&mut self, how: String)
        requires
            old(self).wf(),
            !old(self).over,
        ensures
            final(self).wf(),
            final(self).over,
            final(self).budget == old(self).budget,
            final(self).nonce_base == old(self).nonce_base,
            final(self).next_probe == old(self).next_probe,
            final(self).probing == old(self).probing,
            final(self).seen.death == Some(how),
            final(self).seen.first_writable == old(self).seen.first_writable,
    {
        self.seen.death = Some(how);
        self.over = true;
    }

    /// The process is running. `finished` is the outcome of the write that is under way, where it
    /// has one.
    pub fn alive(&mut self, now: u64, finished: Option<bool>) -> (r: Tick)
        requires
            old(self).wf(),
            !old(self).over,
            now + WRITE_PROBE_INTERVAL_MS <= u64::MAX,
            old(self).nonce_base + now <= u64::MAX,
        ensures
            final(self).wf(),
            final(self).budget == old(self).budget,
            final(self).nonce_base == old(self).nonce_base,
            final(self).seen.death == old(self).seen.death,
            final(self).over == (r == Tick::Over),
            r != Tick::Over ==> final(self).seen.first_writable == old(self).seen.first_writable,
            old(self).probing ==> {
                &&& final(self).next_probe == old(self).next_probe
                &&& match finished {
                    Some(true) => {
                        &&& r == Tick::Over
                        &&& final(self).seen.first_writable == Some(now)
                        &&& !final(self).probing
                    },
                    Some(false) => r == Tick::Pause && !final(self).probing,
                    None => r == Tick::Pause && final(self).probing,
                }
            },
            !old(self).probing ==> if now >= old(self).next_probe {
                &&& r == Tick::Probe((old(self).nonce_base + now) as u64)
                &&& final(self).probing
                &&& final(self).next_probe == now + WRITE_PROBE_INTERVAL_MS
            } else {
                &&& r == Tick::Pause
                &&& !final(self).probing
                &&& final(self).next_probe == old(self).next_probe
            },
    {
        if self.probing {
            match finished {
                Some(accepted) => {
                    self.probing = false;
                    if accepted {
                        self.seen.first_writable = Some(now);
                        self.over = true;
                        return Tick::Over;
                    }
                    Tick::Pause
                },
                None => Tick::Pause,
            }
        } else if now >= self.next_probe {
            self.next_probe = now + WRITE_PROBE_INTERVAL_MS;
            self.probing = true;
            Tick::Probe(self.nonce_base + now)
        } else {
            Tick::Pause
        }
    }
}

/// The write that shows whether a node serves.
#[verifier::allow_in_spec]
pub fn write_probe(nonce: u64) -> Write
    returns
        (event(AggregateKey::new(7, 7, nonce as u128), 64, 1, 42, true)),
{
    event(AggregateKey::new(7, 7, nonce as u128), 64, 1, 42, true)
}

/// One of the writers that push load while the link is cut, with aggregates of its own.
pub struct Driver {
    pub worker: u64,
    /// How many writes it sent.
    pub sent: u64,
    /// How many events were acknowledged.
    pub acked: u64,
}

impl Driver {
    /// Whether its aggregates and events can be counted in 64 bits.
    pub open spec fn fits(&self) -> bool {
        &&& self.worker + 1 + (self.sent + 1) * WRITE_WORKERS <= u64::MAX
        &&& self.acked <= 4 * self.sent
    }

    /// The position of the aggregate that it writes to next.
    pub open spec fn aggregate(&self) -> int {
        self.worker + 1 + self.sent * WRITE_WORKERS
    }

    /// A writer before its first write.
    pub fn new(worker: u64) -> (r: Driver)
        requires
            worker < WRITE_WORKERS,
        ensures
            r.fits(),
            r.worker == worker,
            r.sent == 0,
            r.acked == 0,
    {
        Driver { worker, sent: 0, acked: 0 }
    }

    /// The four events of its next write, which go out together.
    pub fn next(&self) -> (r: Vec<Write>)
        requires
            self.fits(),
        ensures
            r@.len() == 4,
            forall|i: int|
                0 <= i < 4 ==> #[trigger] r@[i] == event(
                    agg_key(self.aggregate() as u64),
                    4096,
                    (i + 1) as u64,
                    (1000 + self.worker) as u128,
                    true,
                ),
    {
        let key: AggregateKey = agg_key(self.worker + 1 + self.sent * WRITE_WORKERS);
        let client_id: u128 = 1000 + self.worker as u128;
        vec![
            event(key, 4096, 1, client_id, true),
            event(key, 4096, 2, client_id, true),
            event(key, 4096, 3, client_id, true),
            event(key, 4096, 4, client_id, true),
        ]
    }

    /// Takes the outcome of the write. It goes on to its next aggregate either way; a refusal only
    /// makes it connect anew.
    pub fn observe(&mut self, accepted: bool)
        requires
            old(self).fits(),
            old(self).worker + 1 + (old(self).sent + 2) * WRITE_WORKERS <= u64::MAX,
        ensures
            final(self).fits(),
            final(self).worker == old(self).worker,
            final(self).sent == old(self).sent + 1,
            final(self).acked == old(self).acked + if accepted {
                4int
            } else {
                0
            },
    {
        self.sent = self.sent + 1;
        if accepted {
            self.acked = self.acked + 4;
        }
    }
}

/// No two writers write to the same aggregate, and none writes to one of its own twice.
pub proof fn writers_keep_apart(a: Driver, b: Driver)
    requires
        a.worker < WRITE_WORKERS,
        b.worker < WRITE_WORKERS,
        a.aggregate() == b.aggregate(),
    ensures
        a.worker == b.worker,
        a.sent == b.sent,
{
}

/// What watching the node has shown.
#[derive(Debug, Clone, Copy, PartialEq, Eq, Structural)]
pub enum Verdict {
    /// Its log shows the panic, whether or not its process went on.
    Panicked,
    /// Its process ended, and the log does not say why.
    Died,
    /// It served writes so soon that it had caught up before the store stood still: nothing was
    /// tried.
    MissedWindow(u64),
    Survived,
}

/// What watching the node has shown, while the store stood still and after it was back.
pub open spec fn verdict_of(log: LogView, stall: NodeWatch, after: NodeWatch) -> Verdict {
    if log.panic_line is Some {
        Verdict::Panicked
    } else if stall.death is Some || after.death is Some {
        Verdict::Died
    } else {
        match stall.first_writable {
            Some(t) => if t < MISSED_WINDOW_GRACE_MS {
                Verdict::MissedWindow(t)
            } else {
                Verdict::Survived
            },
            None => Verdict::Survived,
        }
    }
}

/// What watching the node has shown, while the store stood still and after it was back.
pub fn verdict(log: &LogWatch, stall: &NodeWatch, after: &NodeWatch) -> (r: Verdict)
    ensures
        r == verdict_of(log@, *stall, *after),
{
    if log.panic_line.is_some() {
        return Verdict::Panicked;
    }
    if stall.death.is_some() || after.death.is_some() {
        return Verdict::Died;
    }
    match stall.first_writable {
        Some(t) => if t < MISSED_WINDOW_GRACE_MS {
            Verdict::MissedWindow(t)
        } else {
            Verdict::Survived
        },
        None => Verdict::Survived,
    }
}

/// A node survives only where no look at its log showed the panic and its process was running all
/// the time. That it recovered is not asked for.
pub proof fn survival_needs_both(
    tails: Seq<Seq<Seq<char>>>,
    stall: NodeWatch,
    after: NodeWatch,
    i: int,
    j: int,
)
    requires
        verdict_of(
            scanned_all(
                LogView { panic_line: None, restart_line: None, context: Seq::empty() },
                tails,
            ),
            stall,
            after,
        ) == Verdict::Survived,
        0 <= i < tails.len(),
        0 <= j < tails[i].len(),
    ensures
        !shows_panic()(tails[i][j]),
        stall.death is None,
        after.death is None,
{
    if shows_panic()(tails[i][j]) {
        a_panic_is_never_lost(
            LogView { panic_line: None, restart_line: None, context: Seq::empty() },
            tails,
            i,
            j,
        );
    }
}

/// How a node's process ended, where it did: while the store stood still, or after it was back.
pub fn death<'a>(stall: &'a NodeWatch, after: &'a NodeWatch) -> (r: Option<&'a String>)
    ensures
        match r {
            Some(how) => *how == match stall.death {
                Some(d) => d,
                None => after.death->0,
            },
            None => stall.death is None && after.death is None,
        },
        r is Some <==> stall.death is Some || after.death is Some,
{
    match &stall.death {
        Some(d) => Some(d),
        None => match &after.death {
            Some(d) => Some(d),
            None => None,
        },
    }
}

/// A setup that comes to its end has left a follower behind its leader, with work to do in the
/// store, and a lease that has passed to another epoch.
pub proof fn the_setup_reaches_the_window(history: Seq<Reply>)
    requires
        passes(run_steps(), history),
    ensures
        history[15] matches Reply::Number(acked) && acked >= MIN_PARTITIONED_EVENTS,
        history[17] matches Reply::Number(objects) && objects >= 1,
        !(history[22] matches Reply::Batches(b) && b@.len() > 0),
        history[23] matches Reply::Lease(before) && (history[27] matches Reply::Lease(now)
            && now.lease_epoch > before.lease_epoch),
{
    run_passes(history);
}

/// What the node had to cope with when it won the lease.
#[derive(Debug, Clone, Copy, PartialEq, Eq, Structural)]
pub struct Preconditions {
    /// How many events the leader took with the link cut.
    pub events: u64,
    /// How many objects the node had to read back from the store.
    pub objects: u64,
    pub epoch_before: u64,
    pub epoch_after: u64,
    /// How soon after the lease was won the store stood still, in milliseconds.
    pub stalled_after_ms: u64,
}

/// What a setup that came to its end has brought about.
pub fn preconditions(history: &Vec<Reply>, stalled_after_ms: u64) -> (r: Preconditions)
    requires
        passes(run_steps(), history@),
    ensures
        history@[15] == Reply::Number(r.events),
        history@[17] == Reply::Number(r.objects),
        history@[23] matches Reply::Lease(l) && l.lease_epoch == r.epoch_before,
        history@[27] matches Reply::Lease(l) && l.lease_epoch == r.epoch_after,
        r.stalled_after_ms == stalled_after_ms,
        r.epoch_before < r.epoch_after,
{
    proof {
        run_passes(history@);
    }
    let events: u64 = match &history[15] {
        Reply::Number(n) => *n,
        _ => 0,
    };
    let objects: u64 = match &history[17] {
        Reply::Number(n) => *n,
        _ => 0,
    };
    let epoch_before: u64 = match &history[23] {
        Reply::Lease(l) => l.lease_epoch,
        _ => 0,
    };
    let epoch_after: u64 = match &history[27] {
        Reply::Lease(l) => l.lease_epoch,
        _ => 0,
    };
    Preconditions { events, objects, epoch_before, epoch_after, stalled_after_ms }
}

/// What is said of the preconditions.
pub open spec fn preconditions_text(p: Preconditions) -> Seq<char> {
    "Preconditions all held: "@ + decimal(p.events as nat)
        + " events acked with the replication link severed, "@ + decimal(p.objects as nat)
        + " S3 fallback objects for the promoting node to read back, follower behind, leader SIGKILLed, lease epoch "@
        + decimal(p.epoch_before as nat) + " -> "@ + decimal(p.epoch_after as nat)
        + ", S3 stalled "@ + decimal(p.stalled_after_ms as nat) + "ms after the CAS win."@
}

/// Appends what is said of the preconditions.
fn push_preconditions(out: &mut String, p: &Preconditions)
    ensures
        final(out)@ == old(out)@ + preconditions_text(*p),
{
    out.append("Preconditions all held: ");
    push_decimal(out, p.events as u128);
    out.append(" events acked with the replication link severed, ");
    push_decimal(out, p.objects as u128);
    out.append(
        " S3 fallback objects for the promoting node to read back, follower behind, leader SIGKILLed, lease epoch ",
    );
    push_decimal(out, p.epoch_before as u128);
    out.append(" -> ");
    push_decimal(out, p.epoch_after as u128);
    out.append(", S3 stalled ");
    push_decimal(out, p.stalled_after_ms as u128);
    out.append("ms after the CAS win.");
    assert(out@ =~= old(out)@ + preconditions_text(*p));
}

/// A time in seconds, rounded to tenths.
pub open spec fn seconds(ms: u64) -> Seq<char> {
    let tenths = (ms + 50) / 100;
    decimal((tenths / 10) as nat) + "."@ + decimal((tenths % 10) as nat)
}

/// Appends a time in seconds, rounded to tenths.
fn push_seconds(out: &mut String, ms: u64)
    ensures
        final(out)@ == old(out)@ + seconds(ms),
{
    let tenths: u128 = (ms as u128 + 50) / 100;
    push_decimal(out, tenths / 10);
    out.append(".");
    push_decimal(out, tenths % 10);
    assert(out@ =~= old(out)@ + seconds(ms));
}

/// How a process ended: with which status, how long after the watch began, and its last lines.
pub fn exit_text(status: &str, after_ms: u64, tail: &Vec<String>) -> (r: String)
    ensures
        r@ == status@ + " (after "@ + seconds(after_ms) + "s)\n"@ + indented(texts(tail@)),
{
    let mut out: String = status.to_owned();
    out.append(" (after ");
    push_seconds(&mut out, after_ms);
    out.append("s)\n");
    out.append(indent(tail).as_str());
    out
}

/// What is said of a line that was not seen, or of the line.
pub open spec fn or_else(line: Option<Seq<char>>, otherwise: Seq<char>) -> Seq<char> {
    match line {
        Some(l) => l,
        None => otherwise,
    }
}

/// How a node's process ended, where it did: while the store stood still, or after it was back.
pub open spec fn death_of(stall: NodeWatch, after: NodeWatch) -> Option<Seq<char>> {
    match stall.death {
        Some(d) => Some(d@),
        None => text_of(after.death),
    }
}

/// What is said of a verdict; nothing where the node survived.
pub open spec fn verdict_text(
    p: Preconditions,
    log: LogView,
    stall: NodeWatch,
    after: NodeWatch,
) -> Option<Seq<char>> {
    match verdict_of(log, stall, after) {
        Verdict::Panicked => Some(
            "CONTRACT VIOLATED: the challenger's leadership challenge failed and the node PANICKED on the election path.\ndocs/leadership-replication-design.md makes `Promoting -> Follower | Fenced` (\"lost the race / overran\") an ordinary, recoverable transition; a node that cannot complete its S3 WAL catch-up must step back and retry, not abort.\n"@
                + preconditions_text(p) + "\nPanic: "@ + log.panic_line->0 + "\nSupervisor: "@
                + or_else(log.restart_line, "(no shard-restart line seen)"@)
                + "\nProcess exited: "@ + or_else(
                death_of(stall, after),
                "no — the in-process supervisor restarted the shard executors under it. On the rig the process died outright and hung until systemd SIGKILLed it; the panic is the defect either way."@,
            ) + "\nLog around the panic:\n"@ + indented(log.context),
        ),
        Verdict::Died => Some(
            "CONTRACT VIOLATED: the challenger's PROCESS TERMINATED after its failed leadership challenge (no \"election failed after retries\" line was captured, so the cause is something else on the same path).\n"@
                + preconditions_text(p) + "\nExit and log tail:\n"@ + death_of(stall, after)->0,
        ),
        Verdict::MissedWindow(ms) => Some(
            "HARNESS FAILURE (setup never reached the defect's preconditions): "@ + (
            "the challenger was serving writes "@ + seconds(ms)
                + "s into the stall (< 8s), so its S3 catch-up had already completed when MinIO was paused. The stall landed after the promotion window, not inside it; nothing about a FAILED challenge was exercised"@),
        ),
        Verdict::Survived => None,
    }
}

/// What is said of the node after both watches; nothing where it survived.
pub fn describe(
    p: &Preconditions,
    log: &LogWatch,
    stall: &NodeWatch,
    after: &NodeWatch,
) -> (r: Option<String>)
    ensures
        text_of(r) == verdict_text(*p, log@, *stall, *after),
{
    match verdict(log, stall, after) {
        Verdict::Panicked => {
            let mut out: String =
                "CONTRACT VIOLATED: the challenger's leadership challenge failed and the node PANICKED on the election path.\ndocs/leadership-replication-design.md makes `Promoting -> Follower | Fenced` (\"lost the race / overran\") an ordinary, recoverable transition; a node that cannot complete its S3 WAL catch-up must step back and retry, not abort.\n".to_owned();
            push_preconditions(&mut out, p);
            out.append("\nPanic: ");
            match &log.panic_line {
                Some(line) => out.append(line.as_str()),
                None => {},
            }
            out.append("\nSupervisor: ");
            match &log.restart_line {
                Some(line) => out.append(line.as_str()),
                None => out.append("(no shard-restart line seen)"),
            }
            out.append("\nProcess exited: ");
            match death(stall, after) {
                Some(how) => out.append(how.as_str()),
                None => out.append(
                    "no — the in-process supervisor restarted the shard executors under it. On the rig the process died outright and hung until systemd SIGKILLed it; the panic is the defect either way.",
                ),
            }
            out.append("\nLog around the panic:\n");
            out.append(indent(&log.context).as_str());
            Some(out)
        },
        Verdict::Died => {
            let mut out: String =
                "CONTRACT VIOLATED: the challenger's PROCESS TERMINATED after its failed leadership challenge (no \"election failed after retries\" line was captured, so the cause is something else on the same path).\n".to_owned();
            push_preconditions(&mut out, p);
            out.append("\nExit and log tail:\n");
            match death(stall, after) {
                Some(how) => out.append(how.as_str()),
                None => {},
            }
            Some(out)
        },
        Verdict::MissedWindow(ms) => {
            let mut out: String = "the challenger was serving writes ".to_owned();
            push_seconds(&mut out, ms);
            out.append(
                "s into the stall (< 8s), so its S3 catch-up had already completed when MinIO was paused. The stall landed after the promotion window, not inside it; nothing about a FAILED challenge was exercised",
            );
            let r: String = harness(out.as_str());
            proof {
                assert(r@ =~= verdict_text(*p, log@, *stall, *after)->0);
            }
            Some(r)
        },
        Verdict::Survived => None,
    }
}

/// The panic outranks everything, the end of the process outranks what was served, and only a node that
/// served within the first eight seconds has missed the window.
pub proof fn verdicts_are_told_by_what_was_seen(log: LogView, stall: NodeWatch, after: NodeWatch)
    ensures
        ({
            let verdict = verdict_of(log, stall, after);
            let dead = stall.death is Some || after.death is Some;
            &&& verdict is Panicked <==> log.panic_line is Some
            &&& verdict is Died <==> log.panic_line is None && dead
            &&& verdict matches Verdict::MissedWindow(t) ==> stall.first_writable == Some(t)
            &&& verdict is MissedWindow <==> log.panic_line is None && !dead && (
            stall.first_writable matches Some(t) && !(t >= 8_000))
            &&& stall.first_writable is None && log.panic_line is None && !dead ==> verdict
                is Survived
        }),
{
}

/// A node that served later is judged no worse for it.
pub proof fn to_serve_later_is_no_worse(
    log: LogView,
    early: NodeWatch,
    late: NodeWatch,
    after: NodeWatch,
)
    requires
        early.death == late.death,
        early.first_writable matches Some(s) ==> late.first_writable matches Some(t) ==> s <= t,
        early.first_writable is None ==> late.first_writable is None,
        verdict_of(log, early, after) is Survived,
    ensures
        verdict_of(log, late, after) is Survived,
{
}

} // verus!
