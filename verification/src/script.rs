//! Scenarios as scripts: what to do, what to expect of it, how long to try, and what to say when
//! it does not come. A [`Run`] takes a script through the bench one reply at a time.

use crate::bench::{Link, Node, NodeConfig, Port, Who};
use crate::expect::{
    Expect, FallbackRule, Judgement, LeaseRule, ListingRule, Memory, NumberRule, Registers,
    StreamRule, find_notice, first_notice, is_turned_down, judge, judgement, turned_down,
};
use crate::figures::{filled, left_side, push_filled, push_two_sided, right_side, two_sided};
use crate::model::{AggregateKey, Payload, Sequence, Write};
use crate::reply::{Notice, Reply};
use crate::report::{is_blank, push_reply, reply_text};
use vstd::prelude::*;

verus! {

/// Writers that send the same write at the same time, each with its own numbers.
#[derive(Debug, Clone, Copy)]
pub struct Race {
    pub write: Write,
    pub writers: u64,
    /// Each writer counts the client sequence number on from the one before it.
    pub own_seq: bool,
    /// Each writer counts the timestamp on from the one before it.
    pub own_time: bool,
}

impl Race {
    /// Whether every writer's numbers can be told.
    pub open spec fn fits(self) -> bool {
        &&& self.write.client_seq + self.writers <= u64::MAX
        &&& self.write.timestamp + self.writers <= u64::MAX
    }

    /// The write of writer `i`.
    pub open spec fn write_of(self, i: u64) -> Write {
        Write {
            client_seq: if self.own_seq {
                (self.write.client_seq + i) as u64
            } else {
                self.write.client_seq
            },
            timestamp: if self.own_time {
                (self.write.timestamp + i) as u64
            } else {
                self.write.timestamp
            },
            ..self.write
        }
    }

    /// The write of writer `i`.
    pub fn write_by(&self, i: u64) -> (r: Write)
        requires
            self.fits(),
            i < self.writers,
        ensures
            r == self.write_of(i),
    {
        let client_seq: u64 = if self.own_seq {
            self.write.client_seq + i
        } else {
            self.write.client_seq
        };
        let timestamp: u64 = if self.own_time {
            self.write.timestamp + i
        } else {
            self.write.timestamp
        };
        Write { client_seq, timestamp, ..self.write }
    }
}

/// A stream that client 1 deletes, and what may become of its key.
#[derive(Debug, Clone, Copy)]
pub struct Deletion {
    pub key: AggregateKey,
    pub allow_recreate: bool,
    pub allow_sequence_continuation: bool,
    pub expected_version: Option<u64>,
}

/// How many events are waited for.
#[derive(Debug, Clone, Copy, PartialEq, Eq, Structural)]
pub enum Target {
    Events(u64),
    /// One more than the writes that an earlier step had acknowledged.
    OnePlusAcked(usize),
}

/// Which objects of the store are listed.
#[derive(Debug, Clone, Copy, PartialEq, Eq, Structural)]
pub enum Prefix {
    /// Everything that stands in for a missing follower.
    Fallback,
    /// What stands in for one shard.
    Shard(u32),
}

/// What a client shows when it connects over TLS.
#[derive(Debug, Clone, Copy, PartialEq, Eq, Structural)]
pub enum Credential {
    /// A certificate that the server's authority signed.
    Signed,
    /// A certificate that another authority signed.
    Stranger,
    /// No certificate.
    Anonymous,
}

/// Whose keys a client identifies itself with.
#[derive(Debug, Clone, Copy, PartialEq, Eq, Structural)]
pub enum Signer {
    /// Its own.
    Own,
    /// Its own public key, and another's private key.
    Mismatched,
}

/// The client id that a write goes out under, once a client has identified itself.
#[derive(Debug, Clone, Copy, PartialEq, Eq, Structural)]
pub enum Claim {
    /// The id that the public key gives.
    Own,
    /// That id and this much more, around the end.
    Shifted(u128),
}

/// The id that is claimed by a client whose public key gives `own`.
#[verifier::allow_in_spec]
pub fn claimed_id(claim: Claim, own: u128) -> u128
    returns
        (match claim {
            Claim::Own => own,
            Claim::Shifted(by) => own.wrapping_add(by),
        }),
{
    match claim {
        Claim::Own => own,
        Claim::Shifted(by) => own.wrapping_add(by),
    }
}

/// Something for the bench to do.
#[derive(Debug, Clone, Copy)]
pub enum Action {
    StartStore { port: Port, bucket: Option<&'static str> },
    /// The store stops answering.
    PauseStore,
    /// The store goes away.
    StopStore,
    StartNode { node: Node, port: Port, label: Option<&'static str>, config: NodeConfig },
    StopNode(Who),
    RestartNode(Who),
    StartProxy { link: Link, port: Port, target: Port },
    Block(Link),
    Unblock(Link),
    /// Holds every chunk back for so many milliseconds.
    Throttle(Link, u64),
    Unthrottle(Link),
    Sleep(u64),
    Connect(Who),
    Disconnect(Who),
    Write(Who, Write),
    /// Over the connection to the node, which is made anew first where the write was tried before.
    WriteRenewing(Who, Write),
    /// Over a connection of its own.
    WriteFresh(Who, Write),
    /// One after the other, over a connection of their own, up to the first refusal.
    WriteSequence(Who, Sequence),
    /// In one request.
    WriteTogether(Who, Write, Write),
    /// So many writers at once, each with the sequence for the key that is as far from the first.
    WriteMany(Who, Sequence, u64),
    /// Over a connection to the address that an earlier step was pointed at.
    WriteRedirected(usize, Write),
    Race(Who, Race),
    /// The event whose number is up, over a connection of its own; accepted, the next is up.
    Probe(Who, Sequence),
    /// This event's number is up.
    SetNext(u64),
    /// Writes with values of one size until so many were sent or so much time has passed.
    Pour { who: Who, sequence: Sequence, within_ms: u64 },
    Version(Who, AggregateKey),
    LastSequence(Who, AggregateKey),
    Read(Who, AggregateKey, u64),
    ReadAll(Who, AggregateKey),
    /// Every value, beside the one that was written.
    ReadPairs(Who, Sequence),
    Count(Who, AggregateKey),
    /// Over a connection of its own.
    CountFresh(Who, AggregateKey),
    /// Over a connection of their own; a count that fails is none.
    CountBoth(Who, AggregateKey, AggregateKey),
    /// Until the count has come up to so many.
    AwaitConverged(Who, AggregateKey, u64),
    /// Event number `offset` after the count that an earlier step got.
    WriteCounted(Who, AggregateKey, usize, u64),
    /// The first on node A, the second on node B, whatever comes of either.
    WriteEach(Write, Write),
    /// A first event on node A in the first organisation and one on node B in the second, under an
    /// id that changes with the time.
    ProbeBoth(u128, u128),
    /// Milliseconds since a node was last stopped.
    SinceStop,
    /// Events from the first number to the second, each with a value of so many bytes.
    WriteLarge(Who, AggregateKey, u64, u64, u64),
    /// The sizes of the files of every shard.
    ListSegments,
    /// The names of the files of a node's first shard.
    ListLogFiles(Who),
    /// Holds the sizes of all segments against those that compaction leaves.
    VerifyCompacted(u64),
    AwaitCount(Who, AggregateKey, Target, u64),
    /// Holds two streams against each other, but for what may differ between nodes.
    Compare(usize, usize),
    /// Client 1 drops every version before this one.
    Trim(Who, AggregateKey, u64),
    Delete(Who, Deletion),
    DeleteTogether(Who, Deletion, Deletion),
    /// Client 1 registers a JSON schema for a version of a type.
    RegisterSchema { org: u128, kind: u128, major: u64, minor: u64, schema: &'static str },
    Watch { aggregate_id: u128, latency_ms: u64 },
    /// A watch on an organisation alone, past the client's own repair.
    WatchOrganisation(u128),
    /// What a watch reports within so many milliseconds.
    NextNotices(u64),
    /// Reads on from the last version seen at every report, until so many versions were seen or so
    /// much time has passed; one report is waited for no longer than `report_within_ms`.
    FollowWatch { key: AggregateKey, versions: u64, within_ms: u64, report_within_ms: u64 },
    FindLeader,
    ProbeLeaders,
    /// The lease, from this object.
    ReadLease(&'static str),
    /// The lease, from this object, again and again.
    SampleLease { path: &'static str, every_ms: u64, within_ms: u64 },
    /// Whether both nodes are members, from this object.
    ReadMembership(&'static str),
    ListObjects(Prefix),
    /// The object at a position of an earlier listing.
    ReadFallback(usize, u64),
    /// The last object of an earlier listing.
    ReadLastFallback(usize),
    /// One object for each entry from the first to the second, all with this text.
    SeedObjects(u32, u64, u64, &'static str),
    ReadSeeded,
    ConnectTls(Credential),
    /// Connects within so many milliseconds and writes once.
    ProbeTls { credential: Credential, write: Write, connect_within_ms: u64 },
    /// Connects without TLS and writes once, all within so many milliseconds.
    ProbePlaintext { write: Write, within_ms: u64 },
    Identify(Signer),
    WriteClaiming(Claim, Write),
    /// Whether a node accepts writes.
    IsLeader(Who),
    /// Whether the process of a node is running.
    IsAlive(Who),
    /// Over a connection of its own.
    ReadAllFresh(Who, AggregateKey),
    /// So many writers at once for so many milliseconds, each with aggregates of its own; how many
    /// events were acknowledged.
    Drive { who: Who, workers: u64, for_ms: u64 },
    /// How many objects stand in for the missing follower of the first so many shards.
    CountFallback(u32),
    /// So many aggregates, each with an event that creates it and one with a value of so many
    /// bytes.
    FillListed { org: u128, kind: u128, count: u128, payload_bytes: u64 },
    /// The aggregates of a type, over all shards: up to the one that is given, or up to the last
    /// that answers.
    ListAggregates { org: u128, kind: u128, max_shard_hint: Option<u64> },
    /// Through the pool of connections.
    Pool(PoolCall),
    /// To the account service.
    Account(AccountCall),
    /// Looks again at what an earlier step got.
    Recall(usize),
}

/// One event that goes through a pool: of type 1.0, with an id that is drawn and the time of day.
#[derive(Debug, Clone, Copy)]
pub struct PoolWrite {
    pub key: AggregateKey,
    pub client_seq: u64,
    pub payload: Payload,
    pub client_id: u128,
    /// Whether the aggregate may be created and the version that is expected; `None` for what the
    /// client does by itself.
    pub guard: Option<(bool, u64)>,
}

/// What a pool of connections is asked for.
#[derive(Debug, Clone, Copy)]
pub enum PoolCall {
    /// Makes a pool.
    Open { max_connections: Option<u64>, request_timeout_s: Option<u64> },
    /// One request, spelled out.
    Write(PoolWrite),
    /// The same by the shorter call.
    WriteEvents(PoolWrite),
    Read(AggregateKey, u64),
    Details(AggregateKey),
    Delete(Deletion),
    /// Begins to read a whole stream.
    ReadAll(AggregateKey),
    /// The rest of the stream that was begun.
    CollectBatches,
    /// Begins to list the organisations.
    ListOrgs,
    /// Begins to list the types of an organisation.
    ListTypes(u128),
    /// Begins to list the aggregates of an organisation.
    ListAggregates(u128),
    /// The rest of the listing that was begun.
    CollectIds,
    /// Takes a connection out of the pool.
    Lease,
    /// Takes a connection to the leader out of the pool.
    LeaseLeader,
    /// Gives the connection back.
    Return,
    LeasedRead(AggregateKey, u64),
    LeasedWrite(PoolWrite),
    LeasedDetails(AggregateKey),
    /// Asks for the details over the connection, looks for an answer once, and drops the question:
    /// whether the answer was there.
    LeasedPollOnce(AggregateKey),
}

/// One of two accounts.
#[derive(Debug, Clone, Copy, PartialEq, Eq, Structural)]
pub enum Account {
    First,
    Second,
}

/// What the account service is asked for, at one of its two replicas. A request has a number, and
/// asking again under the same number is a retry.
#[derive(Debug, Clone, Copy, PartialEq, Eq, Structural)]
pub enum AccountCall {
    Deposit { replica: Node, account: Account, cents: i64, request: u64 },
    /// Both replicas at once: the first request at replica A, the second at replica B.
    DepositBoth { account: Account, cents_a: i64, request_a: u64, cents_b: i64, request_b: u64 },
    Withdraw { replica: Node, account: Account, cents: i64, request: u64 },
    /// From the first account to the second.
    Transfer { replica: Node, cents: i64, request: u64 },
    /// How many events the account's stream has.
    CountEvents(Account),
    /// How many of the events of the account's stream belong to a request.
    CountRequest(Account, u64),
}

/// How long an expectation is waited for.
#[derive(Debug, Clone, Copy, PartialEq, Eq, Structural)]
pub enum Patience {
    /// One attempt.
    Once,
    /// Attempts with a pause between them for as long as the time has not passed when one begins.
    While { within_ms: u64, every_ms: u64 },
    /// Attempts with a pause between them until one fails after the time has passed.
    Until { within_ms: u64, every_ms: u64 },
}

/// How a scenario ends when an expectation is not met. A message names the figures that it needs
/// between curly brackets.
#[derive(Debug, Clone, Copy)]
pub enum OnFail {
    /// With an error.
    Error(&'static str),
    /// With a panic.
    Panic(&'static str),
    /// With a panic that shows the two values that should have been equal.
    Unequal(&'static str),
    /// With a panic that shows the two values that should not have been equal.
    Equal(&'static str),
    /// With the first error where the time ran out, with the second where no attempt could have
    /// mended it.
    Errors(&'static str, &'static str),
}

/// Which two values a complaint shows.
#[derive(Debug, Clone, Copy, PartialEq, Eq, Structural)]
pub enum Sides {
    Untold,
    /// Two that should have been equal.
    Unequal,
    /// Two that should not have been equal.
    Equal,
}

/// What is said when a scenario fails, and whether with a panic.
#[derive(Debug, Clone, Copy)]
pub struct Complaint {
    pub message: &'static str,
    pub panics: bool,
    pub sides: Sides,
}

/// Whether an expectation is about what is read, so that being turned down is another matter.
#[verifier::allow_in_spec]
pub fn weighs_a_value(expect: Expect) -> bool
    returns
        (match expect {
            Expect::Number(_)
            | Expect::Stream(_)
            | Expect::Intact(_)
            | Expect::Lease(_)
            | Expect::Listing(_)
            | Expect::Untouched(_, _)
            | Expect::Fallback(_)
            | Expect::Summarised
            | Expect::MoreSegments(_)
            | Expect::OneWinner(_, _)
            | Expect::FollowedTo(_)
            | Expect::IdentityMatches
            | Expect::RenewalsAtMost(_, _)
            | Expect::Balance(_)
            | Expect::Balances(_, _) => true,
            _ => false,
        }),
{
    match expect {
        Expect::Number(_)
        | Expect::Stream(_)
        | Expect::Intact(_)
        | Expect::Lease(_)
        | Expect::Listing(_)
        | Expect::Untouched(_, _)
        | Expect::Fallback(_)
        | Expect::Summarised
        | Expect::MoreSegments(_)
        | Expect::OneWinner(_, _)
        | Expect::FollowedTo(_)
        | Expect::IdentityMatches
        | Expect::RenewalsAtMost(_, _)
        | Expect::Balance(_)
        | Expect::Balances(_, _) => true,
        _ => false,
    }
}

/// Whether a step that failed only hands on the error of the bench: the bench could not do what was
/// asked, or it turned down the only attempt to read what the step is about.
#[verifier::allow_in_spec]
pub fn hands_on(step: Step, judged: Judgement, refused: bool) -> bool
    returns
        (judged == Judgement::Broken || (refused && weighs_a_value(step.expect)
            && match step.patience {
            Patience::Once => true,
            _ => false,
        })),
{
    judged == Judgement::Broken || (refused && weighs_a_value(step.expect) && match step.patience {
        Patience::Once => true,
        _ => false,
    })
}

/// What is said of a step that failed, by what its last reply came to and whether that turned the
/// step down.
#[verifier::allow_in_spec]
pub fn complaint_of(step: Step, judged: Judgement, refused: bool) -> Complaint
    returns
        (if hands_on(step, judged, refused) {
            Complaint { message: "", panics: false, sides: Sides::Untold }
        } else {
            match step.on_fail {
                OnFail::Error(message) => Complaint {
                    message,
                    panics: false,
                    sides: Sides::Untold,
                },
                OnFail::Panic(message) => Complaint {
                    message,
                    panics: true,
                    sides: Sides::Untold,
                },
                OnFail::Unequal(message) => Complaint {
                    message,
                    panics: true,
                    sides: Sides::Unequal,
                },
                OnFail::Equal(message) => Complaint {
                    message,
                    panics: true,
                    sides: Sides::Equal,
                },
                OnFail::Errors(unmet, lost) => Complaint {
                    message: if judged == Judgement::Hopeless {
                        lost
                    } else {
                        unmet
                    },
                    panics: false,
                    sides: Sides::Untold,
                },
            }
        }),
{
    if hands_on(step, judged, refused) {
        Complaint { message: "", panics: false, sides: Sides::Untold }
    } else {
        match step.on_fail {
            OnFail::Error(message) => Complaint { message, panics: false, sides: Sides::Untold },
            OnFail::Panic(message) => Complaint { message, panics: true, sides: Sides::Untold },
            OnFail::Unequal(message) => Complaint { message, panics: true, sides: Sides::Unequal },
            OnFail::Equal(message) => Complaint { message, panics: true, sides: Sides::Equal },
            OnFail::Errors(unmet, lost) => Complaint {
                message: if judged == Judgement::Hopeless {
                    lost
                } else {
                    unmet
                },
                panics: false,
                sides: Sides::Untold,
            },
        }
    }
}

/// The earlier step that a step is held against, where there is one.
#[verifier::allow_in_spec]
pub fn held_against(step: Step) -> Option<usize>
    returns
        (match step.action {
            Action::WriteRedirected(k, _) => Some(k),
            _ => match step.expect {
                Expect::Number(NumberRule::Same(k))
                | Expect::Number(NumberRule::Next(k))
                | Expect::Number(NumberRule::Plus(k, _))
                | Expect::Number(NumberRule::NotAbove(k))
                | Expect::Number(NumberRule::Differs(k))
                | Expect::Number(NumberRule::OnePlusAcked(k))
                | Expect::Stream(StreamRule::OnePlusAcked(k))
                | Expect::Lease(LeaseRule::IndexAbove(k))
                | Expect::Lease(LeaseRule::IndexAfter(k))
                | Expect::Lease(LeaseRule::IndexWithin(k, _))
                | Expect::Lease(LeaseRule::IndexSame(k))
                | Expect::Lease(LeaseRule::EpochNotBelow(k))
                | Expect::Lease(LeaseRule::EpochAbove(k))
                | Expect::Lease(LeaseRule::EpochWithin(k, _))
                | Expect::Lease(LeaseRule::EpochSame(k))
                | Expect::Lease(LeaseRule::ExpiryAbove(k))
                | Expect::Lease(LeaseRule::LeaderSame(k))
                | Expect::Lease(LeaseRule::LeaderOther(k))
                | Expect::Listing(ListingRule::AsMany(k))
                | Expect::Fallback(FallbackRule::TermOf(k))
                | Expect::FlagOther(k)
                | Expect::MoreSegments(k)
                | Expect::RenewalsAtMost(k, _) => Some(k),
                _ => None,
            },
        }),
{
    match step.action {
        Action::WriteRedirected(k, _) => Some(k),
        _ => match step.expect {
            Expect::Number(NumberRule::Same(k))
            | Expect::Number(NumberRule::Next(k))
            | Expect::Number(NumberRule::Plus(k, _))
            | Expect::Number(NumberRule::NotAbove(k))
            | Expect::Number(NumberRule::Differs(k))
            | Expect::Number(NumberRule::OnePlusAcked(k))
            | Expect::Stream(StreamRule::OnePlusAcked(k))
            | Expect::Lease(LeaseRule::IndexAbove(k))
            | Expect::Lease(LeaseRule::IndexAfter(k))
            | Expect::Lease(LeaseRule::IndexWithin(k, _))
            | Expect::Lease(LeaseRule::IndexSame(k))
            | Expect::Lease(LeaseRule::EpochNotBelow(k))
            | Expect::Lease(LeaseRule::EpochAbove(k))
            | Expect::Lease(LeaseRule::EpochWithin(k, _))
            | Expect::Lease(LeaseRule::EpochSame(k))
            | Expect::Lease(LeaseRule::ExpiryAbove(k))
            | Expect::Lease(LeaseRule::LeaderSame(k))
            | Expect::Lease(LeaseRule::LeaderOther(k))
            | Expect::Listing(ListingRule::AsMany(k))
            | Expect::Fallback(FallbackRule::TermOf(k))
            | Expect::FlagOther(k)
            | Expect::MoreSegments(k)
            | Expect::RenewalsAtMost(k, _) => Some(k),
            _ => None,
        },
    }
}

/// What is said of a step that got `reply` last, or nothing yet. A step without words of its own
/// hands on what the reply says.
pub open spec fn told(
    complaint: Complaint,
    expect: Expect,
    reply: Option<Reply>,
    was: Option<Reply>,
    memory: Memory,
) -> Seq<char> {
    match reply {
        None => complaint.message@,
        Some(r) => if complaint.message@.len() == 0 {
            reply_text(r)
        } else {
            let said = filled(complaint.message@, expect, r, was, memory);
            match complaint.sides {
                Sides::Untold => said,
                Sides::Unequal => two_sided(
                    "assertion `left == right` failed: "@,
                    said,
                    left_side(expect, r, was),
                    right_side(expect, r, was),
                ),
                Sides::Equal => two_sided(
                    "assertion `left != right` failed: "@,
                    said,
                    left_side(expect, r, was),
                    right_side(expect, r, was),
                ),
            }
        },
    }
}

/// What is said of a step that got `reply` last, or nothing yet.
pub fn tell(
    complaint: Complaint,
    expect: Expect,
    reply: Option<&Reply>,
    was: Option<&Reply>,
    registers: &Registers,
) -> (r: String)
    ensures
        r@ == told(
            complaint,
            expect,
            match reply {
                Some(x) => Some(*x),
                None => None,
            },
            match was {
                Some(x) => Some(*x),
                None => None,
            },
            registers@,
        ),
{
    let mut out: String = String::new();
    match reply {
        None => {
            out.append(complaint.message);
        },
        Some(x) => if is_blank(complaint.message) {
            push_reply(&mut out, x);
        } else {
            match complaint.sides {
                Sides::Untold => push_filled(
                    &mut out,
                    complaint.message,
                    expect,
                    x,
                    was,
                    registers,
                ),
                Sides::Unequal => push_two_sided(
                    &mut out,
                    "assertion `left == right` failed: ",
                    complaint.message,
                    expect,
                    x,
                    was,
                    registers,
                ),
                Sides::Equal => push_two_sided(
                    &mut out,
                    "assertion `left != right` failed: ",
                    complaint.message,
                    expect,
                    x,
                    was,
                    registers,
                ),
            }
        },
    }
    assert(out@ =~= told(
        complaint,
        expect,
        match reply {
            Some(x) => Some(*x),
            None => None,
        },
        match was {
            Some(x) => Some(*x),
            None => None,
        },
        registers@,
    ));
    out
}

/// What is done before an action is tried again: a write that has a connection to lose gets a new
/// one.
#[verifier::allow_in_spec]
pub fn renewal(action: Action, tried: bool) -> Option<Action>
    returns
        (match action {
            Action::WriteRenewing(who, _) => if tried {
                Some(Action::Connect(who))
            } else {
                None
            },
            _ => None,
        }),
{
    match action {
        Action::WriteRenewing(who, _) => if tried {
            Some(Action::Connect(who))
        } else {
            None
        },
        _ => None,
    }
}

/// One step of a scenario.
#[derive(Debug, Clone, Copy)]
pub struct Step {
    pub action: Action,
    pub expect: Expect,
    pub patience: Patience,
    pub on_fail: OnFail,
}

/// A step that is tried once and ends the scenario with an error.
#[verifier::allow_in_spec]
pub fn step(action: Action, expect: Expect, message: &'static str) -> Step
    returns
        (Step { action, expect, patience: Patience::Once, on_fail: OnFail::Error(message) }),
{
    Step { action, expect, patience: Patience::Once, on_fail: OnFail::Error(message) }
}

/// A step that is tried once and ends the scenario with the first error, or with the second where
/// no other attempt could have mended it.
#[verifier::allow_in_spec]
pub fn either(action: Action, expect: Expect, unmet: &'static str, lost: &'static str) -> Step
    returns
        (Step { action, expect, patience: Patience::Once, on_fail: OnFail::Errors(unmet, lost) }),
{
    Step { action, expect, patience: Patience::Once, on_fail: OnFail::Errors(unmet, lost) }
}

/// A step that is tried once and ends the scenario with a panic.
#[verifier::allow_in_spec]
pub fn assertion(action: Action, expect: Expect, message: &'static str) -> Step
    returns
        (Step { action, expect, patience: Patience::Once, on_fail: OnFail::Panic(message) }),
{
    Step { action, expect, patience: Patience::Once, on_fail: OnFail::Panic(message) }
}

/// A step that is tried once and ends the scenario with a panic that shows the two values that
/// should have been equal.
#[verifier::allow_in_spec]
pub fn assertion_eq(action: Action, expect: Expect, message: &'static str) -> Step
    returns
        (Step { action, expect, patience: Patience::Once, on_fail: OnFail::Unequal(message) }),
{
    Step { action, expect, patience: Patience::Once, on_fail: OnFail::Unequal(message) }
}

/// A step that is tried once and ends the scenario with a panic that shows the two values that
/// should not have been equal.
#[verifier::allow_in_spec]
pub fn assertion_ne(action: Action, expect: Expect, message: &'static str) -> Step
    returns
        (Step { action, expect, patience: Patience::Once, on_fail: OnFail::Equal(message) }),
{
    Step { action, expect, patience: Patience::Once, on_fail: OnFail::Equal(message) }
}

/// A step that only has to be done; what the bench says when it is not is the scenario's error.
#[verifier::allow_in_spec]
pub fn must(action: Action) -> Step
    returns
        (step(action, Expect::Accepted, "")),
{
    step(action, Expect::Accepted, "")
}

/// A sequence of which every event has to be accepted.
#[verifier::allow_in_spec]
pub fn sends(who: Who, sequence: Sequence) -> Step
    returns
        (step(Action::WriteSequence(who, sequence), Expect::Accepted, "{halt}")),
{
    step(Action::WriteSequence(who, sequence), Expect::Accepted, "{halt}")
}

/// A step whose outcome is only remembered.
#[verifier::allow_in_spec]
pub fn note(action: Action) -> Step
    returns
        (step(action, Expect::Anything, "")),
{
    step(action, Expect::Anything, "")
}

/// A step that is tried again and again for as long as the time has not passed.
#[verifier::allow_in_spec]
pub fn keep_trying(
    action: Action,
    expect: Expect,
    within_ms: u64,
    every_ms: u64,
    message: &'static str,
) -> Step
    returns
        (Step {
            action,
            expect,
            patience: Patience::While { within_ms, every_ms },
            on_fail: OnFail::Error(message),
        }),
{
    Step {
        action,
        expect,
        patience: Patience::While { within_ms, every_ms },
        on_fail: OnFail::Error(message),
    }
}

/// A step that is tried again and again for as long as the time has not passed, and ends the
/// scenario with a panic.
#[verifier::allow_in_spec]
pub fn keep_asserting(
    action: Action,
    expect: Expect,
    within_ms: u64,
    every_ms: u64,
    message: &'static str,
) -> Step
    returns
        (Step {
            action,
            expect,
            patience: Patience::While { within_ms, every_ms },
            on_fail: OnFail::Panic(message),
        }),
{
    Step {
        action,
        expect,
        patience: Patience::While { within_ms, every_ms },
        on_fail: OnFail::Panic(message),
    }
}

/// A step that is tried again and again until it fails after the time has passed.
#[verifier::allow_in_spec]
pub fn try_until(
    action: Action,
    expect: Expect,
    within_ms: u64,
    every_ms: u64,
    message: &'static str,
) -> Step
    returns
        (Step {
            action,
            expect,
            patience: Patience::Until { within_ms, every_ms },
            on_fail: OnFail::Error(message),
        }),
{
    Step {
        action,
        expect,
        patience: Patience::Until { within_ms, every_ms },
        on_fail: OnFail::Error(message),
    }
}

/// A step that waits for a node to have so many events of an aggregate, and ends the scenario with
/// a panic where they do not come in time.
#[verifier::allow_in_spec]
pub fn await_events(who: Who, key: AggregateKey, n: u64, within_ms: u64) -> Step
    returns
        (assertion(
            Action::AwaitCount(who, key, Target::Events(n), within_ms),
            Expect::Number(NumberRule::AtLeast(n)),
            "the events did not come in time",
        )),
{
    assertion(
        Action::AwaitCount(who, key, Target::Events(n), within_ms),
        Expect::Number(NumberRule::AtLeast(n)),
        "the events did not come in time",
    )
}

/// What the bench is to do next.
#[derive(Debug, Clone, Copy, PartialEq, Eq, Structural)]
pub enum Next {
    /// The action of the step at hand.
    Perform,
    /// Nothing: the step at hand looks at an earlier reply.
    Check,
    Passed,
    Failed,
}

/// What a reply led to.
#[derive(Debug, Clone, Copy, PartialEq, Eq, Structural)]
pub enum Progress {
    /// On to the next step.
    Advanced,
    /// Another attempt after so many milliseconds.
    Wait(u64),
    Failed,
}

/// The memory of a scenario before its first step.
pub open spec fn blank() -> Memory {
    Memory {
        leader: None,
        address_a: None,
        address_b: None,
        operations: Seq::empty(),
        last: None,
    }
}

/// The address that `reply` gives to `node`, or the one it had.
pub open spec fn learned_address(step: Step, reply: Reply, node: Node, had: Option<Seq<char>>) -> Option<
    Seq<char>,
> {
    match (step.action, reply) {
        (Action::StartNode { node: n, .. }, Reply::Started(address)) => if n == node {
            Some(address@)
        } else {
            had
        },
        _ => had,
    }
}

/// The leader that `reply` shows, or the one before.
pub open spec fn learned_leader(step: Step, reply: Reply, had: Option<Node>) -> Option<Node> {
    match (step.expect, reply) {
        (Expect::LeaderFound, Reply::Leaders(a, _)) => Some(
            if a {
                Node::A
            } else {
                Node::B
            },
        ),
        (Expect::OneWriter, Reply::Leaders(a, _)) => Some(
            if a {
                Node::A
            } else {
                Node::B
            },
        ),
        _ => had,
    }
}

/// The report that a step waited for, where it did and one came.
pub open spec fn learned_notice(step: Step, reply: Reply, operations: Seq<u64>) -> Option<Notice> {
    match (step.expect, reply) {
        (Expect::Notice(rule), Reply::Notices(notices)) => first_notice(
            rule,
            operations,
            notices@,
        ),
        _ => None,
    }
}

/// The memory after a step that got `reply`.
pub open spec fn learned(memory: Memory, step: Step, reply: Reply) -> Memory {
    let notice = learned_notice(step, reply, memory.operations);
    Memory {
        leader: learned_leader(step, reply, memory.leader),
        address_a: learned_address(step, reply, Node::A, memory.address_a),
        address_b: learned_address(step, reply, Node::B, memory.address_b),
        operations: match notice {
            Some(n) => memory.operations.push(n.operation),
            None => memory.operations,
        },
        last: match notice {
            Some(n) => Some(n),
            None => memory.last,
        },
    }
}

/// The memory after the steps that got `history`.
#[verifier::opaque]
pub open spec fn recollection(steps: Seq<Step>, history: Seq<Reply>) -> Memory
    decreases history.len(),
{
    if history.len() == 0 {
        blank()
    } else {
        learned(
            recollection(steps, history.drop_last()),
            steps[history.len() - 1],
            history.last(),
        )
    }
}

/// What a step is judged by: the reply it got, or the earlier one that it looks at.
pub open spec fn subject(step: Step, before: Seq<Reply>, reply: Reply) -> Reply {
    match step.action {
        Action::Recall(k) => if k < before.len() {
            before[k as int]
        } else {
            reply
        },
        _ => reply,
    }
}

/// Whether step `k` got what it expects in `history`.
pub open spec fn met_at(steps: Seq<Step>, history: Seq<Reply>, k: int) -> bool {
    let before = history.take(k);
    judgement(
        steps[k].expect,
        before,
        recollection(steps, before),
        subject(steps[k], before, history[k]),
    ) == Judgement::Met
}

/// Whether `history` takes a script from its first step to its end.
pub open spec fn passes(steps: Seq<Step>, history: Seq<Reply>) -> bool {
    &&& history.len() == steps.len()
    &&& forall|k: int| 0 <= k < steps.len() ==> #[trigger] met_at(steps, history, k)
}

/// What is remembered after step `k` is what was remembered before it and what it taught.
pub proof fn memory_grows(steps: Seq<Step>, history: Seq<Reply>, k: int)
    requires
        0 <= k < history.len(),
    ensures
        recollection(steps, history.take(k + 1)) == learned(
            recollection(steps, history.take(k)),
            steps[k],
            history[k],
        ),
        recollection(steps, history.take(0)) == blank(),
{
    reveal(recollection);
    assert(history.take(k + 1).drop_last() =~= history.take(k));
}

/// Whether the first `n` steps got what they expect.
pub open spec fn met_before(steps: Seq<Step>, history: Seq<Reply>, n: nat) -> bool
    decreases n,
{
    n == 0 || (met_before(steps, history, (n - 1) as nat) && met_at(steps, history, n - 1))
}

/// A script passes exactly where each of its steps, one after the other, got what it expects.
pub proof fn passing_is_step_by_step(steps: Seq<Step>, history: Seq<Reply>)
    ensures
        passes(steps, history) <==> history.len() == steps.len() && met_before(
            steps,
            history,
            steps.len(),
        ),
{
    if history.len() == steps.len() {
        lemma_met_before(steps, history, steps.len());
    }
}

proof fn lemma_met_before(steps: Seq<Step>, history: Seq<Reply>, n: nat)
    ensures
        met_before(steps, history, n) <==> forall|k: int|
            0 <= k < n ==> #[trigger] met_at(steps, history, k),
    decreases n,
{
    if n > 0 {
        lemma_met_before(steps, history, (n - 1) as nat);
    }
}

/// Whether none of the replies from `first` to `last` is a refusal.
pub open spec fn accepted_through(history: Seq<Reply>, first: int, last: int) -> bool {
    forall|k: int| first <= k <= last ==> !turned_down(#[trigger] history[k])
}

/// A scenario under way.
pub struct Run {
    pub steps: Vec<Step>,
    /// The replies that met the steps so far, one each.
    pub history: Vec<Reply>,
    pub registers: Registers,
    /// When the patience of the step at hand ends, once it has begun.
    pub deadline: Option<u64>,
    /// The number of the event that is up.
    pub next_event: u64,
    /// What the step at hand got last, where that did not meet it.
    pub unmet: Option<Reply>,
    pub failed: bool,
    /// What the last reply came to.
    pub judged: Judgement,
}

impl Run {
    /// Every step behind the run got what it expects, and the run remembers what they taught.
    pub open spec fn wf(&self) -> bool {
        &&& self.history@.len() <= self.steps@.len()
        &&& self.registers@ == recollection(self.steps@, self.history@)
        &&& forall|k: int|
            0 <= k < self.history@.len() ==> #[trigger] met_at(self.steps@, self.history@, k)
    }

    /// Whether every step is behind the run.
    pub open spec fn done(&self) -> bool {
        self.history@.len() == self.steps@.len()
    }

    /// The step at hand.
    pub open spec fn at(&self) -> Step {
        self.steps@[self.history@.len() as int]
    }

    /// What the step at hand was judged by last, where that did not meet it.
    pub open spec fn culprit(&self) -> Option<Reply> {
        match self.at().action {
            Action::Recall(k) => if k < self.history@.len() {
                Some(self.history@[k as int])
            } else {
                self.unmet
            },
            _ => self.unmet,
        }
    }

    /// The earlier reply that the step at hand is held against.
    pub open spec fn precedent(&self) -> Option<Reply> {
        match held_against(self.at()) {
            Some(k) => if k < self.history@.len() {
                Some(self.history@[k as int])
            } else {
                None
            },
            None => None,
        }
    }

    /// What is said of the step at hand, and how.
    pub open spec fn grievance(&self) -> Complaint {
        complaint_of(
            self.at(),
            self.judged,
            match self.culprit() {
                Some(reply) => turned_down(reply),
                None => false,
            },
        )
    }

    /// What is said of the step at hand, with what it got last.
    pub open spec fn account(&self) -> Seq<char> {
        told(
            self.grievance(),
            self.at().expect,
            self.culprit(),
            self.precedent(),
            self.registers@,
        )
    }

    /// What `reply` comes to at the step at hand.
    pub open spec fn verdict(&self, reply: Reply) -> Judgement {
        judgement(
            self.at().expect,
            self.history@,
            self.registers@,
            subject(self.at(), self.history@, reply),
        )
    }

    /// A scenario at its first step.
    pub fn new(steps: Vec<Step>) -> (r: Run)
        ensures
            r.wf(),
            r.steps == steps,
            r.history@.len() == 0,
            r.deadline is None,
            r.next_event == 0,
            r.unmet is None,
            !r.failed,
            r.judged == Judgement::Met,
    {
        proof {
            reveal(recollection);
        }
        Run {
            steps,
            history: Vec::new(),
            registers: Registers::new(),
            deadline: None,
            next_event: 0,
            unmet: None,
            failed: false,
            judged: Judgement::Met,
        }
    }

    /// What the bench is to do at the time `now`. A step whose patience ran out before this
    /// attempt fails here.
    pub fn next(&mut self, now: u64) -> (r: Next)
        requires
            old(self).wf(),
        ensures
            final(self).wf(),
            final(self).steps == old(self).steps,
            final(self).history == old(self).history,
            final(self).registers == old(self).registers,
            final(self).next_event == old(self).next_event,
            final(self).unmet == old(self).unmet,
            final(self).judged == old(self).judged,
            old(self).failed ==> r == Next::Failed && *final(self) == *old(self),
            !old(self).failed && old(self).done() ==> r == Next::Passed && *final(self) == *old(
                self,
            ),
            !old(self).failed && !old(self).done() ==> {
                &&& r == next_move(old(self).at(), old(self).deadline, now)
                &&& final(self).deadline == begun(old(self).at().patience, old(self).deadline, now)
                &&& final(self).failed == (r == Next::Failed)
            },
    {
        if self.failed {
            return Next::Failed;
        }
        if self.history.len() == self.steps.len() {
            return Next::Passed;
        }
        let step: Step = self.steps[self.history.len()];
        let r: Next = next_move(step, self.deadline, now);
        self.deadline = begun(step.patience, self.deadline, now);
        if r == Next::Failed {
            self.failed = true;
        }
        r
    }

    /// Takes the reply to the step at hand, which came at the time `now`.
    pub fn observe(&mut self, reply: Reply, now: u64) -> (r: Progress)
        requires
            old(self).wf(),
            !old(self).failed,
            !old(self).done(),
        ensures
            final(self).wf(),
            final(self).steps == old(self).steps,
            final(self).failed == (r == Progress::Failed),
            final(self).judged == old(self).verdict(reply),
            match old(self).verdict(reply) {
                Judgement::Met => {
                    &&& r == Progress::Advanced
                    &&& final(self).history@ == old(self).history@.push(reply)
                    &&& final(self).deadline is None
                    &&& final(self).unmet is None
                },
                other => {
                    &&& r == setback(old(self).at().patience, other, old(self).deadline, now)
                    &&& final(self).history == old(self).history
                    &&& final(self).registers == old(self).registers
                    &&& final(self).deadline == old(self).deadline
                    &&& final(self).unmet == Some(reply)
                },
            },
            final(self).next_event == following(old(self).at().action, old(self).next_event, reply),
    {
        let at: usize = self.history.len();
        let step: Step = self.steps[at];
        self.next_event = next_event_after(step.action, self.next_event, &reply);
        let j: Judgement = match step.action {
            Action::Recall(k) => if k < self.history.len() {
                judge(step.expect, &self.history, &self.registers, &self.history[k])
            } else {
                judge(step.expect, &self.history, &self.registers, &reply)
            },
            _ => judge(step.expect, &self.history, &self.registers, &reply),
        };
        self.judged = j;
        if j == Judgement::Met {
            let ghost steps = self.steps@;
            let ghost before = self.history@;
            learn(&mut self.registers, step, &reply);
            self.history.push(reply);
            self.deadline = None;
            self.unmet = None;
            proof {
                reveal(recollection);
                let after = self.history@;
                assert(after.drop_last() =~= before);
                assert(after.take(before.len() as int) =~= before);
                assert forall|k: int| 0 <= k < after.len() implies #[trigger] met_at(
                    steps,
                    after,
                    k,
                ) by {
                    if k < before.len() {
                        assert(met_at(steps, before, k));
                        assert(after.take(k) =~= before.take(k));
                    }
                }
            }
            Progress::Advanced
        } else {
            let r: Progress = setback(step.patience, j, self.deadline, now);
            self.unmet = Some(reply);
            if r == Progress::Failed {
                self.failed = true;
            }
            r
        }
    }

    /// What is said of the step that failed, and how.
    pub fn complaint(&self) -> (r: Option<Complaint>)
        requires
            self.wf(),
        ensures
            r == if self.failed && !self.done() {
                Some(self.grievance())
            } else {
                None
            },
    {
        if self.failed && self.history.len() < self.steps.len() {
            let refused: bool = match self.find_culprit() {
                Some(reply) => is_turned_down(reply),
                None => false,
            };
            Some(complaint_of(self.steps[self.history.len()], self.judged, refused))
        } else {
            None
        }
    }

    fn find_culprit(&self) -> (r: Option<&Reply>)
        requires
            self.wf(),
            !self.done(),
        ensures
            match r {
                Some(reply) => self.culprit() == Some(*reply),
                None => self.culprit() is None,
            },
    {
        let unmet: Option<&Reply> = match &self.unmet {
            Some(reply) => Some(reply),
            None => None,
        };
        match self.steps[self.history.len()].action {
            Action::Recall(k) => if k < self.history.len() {
                Some(&self.history[k])
            } else {
                unmet
            },
            _ => unmet,
        }
    }

    /// What is said of the step that failed, with what it got last.
    pub fn report(&self) -> (r: Option<String>)
        requires
            self.wf(),
        ensures
            r is Some == (self.failed && !self.done()),
            r matches Some(text) ==> text@ == self.account(),
    {
        match self.complaint() {
            Some(c) => {
                let step: Step = self.steps[self.history.len()];
                let was: Option<&Reply> = match held_against(step) {
                    Some(k) => if k < self.history.len() {
                        Some(&self.history[k])
                    } else {
                        None
                    },
                    None => None,
                };
                Some(tell(c, step.expect, self.find_culprit(), was, &self.registers))
            },
            None => None,
        }
    }

    /// What is done before the step at hand is tried, where that is anything.
    pub fn before_attempt(&self) -> (r: Option<Action>)
        requires
            self.wf(),
            !self.done(),
        ensures
            r == renewal(self.at().action, self.unmet is Some),
    {
        renewal(self.steps[self.history.len()].action, self.unmet.is_some())
    }
}

/// When the patience that begins at `now`, or has begun before, ends.
#[verifier::allow_in_spec]
pub fn begun(patience: Patience, deadline: Option<u64>, now: u64) -> Option<u64>
    returns
        (match patience {
            Patience::Once => deadline,
            Patience::While { within_ms, .. } => match deadline {
                Some(d) => Some(d),
                None => Some(now.saturating_add(within_ms)),
            },
            Patience::Until { within_ms, .. } => match deadline {
                Some(d) => Some(d),
                None => Some(now.saturating_add(within_ms)),
            },
        }),
{
    match patience {
        Patience::Once => deadline,
        Patience::While { within_ms, .. } => match deadline {
            Some(d) => Some(d),
            None => Some(now.saturating_add(within_ms)),
        },
        Patience::Until { within_ms, .. } => match deadline {
            Some(d) => Some(d),
            None => Some(now.saturating_add(within_ms)),
        },
    }
}

/// What the bench is to do at a step, at the time `now`.
#[verifier::allow_in_spec]
pub fn next_move(step: Step, deadline: Option<u64>, now: u64) -> Next
    returns
        (match step.action {
            Action::Recall(_) => Next::Check,
            _ => match step.patience {
                Patience::While { .. } => match begun(step.patience, deadline, now) {
                    Some(d) => if now < d {
                        Next::Perform
                    } else {
                        Next::Failed
                    },
                    None => Next::Perform,
                },
                _ => Next::Perform,
            },
        }),
{
    match step.action {
        Action::Recall(_) => Next::Check,
        _ => match step.patience {
            Patience::While { .. } => match begun(step.patience, deadline, now) {
                Some(d) => if now < d {
                    Next::Perform
                } else {
                    Next::Failed
                },
                None => Next::Perform,
            },
            _ => Next::Perform,
        },
    }
}

/// What an attempt that did not meet its expectation leads to, at the time `now`.
#[verifier::allow_in_spec]
pub fn setback(patience: Patience, j: Judgement, deadline: Option<u64>, now: u64) -> Progress
    returns
        (if j == Judgement::Hopeless || j == Judgement::Broken {
            Progress::Failed
        } else {
            match patience {
                Patience::Once => Progress::Failed,
                Patience::While { every_ms, .. } => Progress::Wait(every_ms),
                Patience::Until { every_ms, .. } => match deadline {
                    Some(d) => if now < d {
                        Progress::Wait(every_ms)
                    } else {
                        Progress::Failed
                    },
                    None => Progress::Failed,
                },
            }
        }),
{
    if j == Judgement::Hopeless || j == Judgement::Broken {
        Progress::Failed
    } else {
        match patience {
            Patience::Once => Progress::Failed,
            Patience::While { every_ms, .. } => Progress::Wait(every_ms),
            Patience::Until { every_ms, .. } => match deadline {
                Some(d) => if now < d {
                    Progress::Wait(every_ms)
                } else {
                    Progress::Failed
                },
                None => Progress::Failed,
            },
        }
    }
}

/// The number of the event that is up after a reply.
pub open spec fn following(action: Action, next_event: u64, reply: Reply) -> u64 {
    match action {
        Action::SetNext(n) => n,
        Action::Probe(_, _) => if reply is Done && next_event < u64::MAX {
            (next_event + 1) as u64
        } else {
            next_event
        },
        _ => next_event,
    }
}

fn next_event_after(action: Action, next_event: u64, reply: &Reply) -> (r: u64)
    ensures
        r == following(action, next_event, *reply),
{
    match action {
        Action::SetNext(n) => n,
        Action::Probe(_, _) => match reply {
            Reply::Done => if next_event < u64::MAX {
                next_event + 1
            } else {
                next_event
            },
            _ => next_event,
        },
        _ => next_event,
    }
}

/// Remembers what a step taught.
fn learn(registers: &mut Registers, step: Step, reply: &Reply)
    ensures
        final(registers)@ == learned(old(registers)@, step, *reply),
{
    match (step.action, reply) {
        (Action::StartNode { node, .. }, Reply::Started(address)) => match node {
            Node::A => {
                registers.address_a = Some(address.clone());
            },
            Node::B => {
                registers.address_b = Some(address.clone());
            },
        },
        _ => {},
    }
    match (step.expect, reply) {
        (Expect::LeaderFound, Reply::Leaders(a, _)) | (Expect::OneWriter, Reply::Leaders(a, _)) => {
            registers.leader = Some(
                if *a {
                    Node::A
                } else {
                    Node::B
                },
            );
        },
        (Expect::Notice(rule), Reply::Notices(notices)) => {
            match find_notice(rule, &registers.operations, notices) {
                Some(n) => {
                    registers.operations.push(n.operation);
                    registers.last = Some(n);
                },
                None => {},
            }
        },
        _ => {},
    }
}

/// A run that came to its end without failing got, at every step, what the step expects.
pub proof fn a_finished_run_passes(run: Run)
    requires
        run.wf(),
        run.done(),
    ensures
        passes(run.steps@, run.history@),
{
}

/// A run that is not at its end has met every step behind it and none ahead: the step at hand is
/// the first that has not got what it expects.
pub proof fn the_step_at_hand_is_the_first_unmet(run: Run, k: int)
    requires
        run.wf(),
        !run.done(),
        0 <= k < run.history@.len(),
    ensures
        met_at(run.steps@, run.history@, k),
        run.history@.len() < run.steps@.len(),
{
}

/// What a script makes of the replies to its first steps does not depend on what comes after.
pub proof fn a_prefix_decides_for_itself(steps: Seq<Step>, history: Seq<Reply>, n: int, k: int)
    requires
        0 <= k < n <= history.len(),
        history.len() <= steps.len(),
    ensures
        met_at(steps, history, k) == met_at(steps, history.take(n), k),
{
    assert(history.take(n).take(k) =~= history.take(k));
}

/// Between two attempts at a step the clock decides alone: a step that is tried for a while is
/// begun again exactly while its time has not passed.
pub proof fn patience_ends(step: Step, started: u64, within: u64, every: u64, now: u64)
    requires
        step.patience == (Patience::While { within_ms: within, every_ms: every }),
        !(step.action is Recall),
        started + within <= u64::MAX,
    ensures
        begun(step.patience, None, started) == Some((started + within) as u64),
        next_move(step, begun(step.patience, None, started), now) == if now < started + within {
            Next::Perform
        } else {
            Next::Failed
        },
{
}

/// A step that is tried until a time has passed is always tried again, after its pause, while that
/// time has not passed, and fails at the first attempt after it.
pub proof fn patience_until_ends(step: Step, started: u64, within: u64, every: u64, now: u64)
    requires
        step.patience == (Patience::Until { within_ms: within, every_ms: every }),
        !(step.action is Recall),
        started + within <= u64::MAX,
    ensures
        ({
            let deadline = begun(step.patience, None, started);
            &&& next_move(step, deadline, now) == Next::Perform
            &&& setback(step.patience, Judgement::NotYet, deadline, now) == if now - started < within {
                Progress::Wait(every)
            } else {
                Progress::Failed
            }
        }),
{
}

/// A step that is tried once fails with its first attempt; no patience helps where the case is lost; and
/// a step that is begun anew keeps the time that it was given first.
pub proof fn patience_does_not_help_lost_cases(
    patience: Patience,
    deadline: u64,
    now: u64,
    later: u64,
)
    ensures
        setback(Patience::Once, Judgement::NotYet, Some(deadline), now) == Progress::Failed,
        setback(patience, Judgement::Hopeless, Some(deadline), now) == Progress::Failed,
        setback(patience, Judgement::Broken, Some(deadline), now) == Progress::Failed,
        begun(patience, Some(deadline), later) == Some(deadline),
        begun(Patience::Once, None, now) is None,
{
}

/// Only a write over a connection that it may have lost gets a new one, to its own node, and only once
/// it was tried.
pub proof fn only_tried_writes_reconnect(action: Action, tried: bool, who: Who, write: Write)
    ensures
        renewal(action, false) is None,
        renewal(Action::WriteRenewing(who, write), true) == Some(Action::Connect(who)),
        renewal(action, tried) is Some ==> action is WriteRenewing,
{
}

/// A probe that was taken moves on to the next event, and one that was not keeps its number.
pub proof fn probes_move_on_when_taken(
    who: Who,
    sequence: Sequence,
    next_event: u64,
    reply: Reply,
    other: Action,
)
    requires
        next_event < u64::MAX,
    ensures
        following(Action::Probe(who, sequence), next_event, Reply::Done) - next_event == 1,
        !(reply is Done) ==> following(Action::Probe(who, sequence), next_event, reply) == next_event,
        !(other is Probe) && !(other is SetNext) ==> following(other, next_event, reply) == next_event,
{
}

/// What a step says of its failure is its own message, and it ends with a panic exactly where it asserts;
/// where the bench itself could not do what was asked, its error is handed on.
pub proof fn complaints_are_those_of_the_step(
    action: Action,
    expect: Expect,
    message: &'static str,
    refused: bool,
)
    ensures
        complaint_of(step(action, expect, message), Judgement::Hopeless, false) == (Complaint {
            message,
            panics: false,
            sides: Sides::Untold,
        }),
        complaint_of(assertion(action, expect, message), Judgement::Hopeless, false) == (Complaint {
            message,
            panics: true,
            sides: Sides::Untold,
        }),
        complaint_of(assertion_eq(action, expect, message), Judgement::NotYet, false) == (Complaint {
            message,
            panics: true,
            sides: Sides::Unequal,
        }),
        complaint_of(assertion_ne(action, expect, message), Judgement::NotYet, false) == (Complaint {
            message,
            panics: true,
            sides: Sides::Equal,
        }),
        complaint_of(assertion(action, expect, message), Judgement::Broken, refused) == (Complaint {
            message: "",
            panics: false,
            sides: Sides::Untold,
        }),
        complaint_of(step(action, Expect::Accepted, message), Judgement::NotYet, true).message
            == message,
        complaint_of(step(action, Expect::Intact(1), message), Judgement::NotYet, true).message == "",
{
}

/// Writers that race each other send the same write but for the numbers that are their own: these go up
/// by one from writer to writer, and the others are the same for all.
pub proof fn racers_differ_in_their_own_numbers(race: Race, i: u64, j: u64)
    requires
        race.fits(),
        i < j < race.writers,
    ensures
        ({
            let (v, w) = (race.write_of(i), race.write_of(j));
            &&& w.client_seq - v.client_seq == if race.own_seq {
                j - i
            } else {
                0
            }
            &&& w.timestamp - v.timestamp == if race.own_time {
                j - i
            } else {
                0
            }
            &&& v.key == w.key && v.expected_version == w.expected_version && v.allow_create
                == w.allow_create && v.client_id == w.client_id && v.enforce_client_idempotency
                == w.enforce_client_idempotency && v.payload == w.payload
        }),
        race.write_of(0) == race.write,
{
}

} // verus!
