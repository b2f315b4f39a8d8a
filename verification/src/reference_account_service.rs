//! The account service, as a fleet of two replicas: a retried request gets the answer of the
//! original and appends nothing, whichever replica it lands on.

use crate::bench::{Node, NodeConfig, run_port, standalone};
use crate::expect::{Expect, NumberRule, group_judgement, turned_down};
use crate::reply::Reply;
use crate::script::{
    Account, AccountCall, Action, Step, assertion, assertion_eq, met_before, must, passes,
    passing_is_step_by_step, step,
};
use crate::text::{decimal, push_decimal};
use vstd::prelude::*;

verus! {

/// The text that a request's id is made from, which is the same for every retry of it.
pub open spec fn request_text(label: Seq<char>, n: nat) -> Seq<char> {
    label + "-req-"@ + decimal(n)
}

/// The text that a request's id is made from.
pub fn request_name(label: &str, n: u64) -> (r: String)
    ensures
        r@ == request_text(label@, n as nat),
{
    let mut out: String = label.to_owned();
    out.append("-req-");
    push_decimal(&mut out, n as u128);
    out
}

/// The text that the id of an account is made from.
pub open spec fn account_text(label: Seq<char>, account: Account) -> Seq<char> {
    label + match account {
        Account::First => "-suite-acct-1"@,
        Account::Second => "-suite-acct-2"@,
    }
}

/// The text that the id of an account is made from.
pub fn account_name(label: &str, account: Account) -> (r: String)
    ensures
        r@ == account_text(label@, account),
{
    let mut out: String = label.to_owned();
    match account {
        Account::First => {
            out.append("-suite-acct-1");
        },
        Account::Second => {
            out.append("-suite-acct-2");
        },
    }
    out
}

/// A deposit to the first account.
#[verifier::allow_in_spec]
pub fn deposit(replica: Node, cents: i64, request: u64) -> Action
    returns
        (Action::Account(
            AccountCall::Deposit { replica, account: Account::First, cents, request },
        )),
{
    Action::Account(AccountCall::Deposit { replica, account: Account::First, cents, request })
}

/// A deposit to the first account at each replica, at the same time.
#[verifier::allow_in_spec]
pub fn deposits(cents_a: i64, request_a: u64, cents_b: i64, request_b: u64) -> Action
    returns
        (Action::Account(
            AccountCall::DepositBoth {
                account: Account::First,
                cents_a,
                request_a,
                cents_b,
                request_b,
            },
        )),
{
    Action::Account(
        AccountCall::DepositBoth {
            account: Account::First,
            cents_a,
            request_a,
            cents_b,
            request_b,
        },
    )
}

/// A transfer from the first account to the second.
#[verifier::allow_in_spec]
pub fn transfer(replica: Node, cents: i64, request: u64) -> Action
    returns
        (Action::Account(AccountCall::Transfer { replica, cents, request })),
{
    Action::Account(AccountCall::Transfer { replica, cents, request })
}

/// The number of events of an account has to be this one.
#[verifier::allow_in_spec]
pub fn events(account: Account, n: u64, message: &'static str) -> Step
    returns
        (assertion_eq(
            Action::Account(AccountCall::CountEvents(account)),
            Expect::Number(NumberRule::Is(n)),
            message,
        )),
{
    assertion_eq(
        Action::Account(AccountCall::CountEvents(account)),
        Expect::Number(NumberRule::Is(n)),
        message,
    )
}

/// A request has to be in the stream of the first account exactly once.
#[verifier::allow_in_spec]
pub fn landed_once(request: u64, message: &'static str) -> Step
    returns
        (assertion_eq(
            Action::Account(AccountCall::CountRequest(Account::First, request)),
            Expect::Number(NumberRule::Is(1)),
            message,
        )),
{
    assertion_eq(
        Action::Account(AccountCall::CountRequest(Account::First, request)),
        Expect::Number(NumberRule::Is(1)),
        message,
    )
}

/// A request has to be answered with this balance.
#[verifier::allow_in_spec]
pub fn balance(action: Action, cents: i64, message: &'static str) -> Step
    returns
        (assertion_eq(action, Expect::Balance(cents), message)),
{
    assertion_eq(action, Expect::Balance(cents), message)
}

/// The steps of [`run_suite`].
pub open spec fn run_suite_steps() -> Seq<Step> {
    seq![
        balance(deposit(Node::A, 100, 1), 100, "deposit lands"),
        events(Account::First, 1, "deposit lands"),
        balance(deposit(Node::A, 100, 1), 100, "retry must return the ORIGINAL response"),
        events(Account::First, 1, "retry must append nothing"),
        balance(deposit(Node::A, 50, 2), 150, "second deposit lands"),
        balance(
            deposit(Node::B, 50, 2),
            150,
            "cross-replica retry must return the original response",
        ),
        events(Account::First, 2, "cross-replica retry must append nothing"),
        assertion(
            deposits(25, 3, 25, 3),
            Expect::Balances(175, 175),
            "concurrent duplicate: both callers get the same outcome",
        ),
        events(Account::First, 3, "concurrent duplicate must land once"),
        must(deposits(10, 4, 20, 5)),
        events(Account::First, 5, "both siblings must land exactly once"),
        landed_once(4, "request 4 must appear exactly once"),
        landed_once(5, "request 5 must appear exactly once"),
        step(
            Action::Account(
                AccountCall::Withdraw {
                    replica: Node::A,
                    account: Account::First,
                    cents: 100_000,
                    request: 6,
                },
            ),
            Expect::ShortOfFunds(205),
            "expected InsufficientFunds, got {reply}",
        ),
        assertion(transfer(Node::A, 105, 7), Expect::Balances(100, 105), "transfer lands"),
        assertion(
            transfer(Node::B, 105, 7),
            Expect::Balances(100, 105),
            "transfer retry must return the original response",
        ),
        events(Account::First, 6, "transfer retry must append nothing (from leg)"),
        events(Account::Second, 1, "transfer retry must append nothing (to leg)"),
        must(deposit(Node::B, 7, 8)),
        must(deposit(Node::A, 9, 9)),
        balance(deposit(Node::A, 100, 1), 100, "late retry must return the ORIGINAL response"),
        events(Account::First, 8, "late retry after cross-replica folds must append nothing"),
    ]
}

/// A fleet of two replicas through all that a retry can meet: the same replica, the other one, both
/// at once, a sibling that races it, a transfer between two accounts, and a replica that has since
/// taken in what the other wrote. A retried request gets the answer of the original and appends
/// nothing.
pub fn run_suite() -> (r: Vec<Step>)
    ensures
        r@ == run_suite_steps(),
{
    let steps: Vec<Step> = vec![
        balance(deposit(Node::A, 100, 1), 100, "deposit lands"),
        events(Account::First, 1, "deposit lands"),
        balance(deposit(Node::A, 100, 1), 100, "retry must return the ORIGINAL response"),
        events(Account::First, 1, "retry must append nothing"),
        balance(deposit(Node::A, 50, 2), 150, "second deposit lands"),
        balance(
            deposit(Node::B, 50, 2),
            150,
            "cross-replica retry must return the original response",
        ),
        events(Account::First, 2, "cross-replica retry must append nothing"),
        assertion(
            deposits(25, 3, 25, 3),
            Expect::Balances(175, 175),
            "concurrent duplicate: both callers get the same outcome",
        ),
        events(Account::First, 3, "concurrent duplicate must land once"),
        must(deposits(10, 4, 20, 5)),
        events(Account::First, 5, "both siblings must land exactly once"),
        landed_once(4, "request 4 must appear exactly once"),
        landed_once(5, "request 5 must appear exactly once"),
        step(
            Action::Account(
                AccountCall::Withdraw {
                    replica: Node::A,
                    account: Account::First,
                    cents: 100_000,
                    request: 6,
                },
            ),
            Expect::ShortOfFunds(205),
            "expected InsufficientFunds, got {reply}",
        ),
        assertion(transfer(Node::A, 105, 7), Expect::Balances(100, 105), "transfer lands"),
        assertion(
            transfer(Node::B, 105, 7),
            Expect::Balances(100, 105),
            "transfer retry must return the original response",
        ),
        events(Account::First, 6, "transfer retry must append nothing (from leg)"),
        events(Account::Second, 1, "transfer retry must append nothing (to leg)"),
        must(deposit(Node::B, 7, 8)),
        must(deposit(Node::A, 9, 9)),
        balance(deposit(Node::A, 100, 1), 100, "late retry must return the ORIGINAL response"),
        events(Account::First, 8, "late retry after cross-replica folds must append nothing"),
    ];
    assert(steps@ =~= run_suite_steps());
    steps
}

/// What [`run_suite`] demands of the replies, one for each of its steps.
pub open spec fn run_suite_holds(history: Seq<Reply>) -> bool {
    &&& history.len() == 22
    &&& history[0] == Reply::Balance(100)
    &&& history[1] == Reply::Number(1)
    &&& history[2] == Reply::Balance(100)
    &&& history[3] == Reply::Number(1)
    &&& history[4] == Reply::Balance(150)
    &&& history[5] == Reply::Balance(150)
    &&& history[6] == Reply::Number(2)
    &&& history[7] == Reply::Balances(175, 175)
    &&& history[8] == Reply::Number(3)
    &&& !turned_down(history[9])
    &&& history[10] == Reply::Number(5)
    &&& history[11] == Reply::Number(1)
    &&& history[12] == Reply::Number(1)
    &&& history[13] == Reply::ShortOfFunds(205)
    &&& history[14] == Reply::Balances(100, 105)
    &&& history[15] == Reply::Balances(100, 105)
    &&& history[16] == Reply::Number(6)
    &&& history[17] == Reply::Number(1)
    &&& !turned_down(history[18])
    &&& !turned_down(history[19])
    &&& history[20] == Reply::Balance(100)
    &&& history[21] == Reply::Number(8)
}

/// [`run_suite`] passes exactly on the replies that it demands.
#[verifier::rlimit(60)]
pub proof fn run_suite_passes(history: Seq<Reply>)
    ensures
        passes(run_suite_steps(), history) <==> run_suite_holds(history),
{
    broadcast use group_judgement;

    let steps = run_suite_steps();
    passing_is_step_by_step(steps, history);
    reveal_with_fuel(met_before, 23);
}

/// A run that passes shows that no retry was applied: after the deposits of requests 1 to 3, of
/// which each was sent twice, the balance is that of three deposits and the stream has three
/// events.
pub proof fn retries_append_nothing(history: Seq<Reply>)
    requires
        passes(run_suite_steps(), history),
    ensures
        history[0] == history[2],
        history[2] == Reply::Balance(100),
        history[4] == history[5],
        history[5] == Reply::Balance(150),
        history[7] == Reply::Balances(175, 175),
        history[8] == Reply::Number(3),
        history[20] == history[0],
        history[21] == Reply::Number(8),
{
    run_suite_passes(history);
}

/// A run that passes shows that requests which raced each other each landed exactly once.
pub proof fn racing_requests_land_once(history: Seq<Reply>)
    requires
        passes(run_suite_steps(), history),
    ensures
        history[10] == Reply::Number(5),
        history[11] == Reply::Number(1),
        history[12] == Reply::Number(1),
{
    run_suite_passes(history);
}

/// A run that passes shows that a transfer is all or nothing: what the one account lost the other
/// gained, and its retry appended to neither.
pub proof fn a_transfer_moves_both_sides(history: Seq<Reply>)
    requires
        passes(run_suite_steps(), history),
    ensures
        history[14] == history[15],
        history[15] matches Reply::Balances(from, to) && from + to == 205 && history[13]
            == Reply::ShortOfFunds(205),
        history[16] == Reply::Number(6),
        history[17] == Reply::Number(1),
{
    run_suite_passes(history);
}

/// How many of `ids` are `id`.
pub open spec fn hits(ids: Seq<Option<u128>>, id: u128) -> nat
    decreases ids.len(),
{
    if ids.len() == 0 {
        0
    } else {
        hits(ids.drop_last(), id) + if ids.last() == Some(id) {
            1nat
        } else {
            0
        }
    }
}

/// How many of the events of a stream, by their ids, belong to the request with this id.
pub fn count_hits(ids: &Vec<Option<u128>>, id: u128) -> (r: usize)
    ensures
        r == hits(ids@, id),
{
    let mut n: usize = 0;
    assert(ids@.take(0) =~= Seq::empty());
    for i in 0..ids.len()
        invariant
            n == hits(ids@.take(i as int), id),
            n <= i,
    {
        assert(ids@.take(i + 1).drop_last() =~= ids@.take(i as int));
        match ids[i] {
            Some(other) => {
                if other == id {
                    n = n + 1;
                }
            },
            None => {},
        }
    }
    assert(ids@.take(ids@.len() as int) =~= ids@);
    n
}

/// The server that the fleets share.
#[verifier::allow_in_spec]
pub fn server() -> Step
    returns
        (must(
            Action::StartNode {
                node: Node::A,
                port: run_port(15910, 0),
                label: None,
                config: NodeConfig { log_level: Some("warn"), ..standalone(1) },
            },
        )),
{
    must(
        Action::StartNode {
            node: Node::A,
            port: run_port(15910, 0),
            label: None,
            config: NodeConfig { log_level: Some("warn"), ..standalone(1) },
        },
    )
}

/// The fleets that a run goes through, by their labels: the one that keeps its projection in memory
/// always, the one that keeps it in a database where there is one.
pub fn run(database: bool) -> (r: Vec<&'static str>)
    ensures
        r@.len() == if database {
            2nat
        } else {
            1
        },
        r@[0]@ == "mem"@,
        database ==> r@[1]@ == "pg"@,
{
    let mut out: Vec<&'static str> = Vec::new();
    out.push("mem");
    if database {
        out.push("pg");
    }
    out
}

} // verus!
