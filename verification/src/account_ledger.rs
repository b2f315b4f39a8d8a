//! What a sound account service answers, and that the suite asks for just that.

use crate::expect::{Expect, NumberRule};
use crate::reference_account_service::run_suite_steps;
use crate::script::{Account, AccountCall, Action, Step};
use vstd::prelude::*;

verus! {

/// What an account holds: its balance, how many events its stream has, and which requests are in it.
pub struct Purse {
    pub balance: int,
    pub events: nat,
    pub requests: Set<u64>,
}

/// The two accounts, and what each request that was applied was answered.
pub struct Book {
    pub first: Purse,
    pub second: Purse,
    pub answers: Map<u64, (int, int)>,
}

/// An account without events.
pub open spec fn empty_purse() -> Purse {
    Purse { balance: 0, events: 0, requests: Set::empty() }
}

/// Two accounts without events.
pub open spec fn opened() -> Book {
    Book { first: empty_purse(), second: empty_purse(), answers: Map::empty() }
}

/// One of the two accounts.
pub open spec fn purse(b: Book, account: Account) -> Purse {
    match account {
        Account::First => b.first,
        Account::Second => b.second,
    }
}

/// An account after so many cents came in, or went out, by a request.
pub open spec fn changed(p: Purse, cents: int, request: u64) -> Purse {
    Purse {
        balance: p.balance + cents,
        events: p.events + 1,
        requests: p.requests.insert(request),
    }
}

/// The accounts after a deposit. A request that was applied before changes nothing.
pub open spec fn deposited(b: Book, account: Account, cents: int, request: u64) -> Book {
    if b.answers.contains_key(request) {
        b
    } else {
        let p = changed(purse(b, account), cents, request);
        let answers = b.answers.insert(request, (p.balance, p.balance));
        match account {
            Account::First => Book { first: p, answers, ..b },
            Account::Second => Book { second: p, answers, ..b },
        }
    }
}

/// The accounts after a transfer from the first to the second.
pub open spec fn transferred(b: Book, cents: int, request: u64) -> Book {
    if b.answers.contains_key(request) || cents > b.first.balance {
        b
    } else {
        let from = changed(b.first, -cents, request);
        let to = changed(b.second, cents, request);
        Book {
            first: from,
            second: to,
            answers: b.answers.insert(request, (from.balance, to.balance)),
        }
    }
}

/// The accounts after a call.
pub open spec fn called(b: Book, call: AccountCall) -> Book {
    match call {
        AccountCall::Deposit { account, cents, request, .. } => deposited(
            b,
            account,
            cents as int,
            request,
        ),
        AccountCall::DepositBoth { account, cents_a, request_a, cents_b, request_b } => deposited(
            deposited(b, account, cents_a as int, request_a),
            account,
            cents_b as int,
            request_b,
        ),
        AccountCall::Transfer { cents, request, .. } => transferred(b, cents as int, request),
        _ => b,
    }
}

/// The accounts before step `k`.
pub open spec fn book_at(steps: Seq<Step>, k: nat) -> Book
    decreases k,
{
    if k == 0 {
        opened()
    } else {
        match steps[k - 1].action {
            Action::Account(call) => called(book_at(steps, (k - 1) as nat), call),
            _ => book_at(steps, (k - 1) as nat),
        }
    }
}

/// Whether step `k` asks for exactly what a sound service answers: the balance after a request, and
/// the same again where the request comes again; both balances of a transfer; what an account holds
/// that is to give more; and the events that are in its stream.
pub open spec fn is_booked(steps: Seq<Step>, k: nat) -> bool {
    let b = book_at(steps, k);
    steps[k as int].action matches Action::Account(call) && {
        let after = called(b, call);
        match call {
            AccountCall::Deposit { request, .. } => {
                ||| steps[k as int].expect matches Expect::Balance(cents) && cents
                    == after.answers[request].0
                ||| steps[k as int].expect is Accepted && !b.answers.contains_key(request)
            },
            AccountCall::DepositBoth { cents_a, request_a, cents_b, request_b, .. } => {
                &&& !b.answers.contains_key(request_a) && !b.answers.contains_key(request_b)
                &&& if request_a == request_b {
                    cents_a == cents_b && (steps[k as int].expect matches Expect::Balances(x, y) && x
                        == after.answers[request_a].0 && y == x)
                } else {
                    steps[k as int].expect is Accepted
                }
            },
            AccountCall::Withdraw { account, cents, request, .. } => {
                &&& cents > purse(b, account).balance
                &&& !b.answers.contains_key(request)
                &&& steps[k as int].expect matches Expect::ShortOfFunds(held) && held == purse(
                    b,
                    account,
                ).balance
            },
            AccountCall::Transfer { request, .. } => {
                &&& after.answers.contains_key(request)
                &&& steps[k as int].expect matches Expect::Balances(from, to) && after.answers[request]
                    == (from as int, to as int)
            },
            AccountCall::CountEvents(account) => steps[k as int].expect matches Expect::Number(
                NumberRule::Is(n),
            ) && n == purse(b, account).events,
            AccountCall::CountRequest(account, request) => steps[k as int].expect matches Expect::Number(
                NumberRule::Is(n),
            ) && n == if purse(b, account).requests.contains(request) {
                1int
            } else {
                0
            },
        }
    }
}

/// Whether the first `n` steps do.
pub open spec fn booked_before(steps: Seq<Step>, n: nat) -> bool
    decreases n,
{
    n == 0 || (booked_before(steps, (n - 1) as nat) && is_booked(steps, (n - 1) as nat))
}

proof fn lemma_booked(steps: Seq<Step>, n: nat)
    requires
        booked_before(steps, n),
    ensures
        forall|k: nat| k < n ==> #[trigger] is_booked(steps, k),
    decreases n,
{
    if n > 0 {
        lemma_booked(steps, (n - 1) as nat);
    }
}

/// No call makes or loses money: what the accounts hold together changes by what is deposited under a
/// request that was not applied before, and by nothing else.
pub proof fn money_is_neither_made_nor_lost(b: Book, call: AccountCall)
    ensures
        ({
            let after = called(b, call);
            let total = |x: Book| x.first.balance + x.second.balance;
            match call {
                AccountCall::Deposit { cents, request, .. } => total(after) == total(b)
                    + if b.answers.contains_key(request) {
                    0
                } else {
                    cents as int
                },
                AccountCall::DepositBoth { .. } => true,
                _ => total(after) == total(b),
            }
        }),
{
}

/// A request that comes again is answered as it was, and changes nothing.
pub proof fn a_retry_changes_nothing(b: Book, call: AccountCall)
    ensures
        called(called(b, call), call) == called(b, call) || call is DepositBoth || call is Transfer,
        call matches AccountCall::Transfer { cents, .. } ==> 0 <= cents <= b.first.balance ==> called(
            called(b, call),
            call,
        ) == called(b, call),
{
}

/// Every step of [`crate::reference_account_service::run_suite`] asks for exactly what a sound service
/// answers.
#[verifier::rlimit(60)]
pub proof fn the_suite_is_booked()
    ensures
        forall|k: nat| k < run_suite_steps().len() ==> #[trigger] is_booked(run_suite_steps(), k),
{
    let steps = run_suite_steps();
    reveal_with_fuel(book_at, 23);
    reveal_with_fuel(booked_before, 23);
    assert(booked_before(steps, 22));
    lemma_booked(steps, 22);
}

} // verus!
