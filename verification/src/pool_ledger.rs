//! What a sound pool of connections answers, and that its scenarios ask for just that.

use crate::expect::{DetailsRule, Expect, StreamRule};
use crate::model::AggregateKey;
use crate::script::{Action, PoolCall, PoolWrite, Step};
use vstd::prelude::*;

verus! {

/// What stands behind a pool, and how the connection that was taken out of it fares.
pub struct Pooled {
    /// The version of each aggregate.
    pub versions: Map<AggregateKey, nat>,
    /// A connection was taken out.
    pub leased: bool,
    /// The aggregate whose details were asked for over it and not waited for.
    pub dropped: Option<AggregateKey>,
    /// The stream that a read was begun of.
    pub begun: Option<AggregateKey>,
    /// The listing that was begun: of organisations, of the types of one, or of its aggregates.
    pub listing: Option<PoolCall>,
}

/// A pool in front of nothing.
pub open spec fn unused() -> Pooled {
    Pooled { versions: Map::empty(), leased: false, dropped: None, begun: None, listing: None }
}

/// The version of an aggregate: 0 where there is none.
pub open spec fn version(p: Pooled, key: AggregateKey) -> nat {
    if p.versions.contains_key(key) {
        p.versions[key]
    } else {
        0
    }
}

/// The pool after a call.
pub open spec fn after(p: Pooled, call: PoolCall) -> Pooled {
    match call {
        PoolCall::Write(w) => appended(p, w),
        PoolCall::WriteEvents(w) => appended(p, w),
        PoolCall::LeasedWrite(w) => appended(p, w),
        PoolCall::Delete(d) => Pooled { versions: p.versions.insert(d.key, 0), ..p },
        PoolCall::ReadAll(key) => Pooled { begun: Some(key), ..p },
        PoolCall::ListOrgs => Pooled { listing: Some(call), ..p },
        PoolCall::ListTypes(_) => Pooled { listing: Some(call), ..p },
        PoolCall::ListAggregates(_) => Pooled { listing: Some(call), ..p },
        PoolCall::Lease => Pooled { leased: true, dropped: None, ..p },
        PoolCall::LeaseLeader => Pooled { leased: true, dropped: None, ..p },
        PoolCall::Return => Pooled { leased: false, ..p },
        PoolCall::LeasedPollOnce(key) => Pooled { dropped: Some(key), ..p },
        _ => p,
    }
}

/// A pool whose aggregate has one version more.
pub open spec fn appended(p: Pooled, w: PoolWrite) -> Pooled {
    Pooled { versions: p.versions.insert(w.key, version(p, w.key) + 1), ..p }
}

/// The pool before step `k`.
pub open spec fn pool_at(steps: Seq<Step>, k: nat) -> Pooled
    decreases k,
{
    if k == 0 {
        unused()
    } else {
        match steps[k - 1].action {
            Action::Pool(call) => after(pool_at(steps, (k - 1) as nat), call),
            _ => pool_at(steps, (k - 1) as nat),
        }
    }
}

/// Whether a write is one that is taken: a guarded one expects the version at hand, and may create the
/// aggregate where there is none.
pub open spec fn is_timely(p: Pooled, w: PoolWrite) -> bool {
    w.guard matches Some((create, expected)) ==> expected == version(p, w.key) && (expected == 0
        ==> create)
}

/// Whether a step at the call `call` asks for exactly what a sound pool answers. A connection over
/// which an answer is still due must not be used, and a question after it gets its own answer, which is
/// told from the one that is due by its version.
pub open spec fn is_apt(p: Pooled, call: PoolCall, expect: Expect) -> bool {
    match call {
        PoolCall::Open { .. } => expect is Accepted,
        PoolCall::Write(w) => is_timely(p, w) && expect is Accepted,
        PoolCall::WriteEvents(w) => is_timely(p, w) && (expect is Accepted || expect is Anything),
        PoolCall::LeasedWrite(w) => p.leased && p.dropped is None && is_timely(p, w)
            && expect is Accepted,
        PoolCall::Read(key, from) => 1 <= from <= version(p, key) && (expect is Accepted
            || expect == Expect::Stream(StreamRule::NotEmpty)),
        PoolCall::LeasedRead(key, from) => p.leased && p.dropped is None && 1 <= from <= version(
            p,
            key,
        ) && (expect is Accepted || expect == Expect::Stream(StreamRule::NotEmpty)),
        PoolCall::Details(key) => match expect {
            Expect::Accepted => version(p, key) > 0,
            Expect::Details(DetailsRule::Present) => version(p, key) > 0,
            Expect::Details(DetailsRule::Gone) => version(p, key) == 0,
            Expect::Details(DetailsRule::Version(n)) => n == version(p, key) && (
            p.dropped matches Some(other) ==> version(p, other) != n),
            _ => false,
        },
        PoolCall::LeasedDetails(key) => p.leased && version(p, key) > 0 && if p.dropped is Some {
            expect is OutOfStep
        } else {
            expect is Accepted
        },
        PoolCall::LeasedPollOnce(key) => p.leased && p.dropped is None && version(p, key) > 0 && expect
            == Expect::Flag(false),
        PoolCall::Delete(d) => version(p, d.key) > 0 && expect is Accepted,
        PoolCall::ReadAll(key) => version(p, key) > 0 && expect is Accepted,
        PoolCall::CollectBatches => p.begun matches Some(key) && (expect is Accepted || (
        expect matches Expect::Stream(StreamRule::Count(n)) && n == version(p, key))),
        PoolCall::CollectIds => match p.listing {
            Some(PoolCall::ListOrgs) => expect is Accepted || expect == Expect::Lists(
                crate::pool_test::key(0).org_id,
            ),
            Some(PoolCall::ListTypes(org)) => org == crate::pool_test::key(0).org_id && (
            expect is Accepted || expect == Expect::Lists(
                crate::pool_test::key(0).aggregate_type_id,
            )),
            Some(PoolCall::ListAggregates(org)) => org == crate::pool_test::key(0).org_id && (
            expect is Accepted || expect is ListsSome),
            _ => false,
        },
        PoolCall::ListOrgs => expect is Accepted,
        PoolCall::ListTypes(_) => expect is Accepted,
        PoolCall::ListAggregates(_) => expect is Accepted,
        PoolCall::Lease => !p.leased && expect is Accepted,
        PoolCall::LeaseLeader => !p.leased && expect is Accepted,
        PoolCall::Return => p.leased && expect is Anything,
    }
}

/// Whether step `k` asks for exactly what a sound pool answers.
pub open spec fn is_pooled(steps: Seq<Step>, k: nat) -> bool {
    match steps[k as int].action {
        Action::Pool(call) => is_apt(pool_at(steps, k), call, steps[k as int].expect),
        Action::Recall(j) => j < k && (steps[j as int].action matches Action::Pool(call) && is_apt(
            pool_at(steps, j as nat),
            call,
            steps[k as int].expect,
        ) && !(steps[k as int].expect is Accepted)),
        _ => false,
    }
}

/// Whether the first `n` steps do.
pub open spec fn pooled_before(steps: Seq<Step>, n: nat) -> bool
    decreases n,
{
    n == 0 || (pooled_before(steps, (n - 1) as nat) && is_pooled(steps, (n - 1) as nat))
}

/// Whether every step of a script does.
pub open spec fn all_pooled(steps: Seq<Step>) -> bool {
    forall|k: nat| k < steps.len() ==> #[trigger] is_pooled(steps, k)
}

proof fn lemma_pooled(steps: Seq<Step>, n: nat)
    requires
        pooled_before(steps, n),
    ensures
        forall|k: nat| k < n ==> #[trigger] is_pooled(steps, k),
    decreases n,
{
    if n > 0 {
        lemma_pooled(steps, (n - 1) as nat);
    }
}

/// Every step of [`crate::pool_test::test_pool_write`] asks for exactly what a sound pool answers.
pub proof fn test_pool_write_is_pooled()
    ensures
        all_pooled(crate::pool_test::test_pool_write_steps()),
{
    let steps = crate::pool_test::test_pool_write_steps();
    reveal_with_fuel(pool_at, 2);
    reveal_with_fuel(pooled_before, 2);
    lemma_pooled(steps, 1);
}

/// Every step of [`crate::pool_test::test_pool_write_events`] asks for exactly what a sound pool answers.
pub proof fn test_pool_write_events_is_pooled()
    ensures
        all_pooled(crate::pool_test::test_pool_write_events_steps()),
{
    let steps = crate::pool_test::test_pool_write_events_steps();
    reveal_with_fuel(pool_at, 2);
    reveal_with_fuel(pooled_before, 2);
    lemma_pooled(steps, 1);
}

/// Every step of [`crate::pool_test::test_pool_read`] asks for exactly what a sound pool answers.
pub proof fn test_pool_read_is_pooled()
    ensures
        all_pooled(crate::pool_test::test_pool_read_steps()),
{
    let steps = crate::pool_test::test_pool_read_steps();
    reveal_with_fuel(pool_at, 4);
    reveal_with_fuel(pooled_before, 4);
    lemma_pooled(steps, 3);
}

/// Every step of [`crate::pool_test::test_pool_aggregate_details`] asks for exactly what a sound pool answers.
pub proof fn test_pool_aggregate_details_is_pooled()
    ensures
        all_pooled(crate::pool_test::test_pool_aggregate_details_steps()),
{
    let steps = crate::pool_test::test_pool_aggregate_details_steps();
    reveal_with_fuel(pool_at, 4);
    reveal_with_fuel(pooled_before, 4);
    lemma_pooled(steps, 3);
}

/// Every step of [`crate::pool_test::test_pool_delete`] asks for exactly what a sound pool answers.
pub proof fn test_pool_delete_is_pooled()
    ensures
        all_pooled(crate::pool_test::test_pool_delete_steps()),
{
    let steps = crate::pool_test::test_pool_delete_steps();
    reveal_with_fuel(pool_at, 4);
    reveal_with_fuel(pooled_before, 4);
    lemma_pooled(steps, 3);
}

/// Every step of [`crate::pool_test::test_pool_read_all`] asks for exactly what a sound pool answers.
pub proof fn test_pool_read_all_is_pooled()
    ensures
        all_pooled(crate::pool_test::test_pool_read_all_steps()),
{
    let steps = crate::pool_test::test_pool_read_all_steps();
    reveal_with_fuel(pool_at, 8);
    reveal_with_fuel(pooled_before, 8);
    lemma_pooled(steps, 7);
}

/// Every step of [`crate::pool_test::test_connection_reuse`] asks for exactly what a sound pool answers.
pub proof fn test_connection_reuse_is_pooled()
    ensures
        all_pooled(crate::pool_test::test_connection_reuse_steps()),
{
    let steps = crate::pool_test::test_connection_reuse_steps();
    reveal_with_fuel(pool_at, 4);
    reveal_with_fuel(pooled_before, 4);
    lemma_pooled(steps, 3);
}

/// Every step of [`crate::pool_test::test_get_connection`] asks for exactly what a sound pool answers.
pub proof fn test_get_connection_is_pooled()
    ensures
        all_pooled(crate::pool_test::test_get_connection_steps()),
{
    let steps = crate::pool_test::test_get_connection_steps();
    reveal_with_fuel(pool_at, 6);
    reveal_with_fuel(pooled_before, 6);
    lemma_pooled(steps, 5);
}

/// Every step of [`crate::pool_test::test_get_leader_connection`] asks for exactly what a sound pool answers.
pub proof fn test_get_leader_connection_is_pooled()
    ensures
        all_pooled(crate::pool_test::test_get_leader_connection_steps()),
{
    let steps = crate::pool_test::test_get_leader_connection_steps();
    reveal_with_fuel(pool_at, 4);
    reveal_with_fuel(pooled_before, 4);
    lemma_pooled(steps, 3);
}

/// Every step of [`crate::pool_test::test_custom_pool_options`] asks for exactly what a sound pool answers.
pub proof fn test_custom_pool_options_is_pooled()
    ensures
        all_pooled(crate::pool_test::test_custom_pool_options_steps()),
{
    let steps = crate::pool_test::test_custom_pool_options_steps();
    reveal_with_fuel(pool_at, 3);
    reveal_with_fuel(pooled_before, 3);
    lemma_pooled(steps, 2);
}

/// Every step of [`crate::pool_test::test_pool_auto_compression`] asks for exactly what a sound pool answers.
pub proof fn test_pool_auto_compression_is_pooled()
    ensures
        all_pooled(crate::pool_test::test_pool_auto_compression_steps()),
{
    let steps = crate::pool_test::test_pool_auto_compression_steps();
    reveal_with_fuel(pool_at, 2);
    reveal_with_fuel(pooled_before, 2);
    lemma_pooled(steps, 1);
}

/// Every step of [`crate::pool_test::test_pool_list_orgs`] asks for exactly what a sound pool answers.
pub proof fn test_pool_list_orgs_is_pooled()
    ensures
        all_pooled(crate::pool_test::test_pool_list_orgs_steps()),
{
    let steps = crate::pool_test::test_pool_list_orgs_steps();
    reveal_with_fuel(pool_at, 4);
    reveal_with_fuel(pooled_before, 4);
    lemma_pooled(steps, 3);
}

/// Every step of [`crate::pool_test::test_pool_list_aggregate_types`] asks for exactly what a sound pool answers.
pub proof fn test_pool_list_aggregate_types_is_pooled()
    ensures
        all_pooled(crate::pool_test::test_pool_list_aggregate_types_steps()),
{
    let steps = crate::pool_test::test_pool_list_aggregate_types_steps();
    reveal_with_fuel(pool_at, 4);
    reveal_with_fuel(pooled_before, 4);
    lemma_pooled(steps, 3);
}

/// Every step of [`crate::pool_test::test_pool_list_aggregates`] asks for exactly what a sound pool answers.
pub proof fn test_pool_list_aggregates_is_pooled()
    ensures
        all_pooled(crate::pool_test::test_pool_list_aggregates_steps()),
{
    let steps = crate::pool_test::test_pool_list_aggregates_steps();
    reveal_with_fuel(pool_at, 4);
    reveal_with_fuel(pooled_before, 4);
    lemma_pooled(steps, 3);
}

/// Every step of [`crate::pool_test::test_cancelled_request_does_not_leak_response`] asks for exactly what a sound pool answers.
#[verifier::rlimit(60)]
pub proof fn test_cancelled_request_does_not_leak_response_is_pooled()
    ensures
        all_pooled(crate::pool_test::test_cancelled_request_does_not_leak_response_steps()),
{
    let steps = crate::pool_test::test_cancelled_request_does_not_leak_response_steps();
    reveal_with_fuel(pool_at, 14);
    reveal_with_fuel(pooled_before, 14);
    lemma_pooled(steps, 13);
}

/// Every step of [`crate::pool_test::test_pool_usable_after_cancellation`] asks for exactly what a sound pool answers.
#[verifier::rlimit(60)]
pub proof fn test_pool_usable_after_cancellation_is_pooled()
    ensures
        all_pooled(crate::pool_test::test_pool_usable_after_cancellation_steps()),
{
    let steps = crate::pool_test::test_pool_usable_after_cancellation_steps();
    reveal_with_fuel(pool_at, 30);
    reveal_with_fuel(pooled_before, 30);
    lemma_pooled(steps, 29);
}

/// Every step of [`crate::pool_test::test_same_lease_reuse_after_cancellation`] asks for exactly what a sound pool answers.
#[verifier::rlimit(60)]
pub proof fn test_same_lease_reuse_after_cancellation_is_pooled()
    ensures
        all_pooled(crate::pool_test::test_same_lease_reuse_after_cancellation_steps()),
{
    let steps = crate::pool_test::test_same_lease_reuse_after_cancellation_steps();
    reveal_with_fuel(pool_at, 16);
    reveal_with_fuel(pooled_before, 16);
    lemma_pooled(steps, 15);
}

} // verus!
