//! Every sealed segment has its summary, whether the log was rotated while the follower followed or
//! while it was away.

use crate::bench::{NodeConfig, Who, s3_cluster};
use crate::expect::{Expect, ListingRule, group_judgement, turned_down};
use crate::reply::Reply;
use crate::s3_common::{converges, event, main_key, node_a, node_b, pause, store};
use crate::script::{
    Action, Prefix, Step, accepted_through, assertion, met_before, must, note, passes,
    passing_is_step_by_step,
};
use crate::segments::{ids, summarised};
use crate::sorting::texts;
use vstd::prelude::*;

verus! {

/// The steps of [`run`].
pub open spec fn run_steps() -> Seq<Step> {
    seq![
        store(17800, Some("test-summary-sidecars")),
        node_a(
            17800,
            Some("leader"),
            NodeConfig {
                shard_log_preallocate_bytes: Some(15_728_640),
                ..s3_cluster(1)
            },
        ),
        node_b(
            17800,
            Some("follower"),
            NodeConfig {
                shard_log_preallocate_bytes: Some(15_728_640),
                ..s3_cluster(1)
            },
        ),
        pause(8_000),
        must(Action::Connect(Who::A)),
        event(Who::A, 1),
        event(Who::A, 2),
        event(Who::A, 3),
        event(Who::A, 4),
        event(Who::A, 5),
        must(Action::Connect(Who::B)),
        converges(Who::B, 5, "Follower should have 5 events via TCP"),
        assertion(
            Action::ListObjects(Prefix::Shard(0)),
            Expect::Listing(ListingRule::Empty),
            "Expected zero S3 fallback objects on healthy TCP, got {got}",
        ),
        must(Action::WriteLarge(Who::A, main_key(), 6, 605, 65_536)),
        pause(2_000),
        assertion(
            Action::ListObjects(Prefix::Shard(0)),
            Expect::Listing(ListingRule::Empty),
            "Expected zero S3 fallback objects after TCP burst (follower alive); got {got}",
        ),
        assertion(
            Action::ListLogFiles(Who::A),
            Expect::Summarised,
            "leader (TCP phase): {fault}",
        ),
        assertion(
            Action::ListLogFiles(Who::B),
            Expect::Summarised,
            "follower (TCP phase): {fault}",
        ),
        note(Action::Disconnect(Who::B)),
        note(Action::StopNode(Who::B)),
        pause(5_000),
        must(Action::WriteLarge(Who::A, main_key(), 606, 1_005, 65_536)),
        pause(3_000),
        assertion(
            Action::ListObjects(Prefix::Shard(0)),
            Expect::Listing(ListingRule::AtLeast(1)),
            "Expected S3 fallback objects after killing follower; got {got}",
        ),
        assertion(
            Action::ListLogFiles(Who::A),
            Expect::MoreSegments(16),
            "Expected new sealed segments after S3 burst; before={was} after={got}",
        ),
        assertion(
            Action::Recall(24),
            Expect::Summarised,
            "leader (TCP+S3 combined): {fault}",
        ),
    ]
}

/// Every sealed segment has its summary, whether the log was rotated while the follower followed or
/// while it was away.
pub fn run() -> (r: Vec<Step>)
    ensures
        r@ == run_steps(),
{
    let steps: Vec<Step> = vec![
        store(17800, Some("test-summary-sidecars")),
        node_a(
            17800,
            Some("leader"),
            NodeConfig {
                shard_log_preallocate_bytes: Some(15_728_640),
                ..s3_cluster(1)
            },
        ),
        node_b(
            17800,
            Some("follower"),
            NodeConfig {
                shard_log_preallocate_bytes: Some(15_728_640),
                ..s3_cluster(1)
            },
        ),
        pause(8_000),
        must(Action::Connect(Who::A)),
        event(Who::A, 1),
        event(Who::A, 2),
        event(Who::A, 3),
        event(Who::A, 4),
        event(Who::A, 5),
        must(Action::Connect(Who::B)),
        converges(Who::B, 5, "Follower should have 5 events via TCP"),
        assertion(
            Action::ListObjects(Prefix::Shard(0)),
            Expect::Listing(ListingRule::Empty),
            "Expected zero S3 fallback objects on healthy TCP, got {got}",
        ),
        must(Action::WriteLarge(Who::A, main_key(), 6, 605, 65_536)),
        pause(2_000),
        assertion(
            Action::ListObjects(Prefix::Shard(0)),
            Expect::Listing(ListingRule::Empty),
            "Expected zero S3 fallback objects after TCP burst (follower alive); got {got}",
        ),
        assertion(
            Action::ListLogFiles(Who::A),
            Expect::Summarised,
            "leader (TCP phase): {fault}",
        ),
        assertion(
            Action::ListLogFiles(Who::B),
            Expect::Summarised,
            "follower (TCP phase): {fault}",
        ),
        note(Action::Disconnect(Who::B)),
        note(Action::StopNode(Who::B)),
        pause(5_000),
        must(Action::WriteLarge(Who::A, main_key(), 606, 1_005, 65_536)),
        pause(3_000),
        assertion(
            Action::ListObjects(Prefix::Shard(0)),
            Expect::Listing(ListingRule::AtLeast(1)),
            "Expected S3 fallback objects after killing follower; got {got}",
        ),
        assertion(
            Action::ListLogFiles(Who::A),
            Expect::MoreSegments(16),
            "Expected new sealed segments after S3 burst; before={was} after={got}",
        ),
        assertion(
            Action::Recall(24),
            Expect::Summarised,
            "leader (TCP+S3 combined): {fault}",
        ),
    ];
    assert(steps@ =~= run_steps());
    steps
}

/// What [`run`] demands of the replies, one for each of its steps.
pub open spec fn run_holds(history: Seq<Reply>) -> bool {
    &&& history.len() == 26
    &&& accepted_through(history, 0, 2)
    &&& accepted_through(history, 4, 10)
    &&& history[11] == Reply::Number(5)
    &&& history[12] matches Reply::Objects(names) && names@.len() == 0
    &&& !turned_down(history[13])
    &&& history[15] matches Reply::Objects(names) && names@.len() == 0
    &&& history[16] matches Reply::LogFiles(names) && summarised(texts(names@))
    &&& history[17] matches Reply::LogFiles(names) && summarised(texts(names@))
    &&& !turned_down(history[21])
    &&& history[23] matches Reply::Objects(names) && names@.len() >= 1
    &&& history[16] matches Reply::LogFiles(before)
        && (
            history[24] matches Reply::LogFiles(names)
                && ids(texts(names@), ".wal"@).len() > ids(texts(before@), ".wal"@).len()
        )
    &&& history[24] matches Reply::LogFiles(names) && summarised(texts(names@))
}

/// [`run`] passes exactly on the replies that it demands.
#[verifier::rlimit(60)]
pub proof fn run_passes(history: Seq<Reply>)
    ensures
        passes(run_steps(), history) <==> run_holds(history),
{
    broadcast use group_judgement;

    let steps = run_steps();
    passing_is_step_by_step(steps, history);
    reveal_with_fuel(met_before, 27);
}

} // verus!
