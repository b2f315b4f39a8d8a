//! The scenarios in which the lead passes on or is cut off, held against what two sound nodes do.

use crate::bench::{Node, other, resolve};
use crate::cluster::{
    a_node_runs_from_start_to_stop, accepted_writes_go_to_the_leader, all_sound, answer_is_sound,
    are_paired, cluster_at, lemma_block, lemma_by_count, lemma_by_lease, lemma_by_stream,
    lemma_connect, lemma_disconnect, lemma_kept, lemma_pause, lemma_recalled, lemma_refused,
    lemma_restart, lemma_set_up, lemma_start, lemma_stop, lemma_store, lemma_store_gone,
    lemma_taken, lemma_told, lemma_tried, moved, place, sound_before, soundness_is_step_by_step,
};
use vstd::prelude::*;

verus! {

/// Every step of [`crate::s3_concurrent_cas::run`] reaches what it asks and asks for what two sound nodes
/// answer.
pub proof fn s3_concurrent_cas_is_sound()
    ensures
        all_sound(crate::s3_concurrent_cas::run_steps(), Node::A),
        are_paired(crate::s3_concurrent_cas::run_steps(), 1, 4),
{
    let steps = crate::s3_concurrent_cas::run_steps();
    lemma_store(steps, Node::A, 0);
    lemma_start(steps, Node::A, 1);
    lemma_pause(steps, Node::A, 2);
    lemma_set_up(steps, Node::A, 3);
    lemma_start(steps, Node::A, 4);
    lemma_pause(steps, Node::A, 5);
    lemma_connect(steps, Node::A, 6);
    lemma_connect(steps, Node::A, 7);
    lemma_taken(steps, Node::A, 8);
    lemma_taken(steps, Node::A, 9);
    lemma_taken(steps, Node::A, 10);
    lemma_by_count(steps, Node::A, 11, 11);
    lemma_told(steps, Node::A, 11);
    lemma_taken(steps, Node::A, 12);
    lemma_refused(steps, Node::A, 13);
    lemma_kept(steps, Node::A, 14, 18);
    lemma_block(steps, Node::A, 15);
    lemma_pause(steps, Node::A, 16);
    lemma_kept(steps, Node::A, 17, 18);
    lemma_by_lease(steps, Node::A, 17, 18);
    lemma_recalled(steps, Node::A, 18);
    lemma_by_lease(steps, Node::A, 17, 19);
    lemma_recalled(steps, Node::A, 19);
    lemma_set_up(steps, Node::A, 20);
    lemma_pause(steps, Node::A, 21);
    assert(answer_is_sound(steps, Node::A, 22, 22)) by {
        reveal(answer_is_sound);
    }
    lemma_told(steps, Node::A, 22);
    lemma_tried(steps, Node::A, 23, 24);
    lemma_tried(steps, Node::A, 24, 0);
    lemma_kept(steps, Node::A, 25, 26);
    lemma_by_lease(steps, Node::A, 25, 26);
    lemma_recalled(steps, Node::A, 26);
    reveal_with_fuel(sound_before, 28);
    soundness_is_step_by_step(steps, Node::A, 27);
}

/// Every step of [`crate::s3_failover::run`] reaches what it asks and asks for what two sound nodes
/// answer.
pub proof fn s3_failover_is_sound()
    ensures
        all_sound(crate::s3_failover::run_steps(), Node::A),
        are_paired(crate::s3_failover::run_steps(), 1, 3),
{
    let steps = crate::s3_failover::run_steps();
    lemma_store(steps, Node::A, 0);
    lemma_start(steps, Node::A, 1);
    lemma_pause(steps, Node::A, 2);
    lemma_start(steps, Node::A, 3);
    lemma_pause(steps, Node::A, 4);
    lemma_connect(steps, Node::A, 5);
    lemma_taken(steps, Node::A, 6);
    lemma_taken(steps, Node::A, 7);
    lemma_taken(steps, Node::A, 8);
    lemma_connect(steps, Node::A, 9);
    lemma_by_count(steps, Node::A, 10, 10);
    lemma_told(steps, Node::A, 10);
    lemma_kept(steps, Node::A, 11, 12);
    lemma_by_lease(steps, Node::A, 11, 12);
    lemma_recalled(steps, Node::A, 12);
    lemma_disconnect(steps, Node::A, 13);
    lemma_stop(steps, Node::A, 14);
    lemma_pause(steps, Node::A, 15);
    lemma_taken(steps, Node::A, 16);
    lemma_kept(steps, Node::A, 17, 18);
    lemma_by_lease(steps, Node::A, 17, 18);
    lemma_recalled(steps, Node::A, 18);
    lemma_by_lease(steps, Node::A, 17, 19);
    lemma_recalled(steps, Node::A, 19);
    lemma_restart(steps, Node::A, 20);
    lemma_pause(steps, Node::A, 21);
    lemma_connect(steps, Node::A, 22);
    lemma_refused(steps, Node::A, 23);
    lemma_taken(steps, Node::A, 24);
    lemma_taken(steps, Node::A, 25);
    lemma_by_count(steps, Node::A, 26, 26);
    lemma_told(steps, Node::A, 26);
    reveal_with_fuel(sound_before, 28);
    soundness_is_step_by_step(steps, Node::A, 27);
}

/// Every step of [`crate::s3_failover_latency::run`] reaches what it asks and asks for what two sound nodes
/// answer.
pub proof fn s3_failover_latency_is_sound()
    ensures
        all_sound(crate::s3_failover_latency::run_steps(), Node::A),
        are_paired(crate::s3_failover_latency::run_steps(), 1, 3),
{
    let steps = crate::s3_failover_latency::run_steps();
    lemma_store(steps, Node::A, 0);
    lemma_start(steps, Node::A, 1);
    lemma_pause(steps, Node::A, 2);
    lemma_start(steps, Node::A, 3);
    lemma_pause(steps, Node::A, 4);
    lemma_connect(steps, Node::A, 5);
    lemma_taken(steps, Node::A, 6);
    lemma_taken(steps, Node::A, 7);
    lemma_taken(steps, Node::A, 8);
    lemma_connect(steps, Node::A, 9);
    lemma_by_count(steps, Node::A, 10, 10);
    lemma_told(steps, Node::A, 10);
    lemma_disconnect(steps, Node::A, 11);
    lemma_stop(steps, Node::A, 12);
    lemma_taken(steps, Node::A, 13);
    assert(answer_is_sound(steps, Node::A, 14, 14)) by {
        reveal(answer_is_sound);
    }
    lemma_told(steps, Node::A, 14);
    reveal_with_fuel(sound_before, 16);
    soundness_is_step_by_step(steps, Node::A, 15);
}

/// Every step of [`crate::s3_fencing_writes_main::run`] reaches what it asks and asks for what two sound nodes
/// answer.
pub proof fn s3_fencing_writes_main_is_sound()
    ensures
        all_sound(crate::s3_fencing_writes_main::run_steps(), Node::A),
        are_paired(crate::s3_fencing_writes_main::run_steps(), 1, 3),
{
    let steps = crate::s3_fencing_writes_main::run_steps();
    lemma_store(steps, Node::A, 0);
    lemma_start(steps, Node::A, 1);
    lemma_pause(steps, Node::A, 2);
    lemma_start(steps, Node::A, 3);
    lemma_pause(steps, Node::A, 4);
    lemma_connect(steps, Node::A, 5);
    lemma_taken(steps, Node::A, 6);
    lemma_taken(steps, Node::A, 7);
    lemma_taken(steps, Node::A, 8);
    lemma_taken(steps, Node::A, 9);
    lemma_connect(steps, Node::A, 10);
    lemma_refused(steps, Node::A, 11);
    lemma_refused(steps, Node::A, 12);
    lemma_refused(steps, Node::A, 13);
    lemma_refused(steps, Node::A, 14);
    lemma_kept(steps, Node::A, 15, 16);
    lemma_by_lease(steps, Node::A, 15, 16);
    lemma_recalled(steps, Node::A, 16);
    lemma_stop(steps, Node::A, 17);
    lemma_refused(steps, Node::A, 18);
    lemma_pause(steps, Node::A, 19);
    lemma_taken(steps, Node::A, 20);
    lemma_taken(steps, Node::A, 21);
    lemma_kept(steps, Node::A, 22, 23);
    lemma_by_lease(steps, Node::A, 22, 23);
    lemma_recalled(steps, Node::A, 23);
    lemma_by_lease(steps, Node::A, 22, 24);
    lemma_recalled(steps, Node::A, 24);
    lemma_taken(steps, Node::A, 25);
    lemma_taken(steps, Node::A, 26);
    lemma_by_count(steps, Node::A, 27, 27);
    lemma_told(steps, Node::A, 27);
    reveal_with_fuel(sound_before, 29);
    soundness_is_step_by_step(steps, Node::A, 28);
}

/// Every step of [`crate::s3_lease_monotonicity::run`] reaches what it asks and asks for what two sound nodes
/// answer.
pub proof fn s3_lease_monotonicity_is_sound()
    ensures
        all_sound(crate::s3_lease_monotonicity::run_steps(), Node::A),
        are_paired(crate::s3_lease_monotonicity::run_steps(), 1, 3),
{
    let steps = crate::s3_lease_monotonicity::run_steps();
    lemma_store(steps, Node::A, 0);
    lemma_start(steps, Node::A, 1);
    lemma_pause(steps, Node::A, 2);
    lemma_start(steps, Node::A, 3);
    lemma_pause(steps, Node::A, 4);
    lemma_connect(steps, Node::A, 5);
    lemma_taken(steps, Node::A, 6);
    lemma_taken(steps, Node::A, 7);
    lemma_taken(steps, Node::A, 8);
    lemma_connect(steps, Node::A, 9);
    lemma_by_count(steps, Node::A, 10, 10);
    lemma_told(steps, Node::A, 10);
    lemma_kept(steps, Node::A, 11, 12);
    lemma_by_lease(steps, Node::A, 11, 12);
    lemma_recalled(steps, Node::A, 12);
    lemma_disconnect(steps, Node::A, 13);
    lemma_stop(steps, Node::A, 14);
    lemma_pause(steps, Node::A, 15);
    lemma_kept(steps, Node::A, 16, 17);
    lemma_by_lease(steps, Node::A, 16, 17);
    lemma_recalled(steps, Node::A, 17);
    lemma_by_lease(steps, Node::A, 16, 18);
    lemma_recalled(steps, Node::A, 18);
    lemma_taken(steps, Node::A, 19);
    lemma_taken(steps, Node::A, 20);
    lemma_restart(steps, Node::A, 21);
    lemma_pause(steps, Node::A, 22);
    lemma_connect(steps, Node::A, 23);
    lemma_refused(steps, Node::A, 24);
    lemma_disconnect(steps, Node::A, 25);
    lemma_stop(steps, Node::A, 26);
    lemma_pause(steps, Node::A, 27);
    lemma_kept(steps, Node::A, 28, 29);
    lemma_by_lease(steps, Node::A, 28, 29);
    lemma_recalled(steps, Node::A, 29);
    lemma_by_lease(steps, Node::A, 28, 30);
    lemma_recalled(steps, Node::A, 30);
    lemma_by_lease(steps, Node::A, 28, 31);
    lemma_recalled(steps, Node::A, 31);
    lemma_taken(steps, Node::A, 32);
    lemma_taken(steps, Node::A, 33);
    lemma_by_count(steps, Node::A, 34, 34);
    lemma_told(steps, Node::A, 34);
    reveal_with_fuel(sound_before, 36);
    soundness_is_step_by_step(steps, Node::A, 35);
}

/// Every step of [`crate::s3_lease_renewal_backoff::run`] reaches what it asks and asks for what two sound nodes
/// answer.
pub proof fn s3_lease_renewal_backoff_is_sound()
    ensures
        all_sound(crate::s3_lease_renewal_backoff::run_steps(), Node::A),
        are_paired(crate::s3_lease_renewal_backoff::run_steps(), 1, 4),
{
    let steps = crate::s3_lease_renewal_backoff::run_steps();
    lemma_store(steps, Node::A, 0);
    lemma_start(steps, Node::A, 1);
    lemma_pause(steps, Node::A, 2);
    lemma_set_up(steps, Node::A, 3);
    lemma_start(steps, Node::A, 4);
    lemma_pause(steps, Node::A, 5);
    lemma_connect(steps, Node::A, 6);
    lemma_taken(steps, Node::A, 7);
    lemma_kept(steps, Node::A, 8, 10);
    lemma_block(steps, Node::A, 9);
    assert(answer_is_sound(steps, Node::A, 10, 10)) by {
        reveal(answer_is_sound);
    }
    lemma_told(steps, Node::A, 10);
    reveal_with_fuel(sound_before, 12);
    soundness_is_step_by_step(steps, Node::A, 11);
}

/// Every step of [`crate::s3_network_partition_main::run`] reaches what it asks and asks for what two sound nodes
/// answer.
pub proof fn s3_network_partition_main_is_sound()
    ensures
        all_sound(crate::s3_network_partition_main::run_steps(), Node::A),
        are_paired(crate::s3_network_partition_main::run_steps(), 1, 4),
{
    let steps = crate::s3_network_partition_main::run_steps();
    lemma_store(steps, Node::A, 0);
    lemma_start(steps, Node::A, 1);
    lemma_pause(steps, Node::A, 2);
    lemma_set_up(steps, Node::A, 3);
    lemma_start(steps, Node::A, 4);
    lemma_pause(steps, Node::A, 5);
    lemma_connect(steps, Node::A, 6);
    lemma_connect(steps, Node::A, 7);
    lemma_taken(steps, Node::A, 8);
    lemma_taken(steps, Node::A, 9);
    lemma_taken(steps, Node::A, 10);
    lemma_pause(steps, Node::A, 11);
    lemma_by_count(steps, Node::A, 12, 12);
    lemma_told(steps, Node::A, 12);
    lemma_kept(steps, Node::A, 13, 21);
    lemma_taken(steps, Node::A, 14);
    lemma_refused(steps, Node::A, 15);
    lemma_block(steps, Node::A, 16);
    lemma_refused(steps, Node::A, 17);
    lemma_refused(steps, Node::A, 18);
    lemma_pause(steps, Node::A, 19);
    lemma_kept(steps, Node::A, 20, 21);
    lemma_by_lease(steps, Node::A, 20, 21);
    lemma_recalled(steps, Node::A, 21);
    lemma_by_lease(steps, Node::A, 20, 22);
    lemma_recalled(steps, Node::A, 22);
    lemma_by_lease(steps, Node::A, 20, 23);
    lemma_recalled(steps, Node::A, 23);
    reveal_with_fuel(sound_before, 25);
    soundness_is_step_by_step(steps, Node::A, 24);
}

/// Every step of [`crate::s3_old_leader_recovery_main::run`] reaches what it asks and asks for what two sound nodes
/// answer.
pub proof fn s3_old_leader_recovery_main_is_sound()
    ensures
        all_sound(crate::s3_old_leader_recovery_main::run_steps(), Node::A),
        are_paired(crate::s3_old_leader_recovery_main::run_steps(), 1, 3),
{
    let steps = crate::s3_old_leader_recovery_main::run_steps();
    lemma_store(steps, Node::A, 0);
    lemma_start(steps, Node::A, 1);
    lemma_pause(steps, Node::A, 2);
    lemma_start(steps, Node::A, 3);
    lemma_pause(steps, Node::A, 4);
    lemma_connect(steps, Node::A, 5);
    lemma_connect(steps, Node::A, 6);
    lemma_taken(steps, Node::A, 7);
    lemma_taken(steps, Node::A, 8);
    lemma_taken(steps, Node::A, 9);
    lemma_taken(steps, Node::A, 10);
    lemma_taken(steps, Node::A, 11);
    lemma_pause(steps, Node::A, 12);
    lemma_by_count(steps, Node::A, 13, 13);
    lemma_told(steps, Node::A, 13);
    lemma_kept(steps, Node::A, 14, 18);
    lemma_stop(steps, Node::A, 15);
    lemma_pause(steps, Node::A, 16);
    lemma_kept(steps, Node::A, 17, 18);
    lemma_by_lease(steps, Node::A, 17, 18);
    lemma_recalled(steps, Node::A, 18);
    lemma_taken(steps, Node::A, 19);
    lemma_restart(steps, Node::A, 20);
    lemma_pause(steps, Node::A, 21);
    lemma_disconnect(steps, Node::A, 22);
    lemma_connect(steps, Node::A, 23);
    lemma_refused(steps, Node::A, 24);
    lemma_pause(steps, Node::A, 25);
    lemma_disconnect(steps, Node::A, 26);
    lemma_disconnect(steps, Node::A, 27);
    lemma_connect(steps, Node::A, 28);
    lemma_connect(steps, Node::A, 29);
    lemma_taken(steps, Node::A, 30);
    lemma_taken(steps, Node::A, 31);
    lemma_taken(steps, Node::A, 32);
    lemma_taken(steps, Node::A, 33);
    lemma_taken(steps, Node::A, 34);
    lemma_pause(steps, Node::A, 35);
    lemma_by_count(steps, Node::A, 36, 36);
    lemma_told(steps, Node::A, 36);
    reveal_with_fuel(sound_before, 38);
    soundness_is_step_by_step(steps, Node::A, 37);
}

/// Every step of [`crate::s3_reconvergence::run`] reaches what it asks and asks for what two sound nodes
/// answer.
pub proof fn s3_reconvergence_is_sound()
    ensures
        all_sound(crate::s3_reconvergence::run_steps(), Node::A),
        are_paired(crate::s3_reconvergence::run_steps(), 1, 4),
{
    let steps = crate::s3_reconvergence::run_steps();
    lemma_store(steps, Node::A, 0);
    lemma_start(steps, Node::A, 1);
    lemma_pause(steps, Node::A, 2);
    lemma_set_up(steps, Node::A, 3);
    lemma_start(steps, Node::A, 4);
    lemma_pause(steps, Node::A, 5);
    lemma_connect(steps, Node::A, 6);
    lemma_connect(steps, Node::A, 7);
    lemma_taken(steps, Node::A, 8);
    lemma_taken(steps, Node::A, 9);
    lemma_taken(steps, Node::A, 10);
    lemma_by_count(steps, Node::A, 11, 11);
    lemma_told(steps, Node::A, 11);
    lemma_taken(steps, Node::A, 12);
    lemma_refused(steps, Node::A, 13);
    lemma_kept(steps, Node::A, 14, 18);
    lemma_block(steps, Node::A, 15);
    lemma_pause(steps, Node::A, 16);
    lemma_kept(steps, Node::A, 17, 18);
    lemma_by_lease(steps, Node::A, 17, 18);
    lemma_recalled(steps, Node::A, 18);
    lemma_taken(steps, Node::A, 19);
    lemma_taken(steps, Node::A, 20);
    lemma_set_up(steps, Node::A, 21);
    lemma_pause(steps, Node::A, 22);
    assert(answer_is_sound(steps, Node::A, 23, 23)) by {
        reveal(answer_is_sound);
    }
    lemma_told(steps, Node::A, 23);
    lemma_tried(steps, Node::A, 24, 25);
    lemma_tried(steps, Node::A, 25, 0);
    reveal_with_fuel(sound_before, 27);
    soundness_is_step_by_step(steps, Node::A, 26);
}

/// Every step of [`crate::s3_stale_lease::run`] reaches what it asks and asks for what two sound nodes
/// answer.
pub proof fn s3_stale_lease_is_sound()
    ensures
        all_sound(crate::s3_stale_lease::run_steps(), Node::A),
        are_paired(crate::s3_stale_lease::run_steps(), 1, 3),
{
    let steps = crate::s3_stale_lease::run_steps();
    lemma_store(steps, Node::A, 0);
    lemma_start(steps, Node::A, 1);
    lemma_pause(steps, Node::A, 2);
    lemma_start(steps, Node::A, 3);
    lemma_pause(steps, Node::A, 4);
    lemma_connect(steps, Node::A, 5);
    lemma_taken(steps, Node::A, 6);
    lemma_taken(steps, Node::A, 7);
    lemma_taken(steps, Node::A, 8);
    lemma_connect(steps, Node::A, 9);
    lemma_by_count(steps, Node::A, 10, 10);
    lemma_told(steps, Node::A, 10);
    lemma_disconnect(steps, Node::A, 11);
    lemma_stop(steps, Node::A, 12);
    lemma_pause(steps, Node::A, 13);
    lemma_kept(steps, Node::A, 14, 15);
    lemma_by_lease(steps, Node::A, 14, 15);
    lemma_recalled(steps, Node::A, 15);
    lemma_taken(steps, Node::A, 16);
    lemma_restart(steps, Node::A, 17);
    lemma_pause(steps, Node::A, 18);
    lemma_kept(steps, Node::A, 19, 20);
    lemma_by_lease(steps, Node::A, 19, 20);
    lemma_recalled(steps, Node::A, 20);
    lemma_by_lease(steps, Node::A, 19, 21);
    lemma_recalled(steps, Node::A, 21);
    lemma_taken(steps, Node::A, 22);
    lemma_taken(steps, Node::A, 23);
    lemma_by_count(steps, Node::A, 24, 24);
    lemma_told(steps, Node::A, 24);
    reveal_with_fuel(sound_before, 26);
    soundness_is_step_by_step(steps, Node::A, 25);
}

/// Every step of [`crate::promotion_failure_process_survival::run`] reaches what it asks and asks for what two sound nodes
/// answer.
pub proof fn promotion_failure_process_survival_is_sound()
    ensures
        all_sound(crate::promotion_failure_process_survival::run_steps(), Node::A),
        are_paired(crate::promotion_failure_process_survival::run_steps(), 2, 4),
{
    let steps = crate::promotion_failure_process_survival::run_steps();
    lemma_store(steps, Node::A, 0);
    lemma_set_up(steps, Node::A, 1);
    lemma_start(steps, Node::A, 2);
    lemma_pause(steps, Node::A, 3);
    lemma_start(steps, Node::A, 4);
    lemma_pause(steps, Node::A, 5);
    assert(answer_is_sound(steps, Node::A, 6, 6)) by {
        reveal(answer_is_sound);
    }
    lemma_told(steps, Node::A, 6);
    lemma_connect(steps, Node::A, 7);
    lemma_taken(steps, Node::A, 8);
    lemma_taken(steps, Node::A, 9);
    lemma_taken(steps, Node::A, 10);
    lemma_taken(steps, Node::A, 11);
    lemma_taken(steps, Node::A, 12);
    lemma_by_stream(steps, Node::A, 13, 13);
    lemma_told(steps, Node::A, 13);
    lemma_block(steps, Node::A, 14);
    assert(answer_is_sound(steps, Node::A, 15, 15)) by {
        reveal(answer_is_sound);
    }
    lemma_told(steps, Node::A, 15);
    assert(answer_is_sound(steps, Node::A, 16, 16)) by {
        reveal(answer_is_sound);
    }
    lemma_told(steps, Node::A, 16);
    assert(answer_is_sound(steps, Node::A, 17, 17)) by {
        reveal(answer_is_sound);
    }
    lemma_told(steps, Node::A, 17);
    lemma_connect(steps, Node::A, 18);
    lemma_taken(steps, Node::A, 19);
    lemma_taken(steps, Node::A, 20);
    lemma_taken(steps, Node::A, 21);
    assert(answer_is_sound(steps, Node::A, 22, 22)) by {
        reveal(answer_is_sound);
    }
    lemma_told(steps, Node::A, 22);
    lemma_kept(steps, Node::A, 23, 27);
    lemma_stop(steps, Node::A, 24);
    lemma_set_up(steps, Node::A, 25);
    assert(answer_is_sound(steps, Node::A, 26, 26)) by {
        reveal(answer_is_sound);
    }
    lemma_told(steps, Node::A, 26);
    lemma_by_lease(steps, Node::A, 27, 27);
    lemma_told(steps, Node::A, 27);
    lemma_store_gone(steps, Node::A, 28);
    reveal_with_fuel(sound_before, 30);
    soundness_is_step_by_step(steps, Node::A, 29);
}

/// In [`crate::s3_failover::run`] the node that is stopped before the takeover is the one that took
/// the first three events, and the fourth goes to the other one, which runs.
pub proof fn the_leader_is_stopped_and_the_other_node_goes_on(i: nat)
    requires
        6 <= i <= 8,
    ensures
        ({
            let steps = crate::s3_failover::run_steps();
            let taker = |k: int| resolve(steps[k].action->Write_0, Node::A);
            let stopped = resolve(steps[14].action->StopNode_0, Node::A);
            &&& steps[i as int].action is Write && steps[14].action is StopNode
                && steps[16].action is Write
            &&& taker(i as int) == stopped
            &&& taker(16) == other(stopped)
            &&& !place(cluster_at(steps, Node::A, 16), stopped).up
            &&& place(cluster_at(steps, Node::A, 16), taker(16)).up
        }),
{
    let steps = crate::s3_failover::run_steps();
    s3_failover_is_sound();
    assert(!cluster_at(steps, Node::A, 16).cut) by {
        reveal_with_fuel(cluster_at, 17);
        reveal(moved);
    }
    accepted_writes_go_to_the_leader(steps, Node::A, 16);
    a_node_runs_from_start_to_stop(steps, Node::A, 14, Node::A);
    a_node_runs_from_start_to_stop(steps, Node::A, 15, Node::A);
    assert(i == 6 || i == 7 || i == 8);
}

} // verus!
