//! The scenarios that speak of a leader and a follower, held against what two sound nodes do.

use crate::bench::Node;
use crate::cluster::{
    all_sound, answer_is_sound, are_paired, lemma_block, lemma_by_count, lemma_by_lease,
    lemma_by_listing, lemma_by_stream, lemma_compared, lemma_connect, lemma_kept,
    lemma_one_of_two_taken, lemma_pause, lemma_recalled, lemma_refused, lemma_restart,
    lemma_run_taken, lemma_set_up, lemma_start, lemma_stop, lemma_store, lemma_taken, lemma_told,
    sound_before, soundness_is_step_by_step,
};
use vstd::prelude::*;

verus! {

/// Every step of [`crate::s3_election_main::run`] reaches what it asks and asks for what two sound nodes
/// answer, whichever of them leads.
pub proof fn s3_election_main_is_sound(lead: Node)
    ensures
        all_sound(crate::s3_election_main::run_steps(), lead),
        are_paired(crate::s3_election_main::run_steps(), 1, 2),
{
    let steps = crate::s3_election_main::run_steps();
    lemma_store(steps, lead, 0);
    lemma_start(steps, lead, 1);
    lemma_start(steps, lead, 2);
    lemma_pause(steps, lead, 3);
    assert(answer_is_sound(steps, lead, 4, 4)) by {
        reveal(answer_is_sound);
    }
    lemma_told(steps, lead, 4);
    lemma_connect(steps, lead, 5);
    lemma_taken(steps, lead, 6);
    lemma_taken(steps, lead, 7);
    lemma_taken(steps, lead, 8);
    lemma_taken(steps, lead, 9);
    lemma_taken(steps, lead, 10);
    lemma_taken(steps, lead, 11);
    lemma_connect(steps, lead, 12);
    lemma_refused(steps, lead, 13);
    lemma_pause(steps, lead, 14);
    lemma_by_count(steps, lead, 15, 15);
    lemma_told(steps, lead, 15);
    lemma_by_count(steps, lead, 16, 16);
    lemma_told(steps, lead, 16);
    lemma_by_count(steps, lead, 17, 17);
    lemma_told(steps, lead, 17);
    lemma_by_count(steps, lead, 18, 18);
    lemma_told(steps, lead, 18);
    lemma_kept(steps, lead, 19, 20);
    lemma_by_lease(steps, lead, 19, 20);
    lemma_recalled(steps, lead, 20);
    lemma_by_lease(steps, lead, 19, 21);
    lemma_recalled(steps, lead, 21);
    assert(answer_is_sound(steps, lead, 22, 22)) by {
        reveal(answer_is_sound);
    }
    lemma_told(steps, lead, 22);
    lemma_by_listing(steps, lead, 23, 23);
    lemma_told(steps, lead, 23);
    reveal_with_fuel(sound_before, 25);
    soundness_is_step_by_step(steps, lead, 24);
}

/// Every step of [`crate::s3_split_brain_main::run`] reaches what it asks and asks for what two sound nodes
/// answer, whichever of them leads.
pub proof fn s3_split_brain_main_is_sound(lead: Node)
    ensures
        all_sound(crate::s3_split_brain_main::run_steps(), lead),
        are_paired(crate::s3_split_brain_main::run_steps(), 1, 3),
{
    let steps = crate::s3_split_brain_main::run_steps();
    lemma_store(steps, lead, 0);
    lemma_start(steps, lead, 1);
    lemma_pause(steps, lead, 2);
    lemma_start(steps, lead, 3);
    lemma_pause(steps, lead, 4);
    lemma_kept(steps, lead, 5, 6);
    lemma_by_lease(steps, lead, 5, 6);
    lemma_recalled(steps, lead, 6);
    lemma_by_lease(steps, lead, 5, 7);
    lemma_recalled(steps, lead, 7);
    lemma_connect(steps, lead, 8);
    lemma_connect(steps, lead, 9);
    lemma_one_of_two_taken(steps, lead, 10);
    lemma_taken(steps, lead, 11);
    lemma_taken(steps, lead, 12);
    lemma_taken(steps, lead, 13);
    lemma_pause(steps, lead, 14);
    lemma_by_count(steps, lead, 15, 15);
    lemma_told(steps, lead, 15);
    reveal_with_fuel(sound_before, 17);
    soundness_is_step_by_step(steps, lead, 16);
}

/// Every step of [`crate::phase6::cluster_elects_single_leader`] reaches what it asks and asks for what two sound nodes
/// answer, whichever of them leads.
pub proof fn cluster_elects_single_leader_is_sound(lead: Node)
    ensures
        all_sound(crate::phase6::cluster_elects_single_leader_steps(), lead),
        are_paired(crate::phase6::cluster_elects_single_leader_steps(), 1, 2),
{
    let steps = crate::phase6::cluster_elects_single_leader_steps();
    lemma_store(steps, lead, 0);
    lemma_start(steps, lead, 1);
    lemma_start(steps, lead, 2);
    assert(answer_is_sound(steps, lead, 3, 3)) by {
        reveal(answer_is_sound);
    }
    lemma_told(steps, lead, 3);
    reveal_with_fuel(sound_before, 5);
    soundness_is_step_by_step(steps, lead, 4);
}

/// Every step of [`crate::phase6::cluster_replicates_and_rejects_follower_write`] reaches what it asks and asks for what two sound nodes
/// answer, whichever of them leads.
pub proof fn cluster_replicates_and_rejects_follower_write_is_sound(lead: Node)
    ensures
        all_sound(crate::phase6::cluster_replicates_and_rejects_follower_write_steps(), lead),
        are_paired(crate::phase6::cluster_replicates_and_rejects_follower_write_steps(), 1, 2),
{
    let steps = crate::phase6::cluster_replicates_and_rejects_follower_write_steps();
    lemma_store(steps, lead, 0);
    lemma_start(steps, lead, 1);
    lemma_start(steps, lead, 2);
    lemma_pause(steps, lead, 3);
    assert(answer_is_sound(steps, lead, 4, 4)) by {
        reveal(answer_is_sound);
    }
    lemma_told(steps, lead, 4);
    lemma_run_taken(steps, lead, 5);
    lemma_refused(steps, lead, 6);
    lemma_by_count(steps, lead, 7, 7);
    lemma_told(steps, lead, 7);
    reveal_with_fuel(sound_before, 9);
    soundness_is_step_by_step(steps, lead, 8);
}

/// Every step of [`crate::phase6::follower_read_converges`] reaches what it asks and asks for what two sound nodes
/// answer, whichever of them leads.
pub proof fn follower_read_converges_is_sound(lead: Node)
    ensures
        all_sound(crate::phase6::follower_read_converges_steps(), lead),
        are_paired(crate::phase6::follower_read_converges_steps(), 1, 2),
{
    let steps = crate::phase6::follower_read_converges_steps();
    lemma_store(steps, lead, 0);
    lemma_start(steps, lead, 1);
    lemma_start(steps, lead, 2);
    lemma_pause(steps, lead, 3);
    assert(answer_is_sound(steps, lead, 4, 4)) by {
        reveal(answer_is_sound);
    }
    lemma_told(steps, lead, 4);
    lemma_run_taken(steps, lead, 5);
    lemma_by_count(steps, lead, 6, 6);
    lemma_told(steps, lead, 6);
    reveal_with_fuel(sound_before, 8);
    soundness_is_step_by_step(steps, lead, 7);
}

/// Every step of [`crate::phase6::failover_promotes_follower`] reaches what it asks and asks for what two sound nodes
/// answer, whichever of them leads.
pub proof fn failover_promotes_follower_is_sound(lead: Node)
    ensures
        all_sound(crate::phase6::failover_promotes_follower_steps(), lead),
        are_paired(crate::phase6::failover_promotes_follower_steps(), 1, 2),
{
    let steps = crate::phase6::failover_promotes_follower_steps();
    lemma_store(steps, lead, 0);
    lemma_start(steps, lead, 1);
    lemma_start(steps, lead, 2);
    lemma_pause(steps, lead, 3);
    assert(answer_is_sound(steps, lead, 4, 4)) by {
        reveal(answer_is_sound);
    }
    lemma_told(steps, lead, 4);
    lemma_run_taken(steps, lead, 5);
    lemma_by_count(steps, lead, 6, 6);
    lemma_told(steps, lead, 6);
    lemma_stop(steps, lead, 7);
    lemma_taken(steps, lead, 8);
    lemma_by_count(steps, lead, 9, 9);
    lemma_told(steps, lead, 9);
    reveal_with_fuel(sound_before, 11);
    soundness_is_step_by_step(steps, lead, 10);
}

/// Every step of [`crate::phase8::replication_link_cut_acks_via_s3_and_heals`] reaches what it asks and asks for what two sound nodes
/// answer, whichever of them leads.
pub proof fn replication_link_cut_acks_via_s3_and_heals_is_sound(lead: Node)
    ensures
        all_sound(crate::phase8::replication_link_cut_acks_via_s3_and_heals_steps(), lead),
        are_paired(crate::phase8::replication_link_cut_acks_via_s3_and_heals_steps(), 3, 4),
{
    let steps = crate::phase8::replication_link_cut_acks_via_s3_and_heals_steps();
    lemma_store(steps, lead, 0);
    lemma_set_up(steps, lead, 1);
    lemma_set_up(steps, lead, 2);
    lemma_start(steps, lead, 3);
    lemma_start(steps, lead, 4);
    assert(answer_is_sound(steps, lead, 5, 5)) by {
        reveal(answer_is_sound);
    }
    lemma_told(steps, lead, 5);
    lemma_pause(steps, lead, 6);
    lemma_run_taken(steps, lead, 7);
    lemma_by_count(steps, lead, 8, 8);
    lemma_told(steps, lead, 8);
    lemma_block(steps, lead, 9);
    lemma_run_taken(steps, lead, 10);
    lemma_set_up(steps, lead, 11);
    lemma_by_count(steps, lead, 12, 12);
    lemma_told(steps, lead, 12);
    reveal_with_fuel(sound_before, 14);
    soundness_is_step_by_step(steps, lead, 13);
}

/// Every step of [`crate::phase8::s3_outage_leader_keeps_serving`] reaches what it asks and asks for what two sound nodes
/// answer, whichever of them leads.
pub proof fn s3_outage_leader_keeps_serving_is_sound(lead: Node)
    ensures
        all_sound(crate::phase8::s3_outage_leader_keeps_serving_steps(), lead),
        are_paired(crate::phase8::s3_outage_leader_keeps_serving_steps(), 2, 3),
{
    let steps = crate::phase8::s3_outage_leader_keeps_serving_steps();
    lemma_store(steps, lead, 0);
    lemma_set_up(steps, lead, 1);
    lemma_start(steps, lead, 2);
    lemma_start(steps, lead, 3);
    assert(answer_is_sound(steps, lead, 4, 4)) by {
        reveal(answer_is_sound);
    }
    lemma_told(steps, lead, 4);
    lemma_pause(steps, lead, 5);
    lemma_run_taken(steps, lead, 6);
    lemma_by_count(steps, lead, 7, 7);
    lemma_told(steps, lead, 7);
    lemma_block(steps, lead, 8);
    lemma_run_taken(steps, lead, 9);
    lemma_by_count(steps, lead, 10, 10);
    lemma_told(steps, lead, 10);
    lemma_set_up(steps, lead, 11);
    lemma_run_taken(steps, lead, 12);
    reveal_with_fuel(sound_before, 14);
    soundness_is_step_by_step(steps, lead, 13);
}

/// Every step of [`crate::phase8::crash_follower_restart_data_survives`] reaches what it asks and asks for what two sound nodes
/// answer, whichever of them leads.
pub proof fn crash_follower_restart_data_survives_is_sound(lead: Node)
    ensures
        all_sound(crate::phase8::crash_follower_restart_data_survives_steps(), lead),
        are_paired(crate::phase8::crash_follower_restart_data_survives_steps(), 1, 2),
{
    let steps = crate::phase8::crash_follower_restart_data_survives_steps();
    lemma_store(steps, lead, 0);
    lemma_start(steps, lead, 1);
    lemma_start(steps, lead, 2);
    assert(answer_is_sound(steps, lead, 3, 3)) by {
        reveal(answer_is_sound);
    }
    lemma_told(steps, lead, 3);
    lemma_pause(steps, lead, 4);
    lemma_run_taken(steps, lead, 5);
    lemma_by_count(steps, lead, 6, 6);
    lemma_told(steps, lead, 6);
    lemma_stop(steps, lead, 7);
    lemma_run_taken(steps, lead, 8);
    lemma_restart(steps, lead, 9);
    lemma_by_count(steps, lead, 10, 10);
    lemma_told(steps, lead, 10);
    lemma_by_count(steps, lead, 10, 11);
    lemma_recalled(steps, lead, 11);
    reveal_with_fuel(sound_before, 13);
    soundness_is_step_by_step(steps, lead, 12);
}

/// Every step of [`crate::phase8::exactly_once_across_failover`] reaches what it asks and asks for what two sound nodes
/// answer, whichever of them leads.
pub proof fn exactly_once_across_failover_is_sound(lead: Node)
    ensures
        all_sound(crate::phase8::exactly_once_across_failover_steps(), lead),
        are_paired(crate::phase8::exactly_once_across_failover_steps(), 1, 2),
{
    let steps = crate::phase8::exactly_once_across_failover_steps();
    lemma_store(steps, lead, 0);
    lemma_start(steps, lead, 1);
    lemma_start(steps, lead, 2);
    assert(answer_is_sound(steps, lead, 3, 3)) by {
        reveal(answer_is_sound);
    }
    lemma_told(steps, lead, 3);
    lemma_pause(steps, lead, 4);
    lemma_run_taken(steps, lead, 5);
    lemma_by_count(steps, lead, 6, 6);
    lemma_told(steps, lead, 6);
    lemma_stop(steps, lead, 7);
    lemma_taken(steps, lead, 8);
    lemma_connect(steps, lead, 9);
    lemma_by_stream(steps, lead, 10, 10);
    lemma_told(steps, lead, 10);
    lemma_by_stream(steps, lead, 10, 11);
    lemma_recalled(steps, lead, 11);
    lemma_by_stream(steps, lead, 10, 12);
    lemma_recalled(steps, lead, 12);
    lemma_by_stream(steps, lead, 10, 13);
    lemma_recalled(steps, lead, 13);
    reveal_with_fuel(sound_before, 15);
    soundness_is_step_by_step(steps, lead, 14);
}

/// Every step of [`crate::phase8::leader_follower_read_parity`] reaches what it asks and asks for what two sound nodes
/// answer, whichever of them leads.
pub proof fn leader_follower_read_parity_is_sound(lead: Node)
    ensures
        all_sound(crate::phase8::leader_follower_read_parity_steps(), lead),
        are_paired(crate::phase8::leader_follower_read_parity_steps(), 1, 2),
{
    let steps = crate::phase8::leader_follower_read_parity_steps();
    lemma_store(steps, lead, 0);
    lemma_start(steps, lead, 1);
    lemma_start(steps, lead, 2);
    assert(answer_is_sound(steps, lead, 3, 3)) by {
        reveal(answer_is_sound);
    }
    lemma_told(steps, lead, 3);
    lemma_pause(steps, lead, 4);
    lemma_run_taken(steps, lead, 5);
    lemma_by_count(steps, lead, 6, 6);
    lemma_told(steps, lead, 6);
    lemma_connect(steps, lead, 7);
    lemma_connect(steps, lead, 8);
    lemma_kept(steps, lead, 9, 11);
    lemma_kept(steps, lead, 10, 12);
    lemma_by_stream(steps, lead, 9, 11);
    lemma_recalled(steps, lead, 11);
    lemma_compared(steps, lead, 12);
    lemma_kept(steps, lead, 13, 14);
    lemma_by_count(steps, lead, 14, 14);
    lemma_told(steps, lead, 14);
    reveal_with_fuel(sound_before, 16);
    soundness_is_step_by_step(steps, lead, 15);
}

/// Every step of [`crate::phase11::leader_self_fences_on_lost_lease`] reaches what it asks and asks for what two sound nodes
/// answer, whichever of them leads.
pub proof fn leader_self_fences_on_lost_lease_is_sound(lead: Node)
    ensures
        all_sound(crate::phase11::leader_self_fences_on_lost_lease_steps(), lead),
        are_paired(crate::phase11::leader_self_fences_on_lost_lease_steps(), 5, 6),
{
    let steps = crate::phase11::leader_self_fences_on_lost_lease_steps();
    lemma_store(steps, lead, 0);
    lemma_set_up(steps, lead, 1);
    lemma_set_up(steps, lead, 2);
    lemma_set_up(steps, lead, 3);
    lemma_set_up(steps, lead, 4);
    lemma_start(steps, lead, 5);
    lemma_start(steps, lead, 6);
    assert(answer_is_sound(steps, lead, 7, 7)) by {
        reveal(answer_is_sound);
    }
    lemma_told(steps, lead, 7);
    lemma_pause(steps, lead, 8);
    lemma_run_taken(steps, lead, 9);
    lemma_block(steps, lead, 10);
    lemma_block(steps, lead, 11);
    lemma_block(steps, lead, 12);
    lemma_set_up(steps, lead, 13);
    lemma_set_up(steps, lead, 14);
    lemma_set_up(steps, lead, 15);
    lemma_taken(steps, lead, 16);
    reveal_with_fuel(sound_before, 18);
    soundness_is_step_by_step(steps, lead, 17);
}

/// Every step of [`crate::phase11::notleader_redirect_carries_leader_address`] reaches what it asks and asks for what two sound nodes
/// answer, whichever of them leads.
pub proof fn notleader_redirect_carries_leader_address_is_sound(lead: Node)
    ensures
        all_sound(crate::phase11::notleader_redirect_carries_leader_address_steps(), lead),
        are_paired(crate::phase11::notleader_redirect_carries_leader_address_steps(), 1, 2),
{
    let steps = crate::phase11::notleader_redirect_carries_leader_address_steps();
    lemma_store(steps, lead, 0);
    lemma_start(steps, lead, 1);
    lemma_start(steps, lead, 2);
    assert(answer_is_sound(steps, lead, 3, 3)) by {
        reveal(answer_is_sound);
    }
    lemma_told(steps, lead, 3);
    lemma_pause(steps, lead, 4);
    lemma_refused(steps, lead, 5);
    lemma_compared(steps, lead, 6);
    assert(answer_is_sound(steps, lead, 5, 7)) by {
        reveal(answer_is_sound);
    }
    lemma_recalled(steps, lead, 7);
    assert(answer_is_sound(steps, lead, 5, 8)) by {
        reveal(answer_is_sound);
    }
    lemma_recalled(steps, lead, 8);
    reveal_with_fuel(sound_before, 10);
    soundness_is_step_by_step(steps, lead, 9);
}

/// Every step of [`crate::phase11::throttled_link_preserves_acked_writes`] reaches what it asks and asks for what two sound nodes
/// answer, whichever of them leads.
pub proof fn throttled_link_preserves_acked_writes_is_sound(lead: Node)
    ensures
        all_sound(crate::phase11::throttled_link_preserves_acked_writes_steps(), lead),
        are_paired(crate::phase11::throttled_link_preserves_acked_writes_steps(), 3, 4),
{
    let steps = crate::phase11::throttled_link_preserves_acked_writes_steps();
    lemma_store(steps, lead, 0);
    lemma_set_up(steps, lead, 1);
    lemma_set_up(steps, lead, 2);
    lemma_start(steps, lead, 3);
    lemma_start(steps, lead, 4);
    assert(answer_is_sound(steps, lead, 5, 5)) by {
        reveal(answer_is_sound);
    }
    lemma_told(steps, lead, 5);
    lemma_pause(steps, lead, 6);
    lemma_run_taken(steps, lead, 7);
    lemma_set_up(steps, lead, 8);
    lemma_connect(steps, lead, 9);
    lemma_set_up(steps, lead, 10);
    lemma_set_up(steps, lead, 11);
    lemma_by_count(steps, lead, 12, 12);
    lemma_told(steps, lead, 12);
    lemma_by_stream(steps, lead, 13, 13);
    lemma_told(steps, lead, 13);
    reveal_with_fuel(sound_before, 15);
    soundness_is_step_by_step(steps, lead, 14);
}

} // verus!
