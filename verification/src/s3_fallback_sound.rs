//! The scenarios in which the store stands in for a missing node, held against what two sound
//! nodes do.

use crate::bench::Node;
use crate::cluster::{
    all_sound, answer_is_sound, are_paired, lemma_block, lemma_by_count, lemma_by_fallback,
    lemma_by_lease, lemma_by_listing, lemma_connect, lemma_counted_taken, lemma_disconnect,
    lemma_kept, lemma_large_taken, lemma_pause, lemma_recalled, lemma_refused, lemma_restart,
    lemma_set_up, lemma_start, lemma_stop, lemma_store, lemma_store_gone, lemma_taken, lemma_told,
    sound_before, soundness_is_step_by_step,
};
use vstd::prelude::*;

verus! {

/// Every step of [`crate::s3_degraded_segment_summaries::run`] reaches what it asks and asks for what two sound nodes
/// answer.
pub proof fn s3_degraded_segment_summaries_is_sound()
    ensures
        all_sound(crate::s3_degraded_segment_summaries::run_steps(), Node::A),
        are_paired(crate::s3_degraded_segment_summaries::run_steps(), 1, 2),
{
    let steps = crate::s3_degraded_segment_summaries::run_steps();
    lemma_store(steps, Node::A, 0);
    lemma_start(steps, Node::A, 1);
    lemma_start(steps, Node::A, 2);
    lemma_pause(steps, Node::A, 3);
    lemma_connect(steps, Node::A, 4);
    lemma_taken(steps, Node::A, 5);
    lemma_taken(steps, Node::A, 6);
    lemma_taken(steps, Node::A, 7);
    lemma_taken(steps, Node::A, 8);
    lemma_taken(steps, Node::A, 9);
    lemma_connect(steps, Node::A, 10);
    lemma_by_count(steps, Node::A, 11, 11);
    lemma_told(steps, Node::A, 11);
    lemma_by_listing(steps, Node::A, 12, 12);
    lemma_told(steps, Node::A, 12);
    lemma_large_taken(steps, Node::A, 13);
    lemma_pause(steps, Node::A, 14);
    lemma_by_listing(steps, Node::A, 15, 15);
    lemma_told(steps, Node::A, 15);
    assert(answer_is_sound(steps, Node::A, 16, 16)) by {
        reveal(answer_is_sound);
    }
    lemma_told(steps, Node::A, 16);
    assert(answer_is_sound(steps, Node::A, 17, 17)) by {
        reveal(answer_is_sound);
    }
    lemma_told(steps, Node::A, 17);
    lemma_disconnect(steps, Node::A, 18);
    lemma_stop(steps, Node::A, 19);
    lemma_pause(steps, Node::A, 20);
    lemma_large_taken(steps, Node::A, 21);
    lemma_pause(steps, Node::A, 22);
    lemma_by_listing(steps, Node::A, 23, 23);
    lemma_told(steps, Node::A, 23);
    assert(answer_is_sound(steps, Node::A, 24, 24)) by {
        reveal(answer_is_sound);
    }
    lemma_told(steps, Node::A, 24);
    assert(answer_is_sound(steps, Node::A, 24, 25)) by {
        reveal(answer_is_sound);
    }
    lemma_recalled(steps, Node::A, 25);
    reveal_with_fuel(sound_before, 27);
    soundness_is_step_by_step(steps, Node::A, 26);
}

/// Every step of [`crate::s3_fallback_catchup::run`] reaches what it asks and asks for what two sound nodes
/// answer.
pub proof fn s3_fallback_catchup_is_sound()
    ensures
        all_sound(crate::s3_fallback_catchup::run_steps(), Node::A),
        are_paired(crate::s3_fallback_catchup::run_steps(), 1, 2),
{
    let steps = crate::s3_fallback_catchup::run_steps();
    lemma_store(steps, Node::A, 0);
    lemma_start(steps, Node::A, 1);
    lemma_start(steps, Node::A, 2);
    lemma_pause(steps, Node::A, 3);
    lemma_connect(steps, Node::A, 4);
    lemma_taken(steps, Node::A, 5);
    lemma_taken(steps, Node::A, 6);
    lemma_taken(steps, Node::A, 7);
    lemma_connect(steps, Node::A, 8);
    lemma_by_count(steps, Node::A, 9, 9);
    lemma_told(steps, Node::A, 9);
    lemma_disconnect(steps, Node::A, 10);
    lemma_stop(steps, Node::A, 11);
    lemma_pause(steps, Node::A, 12);
    lemma_taken(steps, Node::A, 13);
    lemma_taken(steps, Node::A, 14);
    lemma_taken(steps, Node::A, 15);
    lemma_taken(steps, Node::A, 16);
    lemma_taken(steps, Node::A, 17);
    lemma_by_listing(steps, Node::A, 18, 18);
    lemma_told(steps, Node::A, 18);
    lemma_by_listing(steps, Node::A, 18, 19);
    lemma_recalled(steps, Node::A, 19);
    lemma_by_fallback(steps, Node::A, 20, 20);
    lemma_told(steps, Node::A, 20);
    lemma_by_fallback(steps, Node::A, 20, 21);
    lemma_recalled(steps, Node::A, 21);
    lemma_by_fallback(steps, Node::A, 20, 22);
    lemma_recalled(steps, Node::A, 22);
    lemma_restart(steps, Node::A, 23);
    lemma_pause(steps, Node::A, 24);
    lemma_connect(steps, Node::A, 25);
    lemma_by_count(steps, Node::A, 26, 26);
    lemma_told(steps, Node::A, 26);
    lemma_taken(steps, Node::A, 27);
    lemma_by_count(steps, Node::A, 28, 28);
    lemma_told(steps, Node::A, 28);
    lemma_by_count(steps, Node::A, 29, 29);
    lemma_told(steps, Node::A, 29);
    lemma_kept(steps, Node::A, 30, 35);
    lemma_taken(steps, Node::A, 31);
    lemma_taken(steps, Node::A, 32);
    lemma_taken(steps, Node::A, 33);
    lemma_by_count(steps, Node::A, 34, 34);
    lemma_told(steps, Node::A, 34);
    lemma_by_listing(steps, Node::A, 35, 35);
    lemma_told(steps, Node::A, 35);
    reveal_with_fuel(sound_before, 37);
    soundness_is_step_by_step(steps, Node::A, 36);
}

/// Every step of [`crate::s3_fallback_catchup_main::run`] reaches what it asks and asks for what two sound nodes
/// answer.
pub proof fn s3_fallback_catchup_main_is_sound()
    ensures
        all_sound(crate::s3_fallback_catchup_main::run_steps(), Node::A),
        are_paired(crate::s3_fallback_catchup_main::run_steps(), 1, 3),
{
    let steps = crate::s3_fallback_catchup_main::run_steps();
    lemma_store(steps, Node::A, 0);
    lemma_start(steps, Node::A, 1);
    lemma_pause(steps, Node::A, 2);
    lemma_start(steps, Node::A, 3);
    lemma_connect(steps, Node::A, 4);
    lemma_taken(steps, Node::A, 5);
    lemma_taken(steps, Node::A, 6);
    lemma_taken(steps, Node::A, 7);
    lemma_pause(steps, Node::A, 8);
    lemma_connect(steps, Node::A, 9);
    lemma_by_count(steps, Node::A, 10, 10);
    lemma_told(steps, Node::A, 10);
    lemma_disconnect(steps, Node::A, 11);
    lemma_stop(steps, Node::A, 12);
    lemma_pause(steps, Node::A, 13);
    lemma_taken(steps, Node::A, 14);
    lemma_taken(steps, Node::A, 15);
    lemma_taken(steps, Node::A, 16);
    lemma_taken(steps, Node::A, 17);
    lemma_taken(steps, Node::A, 18);
    lemma_pause(steps, Node::A, 19);
    lemma_restart(steps, Node::A, 20);
    lemma_pause(steps, Node::A, 21);
    lemma_connect(steps, Node::A, 22);
    lemma_by_count(steps, Node::A, 23, 23);
    lemma_told(steps, Node::A, 23);
    lemma_taken(steps, Node::A, 24);
    lemma_pause(steps, Node::A, 25);
    lemma_by_count(steps, Node::A, 26, 26);
    lemma_told(steps, Node::A, 26);
    lemma_by_count(steps, Node::A, 27, 27);
    lemma_told(steps, Node::A, 27);
    lemma_by_listing(steps, Node::A, 28, 28);
    lemma_told(steps, Node::A, 28);
    lemma_set_up(steps, Node::A, 29);
    lemma_taken(steps, Node::A, 30);
    lemma_taken(steps, Node::A, 31);
    lemma_taken(steps, Node::A, 32);
    lemma_pause(steps, Node::A, 33);
    lemma_by_count(steps, Node::A, 34, 34);
    lemma_told(steps, Node::A, 34);
    lemma_by_listing(steps, Node::A, 35, 35);
    lemma_told(steps, Node::A, 35);
    reveal_with_fuel(sound_before, 37);
    soundness_is_step_by_step(steps, Node::A, 36);
}

/// Every step of [`crate::s3_fallback_createonly::run`] reaches what it asks and asks for what two sound nodes
/// answer.
pub proof fn s3_fallback_createonly_is_sound()
    ensures
        all_sound(crate::s3_fallback_createonly::run_steps(), Node::A),
        are_paired(crate::s3_fallback_createonly::run_steps(), 1, 2),
{
    let steps = crate::s3_fallback_createonly::run_steps();
    lemma_store(steps, Node::A, 0);
    lemma_start(steps, Node::A, 1);
    lemma_start(steps, Node::A, 2);
    lemma_pause(steps, Node::A, 3);
    lemma_connect(steps, Node::A, 4);
    lemma_taken(steps, Node::A, 5);
    lemma_taken(steps, Node::A, 6);
    lemma_taken(steps, Node::A, 7);
    lemma_connect(steps, Node::A, 8);
    lemma_by_count(steps, Node::A, 9, 9);
    lemma_told(steps, Node::A, 9);
    lemma_set_up(steps, Node::A, 10);
    lemma_disconnect(steps, Node::A, 11);
    lemma_stop(steps, Node::A, 12);
    lemma_pause(steps, Node::A, 13);
    lemma_taken(steps, Node::A, 14);
    assert(steps[10].action is SeedObjects);
    assert(answer_is_sound(steps, Node::A, 15, 15)) by {
        reveal(answer_is_sound);
    }
    lemma_told(steps, Node::A, 15);
    reveal_with_fuel(sound_before, 17);
    soundness_is_step_by_step(steps, Node::A, 16);
}

/// Every step of [`crate::s3_fallback_createonly_main::run`] reaches what it asks and asks for what two sound nodes
/// answer.
pub proof fn s3_fallback_createonly_main_is_sound()
    ensures
        all_sound(crate::s3_fallback_createonly_main::run_steps(), Node::A),
        are_paired(crate::s3_fallback_createonly_main::run_steps(), 2, 4),
{
    let steps = crate::s3_fallback_createonly_main::run_steps();
    lemma_store(steps, Node::A, 0);
    lemma_set_up(steps, Node::A, 1);
    lemma_start(steps, Node::A, 2);
    lemma_pause(steps, Node::A, 3);
    lemma_start(steps, Node::A, 4);
    lemma_pause(steps, Node::A, 5);
    lemma_connect(steps, Node::A, 6);
    lemma_taken(steps, Node::A, 7);
    lemma_taken(steps, Node::A, 8);
    lemma_taken(steps, Node::A, 9);
    lemma_pause(steps, Node::A, 10);
    lemma_connect(steps, Node::A, 11);
    lemma_by_count(steps, Node::A, 12, 12);
    lemma_told(steps, Node::A, 12);
    lemma_disconnect(steps, Node::A, 13);
    lemma_stop(steps, Node::A, 14);
    lemma_pause(steps, Node::A, 15);
    lemma_taken(steps, Node::A, 16);
    lemma_pause(steps, Node::A, 17);
    assert(steps[1].action is SeedObjects);
    assert(answer_is_sound(steps, Node::A, 18, 18)) by {
        reveal(answer_is_sound);
    }
    lemma_told(steps, Node::A, 18);
    reveal_with_fuel(sound_before, 20);
    soundness_is_step_by_step(steps, Node::A, 19);
}

/// Every step of [`crate::s3_fallback_main::run`] reaches what it asks and asks for what two sound nodes
/// answer.
pub proof fn s3_fallback_main_is_sound()
    ensures
        all_sound(crate::s3_fallback_main::run_steps(), Node::A),
        are_paired(crate::s3_fallback_main::run_steps(), 1, 3),
{
    let steps = crate::s3_fallback_main::run_steps();
    lemma_store(steps, Node::A, 0);
    lemma_start(steps, Node::A, 1);
    lemma_pause(steps, Node::A, 2);
    lemma_start(steps, Node::A, 3);
    lemma_connect(steps, Node::A, 4);
    lemma_taken(steps, Node::A, 5);
    lemma_taken(steps, Node::A, 6);
    lemma_taken(steps, Node::A, 7);
    lemma_pause(steps, Node::A, 8);
    lemma_connect(steps, Node::A, 9);
    lemma_by_count(steps, Node::A, 10, 10);
    lemma_told(steps, Node::A, 10);
    lemma_disconnect(steps, Node::A, 11);
    lemma_stop(steps, Node::A, 12);
    lemma_pause(steps, Node::A, 13);
    lemma_taken(steps, Node::A, 14);
    lemma_taken(steps, Node::A, 15);
    lemma_taken(steps, Node::A, 16);
    lemma_pause(steps, Node::A, 17);
    lemma_by_listing(steps, Node::A, 18, 18);
    lemma_told(steps, Node::A, 18);
    lemma_by_fallback(steps, Node::A, 19, 19);
    lemma_told(steps, Node::A, 19);
    lemma_by_fallback(steps, Node::A, 19, 20);
    lemma_recalled(steps, Node::A, 20);
    lemma_by_fallback(steps, Node::A, 19, 21);
    lemma_recalled(steps, Node::A, 21);
    lemma_taken(steps, Node::A, 22);
    lemma_pause(steps, Node::A, 23);
    lemma_by_listing(steps, Node::A, 24, 24);
    lemma_told(steps, Node::A, 24);
    lemma_by_listing(steps, Node::A, 24, 25);
    lemma_recalled(steps, Node::A, 25);
    lemma_by_fallback(steps, Node::A, 26, 26);
    lemma_told(steps, Node::A, 26);
    reveal_with_fuel(sound_before, 28);
    soundness_is_step_by_step(steps, Node::A, 27);
}

/// Every step of [`crate::s3_fallback_s3_down::run`] reaches what it asks and asks for what two sound nodes
/// answer.
pub proof fn s3_fallback_s3_down_is_sound()
    ensures
        all_sound(crate::s3_fallback_s3_down::run_steps(), Node::A),
        are_paired(crate::s3_fallback_s3_down::run_steps(), 1, 2),
{
    let steps = crate::s3_fallback_s3_down::run_steps();
    lemma_store(steps, Node::A, 0);
    lemma_start(steps, Node::A, 1);
    lemma_start(steps, Node::A, 2);
    lemma_pause(steps, Node::A, 3);
    lemma_connect(steps, Node::A, 4);
    lemma_taken(steps, Node::A, 5);
    lemma_taken(steps, Node::A, 6);
    lemma_taken(steps, Node::A, 7);
    lemma_connect(steps, Node::A, 8);
    lemma_by_count(steps, Node::A, 9, 9);
    lemma_told(steps, Node::A, 9);
    lemma_store_gone(steps, Node::A, 10);
    lemma_disconnect(steps, Node::A, 11);
    lemma_stop(steps, Node::A, 12);
    lemma_pause(steps, Node::A, 13);
    lemma_refused(steps, Node::A, 14);
    reveal_with_fuel(sound_before, 16);
    soundness_is_step_by_step(steps, Node::A, 15);
}

/// Every step of [`crate::s3_fallback_s3_down_main::run`] reaches what it asks and asks for what two sound nodes
/// answer.
pub proof fn s3_fallback_s3_down_main_is_sound()
    ensures
        all_sound(crate::s3_fallback_s3_down_main::run_steps(), Node::A),
        are_paired(crate::s3_fallback_s3_down_main::run_steps(), 0, 2),
{
    let steps = crate::s3_fallback_s3_down_main::run_steps();
    lemma_start(steps, Node::A, 0);
    lemma_pause(steps, Node::A, 1);
    lemma_start(steps, Node::A, 2);
    lemma_connect(steps, Node::A, 3);
    lemma_taken(steps, Node::A, 4);
    lemma_taken(steps, Node::A, 5);
    lemma_taken(steps, Node::A, 6);
    lemma_pause(steps, Node::A, 7);
    lemma_connect(steps, Node::A, 8);
    lemma_by_count(steps, Node::A, 9, 9);
    lemma_told(steps, Node::A, 9);
    lemma_disconnect(steps, Node::A, 10);
    lemma_stop(steps, Node::A, 11);
    lemma_pause(steps, Node::A, 12);
    lemma_refused(steps, Node::A, 13);
    reveal_with_fuel(sound_before, 15);
    soundness_is_step_by_step(steps, Node::A, 14);
}

/// Every step of [`crate::s3_follower_crash::run`] reaches what it asks and asks for what two sound nodes
/// answer.
pub proof fn s3_follower_crash_is_sound()
    ensures
        all_sound(crate::s3_follower_crash::run_steps(), Node::A),
        are_paired(crate::s3_follower_crash::run_steps(), 1, 2),
{
    let steps = crate::s3_follower_crash::run_steps();
    lemma_store(steps, Node::A, 0);
    lemma_start(steps, Node::A, 1);
    lemma_start(steps, Node::A, 2);
    lemma_pause(steps, Node::A, 3);
    lemma_connect(steps, Node::A, 4);
    lemma_taken(steps, Node::A, 5);
    lemma_taken(steps, Node::A, 6);
    lemma_taken(steps, Node::A, 7);
    lemma_connect(steps, Node::A, 8);
    lemma_by_count(steps, Node::A, 9, 9);
    lemma_told(steps, Node::A, 9);
    lemma_kept(steps, Node::A, 10, 11);
    lemma_by_lease(steps, Node::A, 10, 11);
    lemma_recalled(steps, Node::A, 11);
    lemma_disconnect(steps, Node::A, 12);
    lemma_stop(steps, Node::A, 13);
    lemma_pause(steps, Node::A, 14);
    lemma_taken(steps, Node::A, 15);
    lemma_taken(steps, Node::A, 16);
    lemma_kept(steps, Node::A, 17, 18);
    lemma_by_lease(steps, Node::A, 17, 18);
    lemma_recalled(steps, Node::A, 18);
    lemma_by_lease(steps, Node::A, 17, 19);
    lemma_recalled(steps, Node::A, 19);
    lemma_by_lease(steps, Node::A, 17, 20);
    lemma_recalled(steps, Node::A, 20);
    lemma_by_listing(steps, Node::A, 21, 21);
    lemma_told(steps, Node::A, 21);
    lemma_by_fallback(steps, Node::A, 22, 22);
    lemma_told(steps, Node::A, 22);
    lemma_restart(steps, Node::A, 23);
    lemma_by_count(steps, Node::A, 24, 24);
    lemma_told(steps, Node::A, 24);
    lemma_taken(steps, Node::A, 25);
    lemma_taken(steps, Node::A, 26);
    lemma_by_count(steps, Node::A, 27, 27);
    lemma_told(steps, Node::A, 27);
    reveal_with_fuel(sound_before, 29);
    soundness_is_step_by_step(steps, Node::A, 28);
}

/// Every step of [`crate::s3_follower_crash_main::run`] reaches what it asks and asks for what two sound nodes
/// answer.
pub proof fn s3_follower_crash_main_is_sound()
    ensures
        all_sound(crate::s3_follower_crash_main::run_steps(), Node::A),
        are_paired(crate::s3_follower_crash_main::run_steps(), 1, 3),
{
    let steps = crate::s3_follower_crash_main::run_steps();
    lemma_store(steps, Node::A, 0);
    lemma_start(steps, Node::A, 1);
    lemma_pause(steps, Node::A, 2);
    lemma_start(steps, Node::A, 3);
    lemma_pause(steps, Node::A, 4);
    lemma_connect(steps, Node::A, 5);
    lemma_taken(steps, Node::A, 6);
    lemma_taken(steps, Node::A, 7);
    lemma_taken(steps, Node::A, 8);
    lemma_pause(steps, Node::A, 9);
    lemma_connect(steps, Node::A, 10);
    lemma_by_count(steps, Node::A, 11, 11);
    lemma_told(steps, Node::A, 11);
    lemma_kept(steps, Node::A, 12, 13);
    lemma_by_lease(steps, Node::A, 12, 13);
    lemma_recalled(steps, Node::A, 13);
    lemma_disconnect(steps, Node::A, 14);
    lemma_stop(steps, Node::A, 15);
    lemma_pause(steps, Node::A, 16);
    lemma_taken(steps, Node::A, 17);
    lemma_taken(steps, Node::A, 18);
    lemma_kept(steps, Node::A, 19, 20);
    lemma_by_lease(steps, Node::A, 19, 20);
    lemma_recalled(steps, Node::A, 20);
    lemma_by_lease(steps, Node::A, 19, 21);
    lemma_recalled(steps, Node::A, 21);
    lemma_restart(steps, Node::A, 22);
    lemma_pause(steps, Node::A, 23);
    lemma_connect(steps, Node::A, 24);
    lemma_taken(steps, Node::A, 25);
    lemma_taken(steps, Node::A, 26);
    lemma_pause(steps, Node::A, 27);
    lemma_by_count(steps, Node::A, 28, 28);
    lemma_told(steps, Node::A, 28);
    reveal_with_fuel(sound_before, 30);
    soundness_is_step_by_step(steps, Node::A, 29);
}

/// Every step of [`crate::s3_follower_kick::run`] reaches what it asks and asks for what two sound nodes
/// answer.
#[verifier::rlimit(100)]
pub proof fn s3_follower_kick_is_sound()
    ensures
        all_sound(crate::s3_follower_kick::run_steps(), Node::A),
        are_paired(crate::s3_follower_kick::run_steps(), 2, 3),
{
    let steps = crate::s3_follower_kick::run_steps();
    lemma_store(steps, Node::A, 0);
    lemma_set_up(steps, Node::A, 1);
    lemma_start(steps, Node::A, 2);
    lemma_start(steps, Node::A, 3);
    lemma_pause(steps, Node::A, 4);
    lemma_connect(steps, Node::A, 5);
    lemma_taken(steps, Node::A, 6);
    lemma_taken(steps, Node::A, 7);
    lemma_taken(steps, Node::A, 8);
    lemma_taken(steps, Node::A, 9);
    lemma_taken(steps, Node::A, 10);
    lemma_taken(steps, Node::A, 11);
    lemma_pause(steps, Node::A, 12);
    lemma_connect(steps, Node::A, 13);
    lemma_by_count(steps, Node::A, 14, 14);
    lemma_told(steps, Node::A, 14);
    lemma_by_count(steps, Node::A, 15, 15);
    lemma_told(steps, Node::A, 15);
    lemma_by_listing(steps, Node::A, 16, 16);
    lemma_told(steps, Node::A, 16);
    lemma_by_listing(steps, Node::A, 17, 17);
    lemma_told(steps, Node::A, 17);
    lemma_by_listing(steps, Node::A, 18, 18);
    lemma_told(steps, Node::A, 18);
    lemma_by_listing(steps, Node::A, 19, 19);
    lemma_told(steps, Node::A, 19);
    lemma_block(steps, Node::A, 20);
    lemma_taken(steps, Node::A, 21);
    lemma_taken(steps, Node::A, 22);
    lemma_taken(steps, Node::A, 23);
    lemma_taken(steps, Node::A, 24);
    lemma_taken(steps, Node::A, 25);
    lemma_taken(steps, Node::A, 26);
    lemma_taken(steps, Node::A, 27);
    lemma_taken(steps, Node::A, 28);
    lemma_taken(steps, Node::A, 29);
    lemma_taken(steps, Node::A, 30);
    lemma_taken(steps, Node::A, 31);
    lemma_taken(steps, Node::A, 32);
    lemma_taken(steps, Node::A, 33);
    lemma_taken(steps, Node::A, 34);
    lemma_taken(steps, Node::A, 35);
    lemma_taken(steps, Node::A, 36);
    lemma_taken(steps, Node::A, 37);
    lemma_taken(steps, Node::A, 38);
    lemma_taken(steps, Node::A, 39);
    lemma_taken(steps, Node::A, 40);
    lemma_pause(steps, Node::A, 41);
    lemma_kept(steps, Node::A, 42, 45);
    lemma_kept(steps, Node::A, 43, 45);
    lemma_kept(steps, Node::A, 44, 45);
    lemma_by_listing(steps, Node::A, 45, 45);
    lemma_told(steps, Node::A, 45);
    lemma_by_count(steps, Node::A, 46, 46);
    lemma_told(steps, Node::A, 46);
    lemma_by_count(steps, Node::A, 47, 47);
    lemma_told(steps, Node::A, 47);
    lemma_set_up(steps, Node::A, 48);
    lemma_pause(steps, Node::A, 49);
    lemma_taken(steps, Node::A, 50);
    lemma_taken(steps, Node::A, 51);
    lemma_kept(steps, Node::A, 52, 54);
    lemma_kept(steps, Node::A, 53, 54);
    assert(answer_is_sound(steps, Node::A, 54, 54)) by {
        reveal(answer_is_sound);
    }
    lemma_told(steps, Node::A, 54);
    lemma_pause(steps, Node::A, 55);
    lemma_kept(steps, Node::A, 56, 73);
    lemma_kept(steps, Node::A, 57, 74);
    lemma_kept(steps, Node::A, 58, 75);
    lemma_kept(steps, Node::A, 59, 76);
    lemma_connect(steps, Node::A, 60);
    lemma_kept(steps, Node::A, 61, 63);
    lemma_kept(steps, Node::A, 62, 64);
    lemma_counted_taken(steps, Node::A, 63);
    lemma_counted_taken(steps, Node::A, 64);
    lemma_counted_taken(steps, Node::A, 65);
    lemma_counted_taken(steps, Node::A, 66);
    lemma_counted_taken(steps, Node::A, 67);
    lemma_counted_taken(steps, Node::A, 68);
    lemma_pause(steps, Node::A, 69);
    lemma_connect(steps, Node::A, 70);
    lemma_by_count(steps, Node::A, 71, 71);
    lemma_told(steps, Node::A, 71);
    lemma_by_count(steps, Node::A, 72, 72);
    lemma_told(steps, Node::A, 72);
    lemma_by_listing(steps, Node::A, 73, 73);
    lemma_told(steps, Node::A, 73);
    lemma_by_listing(steps, Node::A, 74, 74);
    lemma_told(steps, Node::A, 74);
    lemma_by_listing(steps, Node::A, 75, 75);
    lemma_told(steps, Node::A, 75);
    lemma_by_listing(steps, Node::A, 76, 76);
    lemma_told(steps, Node::A, 76);
    reveal_with_fuel(sound_before, 78);
    soundness_is_step_by_step(steps, Node::A, 77);
}

/// Every step of [`crate::s3_leader_solo_main::run`] reaches what it asks and asks for what two sound nodes
/// answer.
pub proof fn s3_leader_solo_main_is_sound()
    ensures
        all_sound(crate::s3_leader_solo_main::run_steps(), Node::A),
        are_paired(crate::s3_leader_solo_main::run_steps(), 1, 11),
{
    let steps = crate::s3_leader_solo_main::run_steps();
    lemma_store(steps, Node::A, 0);
    lemma_start(steps, Node::A, 1);
    lemma_pause(steps, Node::A, 2);
    lemma_connect(steps, Node::A, 3);
    lemma_taken(steps, Node::A, 4);
    lemma_taken(steps, Node::A, 5);
    lemma_taken(steps, Node::A, 6);
    lemma_pause(steps, Node::A, 7);
    lemma_by_listing(steps, Node::A, 8, 8);
    lemma_told(steps, Node::A, 8);
    lemma_kept(steps, Node::A, 9, 10);
    lemma_by_lease(steps, Node::A, 9, 10);
    lemma_recalled(steps, Node::A, 10);
    lemma_start(steps, Node::A, 11);
    lemma_pause(steps, Node::A, 12);
    lemma_connect(steps, Node::A, 13);
    lemma_by_count(steps, Node::A, 14, 14);
    lemma_told(steps, Node::A, 14);
    lemma_kept(steps, Node::A, 15, 22);
    lemma_taken(steps, Node::A, 16);
    lemma_taken(steps, Node::A, 17);
    lemma_taken(steps, Node::A, 18);
    lemma_pause(steps, Node::A, 19);
    lemma_by_count(steps, Node::A, 20, 20);
    lemma_told(steps, Node::A, 20);
    lemma_by_count(steps, Node::A, 21, 21);
    lemma_told(steps, Node::A, 21);
    lemma_by_listing(steps, Node::A, 22, 22);
    lemma_told(steps, Node::A, 22);
    reveal_with_fuel(sound_before, 24);
    soundness_is_step_by_step(steps, Node::A, 23);
}

/// Every step of [`crate::s3_to_tcp_failback::run`] reaches what it asks and asks for what two sound nodes
/// answer.
pub proof fn s3_to_tcp_failback_is_sound()
    ensures
        all_sound(crate::s3_to_tcp_failback::run_steps(), Node::A),
        are_paired(crate::s3_to_tcp_failback::run_steps(), 1, 4),
{
    let steps = crate::s3_to_tcp_failback::run_steps();
    lemma_store(steps, Node::A, 0);
    lemma_start(steps, Node::A, 1);
    lemma_pause(steps, Node::A, 2);
    lemma_set_up(steps, Node::A, 3);
    lemma_start(steps, Node::A, 4);
    lemma_pause(steps, Node::A, 5);
    lemma_connect(steps, Node::A, 6);
    lemma_taken(steps, Node::A, 7);
    lemma_taken(steps, Node::A, 8);
    lemma_taken(steps, Node::A, 9);
    lemma_connect(steps, Node::A, 10);
    lemma_by_count(steps, Node::A, 11, 11);
    lemma_told(steps, Node::A, 11);
    lemma_disconnect(steps, Node::A, 12);
    lemma_block(steps, Node::A, 13);
    lemma_pause(steps, Node::A, 14);
    lemma_taken(steps, Node::A, 15);
    lemma_taken(steps, Node::A, 16);
    lemma_taken(steps, Node::A, 17);
    lemma_taken(steps, Node::A, 18);
    lemma_taken(steps, Node::A, 19);
    lemma_store_gone(steps, Node::A, 20);
    lemma_set_up(steps, Node::A, 21);
    lemma_by_count(steps, Node::A, 22, 22);
    lemma_told(steps, Node::A, 22);
    lemma_taken(steps, Node::A, 23);
    lemma_taken(steps, Node::A, 24);
    lemma_by_count(steps, Node::A, 25, 25);
    lemma_told(steps, Node::A, 25);
    reveal_with_fuel(sound_before, 27);
    soundness_is_step_by_step(steps, Node::A, 26);
}

/// Every step of [`crate::replication_catchup_main::run`] reaches what it asks and asks for what two sound nodes
/// answer.
pub proof fn replication_catchup_main_is_sound()
    ensures
        all_sound(crate::replication_catchup_main::run_steps(), Node::A),
        are_paired(crate::replication_catchup_main::run_steps(), 1, 3),
{
    let steps = crate::replication_catchup_main::run_steps();
    lemma_store(steps, Node::A, 0);
    lemma_start(steps, Node::A, 1);
    lemma_pause(steps, Node::A, 2);
    lemma_start(steps, Node::A, 3);
    lemma_pause(steps, Node::A, 4);
    lemma_connect(steps, Node::A, 5);
    lemma_taken(steps, Node::A, 6);
    lemma_taken(steps, Node::A, 7);
    lemma_taken(steps, Node::A, 8);
    lemma_pause(steps, Node::A, 9);
    lemma_connect(steps, Node::A, 10);
    lemma_by_count(steps, Node::A, 11, 11);
    lemma_told(steps, Node::A, 11);
    lemma_disconnect(steps, Node::A, 12);
    lemma_stop(steps, Node::A, 13);
    lemma_pause(steps, Node::A, 14);
    lemma_taken(steps, Node::A, 15);
    lemma_taken(steps, Node::A, 16);
    lemma_taken(steps, Node::A, 17);
    lemma_restart(steps, Node::A, 18);
    lemma_pause(steps, Node::A, 19);
    lemma_connect(steps, Node::A, 20);
    lemma_by_count(steps, Node::A, 21, 21);
    lemma_told(steps, Node::A, 21);
    lemma_taken(steps, Node::A, 22);
    lemma_pause(steps, Node::A, 23);
    lemma_by_count(steps, Node::A, 24, 24);
    lemma_told(steps, Node::A, 24);
    lemma_by_count(steps, Node::A, 25, 25);
    lemma_told(steps, Node::A, 25);
    reveal_with_fuel(sound_before, 27);
    soundness_is_step_by_step(steps, Node::A, 26);
}

} // verus!
