//! Difficulty scaling: survival time to speed multiplier.

use vstd::prelude::*;
use crate::resources::{
    multiplier_at, GameSpeed, BASE_MULTIPLIER, MAX_MULTIPLIER_BONUS, MICROS_PER_MULTIPLIER_STEP,
};

verus! {

/// Elapsed time after a tick of `delta` microseconds; it stops at the
/// largest representable time.
pub open spec fn elapsed_after(elapsed: u64, delta: u64) -> u64 {
    if elapsed + delta <= u64::MAX {
        (elapsed + delta) as u64
    } else {
        u64::MAX
    }
}

/// Adds the frame's `delta` to the survival time and recomputes the
/// multiplier from the new time.
pub fn update_game_speed(game_speed: &mut GameSpeed, delta: u64)
    ensures
        final(game_speed).time_elapsed == elapsed_after(old(game_speed).time_elapsed, delta),
        final(game_speed).multiplier == multiplier_at(final(game_speed).time_elapsed as nat),
        final(game_speed).wf(),
        final(game_speed).time_elapsed >= old(game_speed).time_elapsed,
        old(game_speed).wf() ==> final(game_speed).multiplier >= old(game_speed).multiplier,
{
    proof {
        lemma_multiplier_monotone(
            game_speed.time_elapsed as nat,
            elapsed_after(game_speed.time_elapsed, delta) as nat,
        );
    }
    game_speed.time_elapsed = game_speed.time_elapsed.saturating_add(delta);
    let steps: u64 = game_speed.time_elapsed / MICROS_PER_MULTIPLIER_STEP;
    let bonus: u32 = if steps <= MAX_MULTIPLIER_BONUS as u64 {
        steps as u32
    } else {
        MAX_MULTIPLIER_BONUS
    };
    game_speed.multiplier = BASE_MULTIPLIER + bonus;
}

/// The multiplier is never below 1.0x nor above 4.0x.
pub proof fn lemma_multiplier_bounds(elapsed: nat)
    ensures
        1000 <= multiplier_at(elapsed) <= 4000,
{
}

/// The multiplier is one plus a thirtieth of the seconds survived, up to
/// three: with the time in microseconds and the multiplier in thousandths,
/// `1000 + min(elapsed / 30_000, 3000)`.
pub proof fn lemma_multiplier_formula(elapsed: nat)
    ensures
        multiplier_at(elapsed) == 1000 + vstd::math::min((elapsed / 30_000) as int, 3000),
{
}

/// The multiplier never falls as time passes.
pub proof fn lemma_multiplier_monotone(earlier: nat, later: nat)
    requires
        earlier <= later,
    ensures
        multiplier_at(earlier) <= multiplier_at(later),
{
}

/// From ninety seconds on the multiplier stays at its cap.
pub proof fn lemma_multiplier_capped(elapsed: nat)
    requires
        elapsed >= 90_000_000,
    ensures
        multiplier_at(elapsed) == 4000,
{
}

} // verus!
