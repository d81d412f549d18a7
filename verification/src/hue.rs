//! The colour wheel that the snake walks around while it moves.
//!
//! A hue is an angle in whole degrees, `0 <= hue < 360`. The head of the
//! snake is painted in the current hue, which moves on by a fixed step with
//! every tick; the food is painted in the hue opposite to it.

use vstd::prelude::*;

verus! {

/// Number of hues on the wheel.
pub const HUE_RANGE: u16 = 360;

/// How far the hue moves with each tick.
pub const HUE_STEP: u16 = 5;

/// Distance on the wheel between the hue of the head and the hue of the food.
pub const FOOD_HUE_OFFSET: u16 = 180;

/// Number of ticks after which the hue is back where it was.
pub const HUE_PERIOD: u16 = 72;

/// The hue that follows `hue` one tick later.
pub open spec fn next_hue(hue: int) -> int {
    (hue + HUE_STEP) % (HUE_RANGE as int)
}

/// The hue of the food while the head is painted in `hue`.
pub open spec fn food_hue(hue: int) -> int {
    (hue + FOOD_HUE_OFFSET) % (HUE_RANGE as int)
}

/// The hue that an episode starts with, given a number drawn at random.
pub open spec fn first_hue(raw: int) -> int {
    raw % (HUE_RANGE as int)
}

/// The hue reached from `hue` after `ticks` ticks.
pub open spec fn hue_after(hue: int, ticks: nat) -> int
    decreases ticks,
{
    if ticks == 0 {
        hue
    } else {
        next_hue(hue_after(hue, (ticks - 1) as nat))
    }
}

/// Folds a random number onto the wheel.
pub fn initial_hue(raw: u16) -> (hue: u16)
    ensures
        hue == first_hue(raw as int),
        hue < HUE_RANGE,
{
    raw % HUE_RANGE
}

/// Moves a hue on by one tick.
pub fn advance_hue(hue: u16) -> (next: u16)
    requires
        hue < HUE_RANGE,
    ensures
        next == next_hue(hue as int),
        next < HUE_RANGE,
{
    (hue + HUE_STEP) % HUE_RANGE
}

/// Gives the hue opposite to `hue` on the wheel.
pub fn complementary_hue(hue: u16) -> (opposite: u16)
    requires
        hue < HUE_RANGE,
    ensures
        opposite == food_hue(hue as int),
        opposite < HUE_RANGE,
{
    (hue + FOOD_HUE_OFFSET) % HUE_RANGE
}

/// After `ticks` ticks a hue has moved by five degrees per tick, counted
/// around the wheel.
pub proof fn lemma_hue_after_closed_form(hue: int, ticks: nat)
    requires
        0 <= hue < HUE_RANGE,
    ensures
        hue_after(hue, ticks) == (hue + HUE_STEP * ticks) % (HUE_RANGE as int),
        0 <= hue_after(hue, ticks) < HUE_RANGE,
    decreases ticks,
{
    if ticks > 0 {
        lemma_hue_after_closed_form(hue, (ticks - 1) as nat);
    }
}

/// The sequence of hues repeats every 72 ticks: whatever hue an episode has
/// reached, 72 ticks later it has the same hue again.
pub proof fn lemma_hue_is_periodic(hue: int, ticks: nat)
    requires
        0 <= hue < HUE_RANGE,
    ensures
        hue_after(hue, ticks + HUE_PERIOD as nat) == hue_after(hue, ticks),
{
    lemma_hue_after_closed_form(hue, ticks);
    lemma_hue_after_closed_form(hue, ticks + HUE_PERIOD as nat);
}

/// No shorter run of ticks brings a hue back: 72 is the period, not a
/// multiple of it.
pub proof fn lemma_hue_period_is_least(hue: int, ticks: nat)
    requires
        0 <= hue < HUE_RANGE,
        0 < ticks < HUE_PERIOD,
    ensures
        hue_after(hue, ticks) != hue,
{
    lemma_hue_after_closed_form(hue, ticks);
}

/// The food's hue is the head's hue turned by half the wheel, and turning
/// twice gives the head's hue back.
pub proof fn lemma_food_hue_is_opposite(hue: int)
    requires
        0 <= hue < HUE_RANGE,
    ensures
        0 <= food_hue(hue) < HUE_RANGE,
        food_hue(hue) != hue,
        food_hue(food_hue(hue)) == hue,
{
}

} // verus!
