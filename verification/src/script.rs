//! The order in which pixels, flushes and pauses go out on the link.

use vstd::prelude::*;
use crate::cell::Cell;
use crate::pixel::Pixel;
use crate::protocol::{all_on_link, Action};
use crate::render::wipe;

verus! {

/// What goes out for one tick: every pixel of the frame, then one flush,
/// then the pause before the next tick.
pub open spec fn tick_script(pixels: Seq<Pixel>, pause: u64) -> Seq<Action> {
    pixels.map_values(|pixel: Pixel| Action::Send(pixel)) + seq![Action::Flush, Action::Wait(pause)]
}

/// What goes out while a dead snake fades: for one pixel after the other,
/// the pixel, a flush and a pause.
pub open spec fn fade_script(pixels: Seq<Pixel>, pause: u64) -> Seq<Action> {
    Seq::new(
        3 * pixels.len(),
        |i: int|
            if i % 3 == 0 {
                Action::Send(pixels[i / 3])
            } else if i % 3 == 1 {
                Action::Flush
            } else {
                Action::Wait(pause)
            },
    )
}

/// Lines up the actions of one tick.
pub fn plan_tick(pixels: &Vec<Pixel>, pause: u64) -> (script: Vec<Action>)
    ensures
        script@ == tick_script(pixels@, pause),
{
    let mut script: Vec<Action> = Vec::new();
    let mut i: usize = 0;
    while i < pixels.len()
        invariant
            i <= pixels.len(),
            script@ == pixels@.take(i as int).map_values(|pixel: Pixel| Action::Send(pixel)),
        decreases pixels.len() - i,
    {
        script.push(Action::Send(pixels[i]));
        i += 1;
    }
    script.push(Action::Flush);
    script.push(Action::Wait(pause));
    script
}

/// Lines up the actions of a fade.
pub fn plan_fade(pixels: &Vec<Pixel>, pause: u64) -> (script: Vec<Action>)
    ensures
        script@ == fade_script(pixels@, pause),
{
    let mut script: Vec<Action> = Vec::new();
    let mut i: usize = 0;
    while i < pixels.len()
        invariant
            i <= pixels.len(),
            script@ == fade_script(pixels@.take(i as int), pause),
        decreases pixels.len() - i,
    {
        script.push(Action::Send(pixels[i]));
        script.push(Action::Flush);
        script.push(Action::Wait(pause));
        i += 1;
    }
    script
}

/// Neither script holds anything but pixels, flushes and pauses.
pub proof fn lemma_scripts_stay_on_link(pixels: Seq<Pixel>, pause: u64)
    ensures
        all_on_link(tick_script(pixels, pause)),
        all_on_link(fade_script(pixels, pause)),
{
}

/// A tick sends its pixels in the order of the frame and nothing else, and
/// ends with exactly one flush and one pause.
pub proof fn lemma_tick_script_shape(pixels: Seq<Pixel>, pause: u64)
    ensures
        tick_script(pixels, pause).len() == pixels.len() + 2,
        forall|i: int| 0 <= i < pixels.len() ==> tick_script(pixels, pause)[i] == Action::Send(pixels[i]),
        tick_script(pixels, pause)[pixels.len() as int] == Action::Flush,
        tick_script(pixels, pause)[pixels.len() as int + 1] == Action::Wait(pause),
{
}

/// The fade of a snake switches off each of its cells once, from head to
/// tail, and every pixel is followed at once by a flush and then a pause:
/// a snake of `n` cells fades in `n` pixels, `n` flushes and `n` pauses.
pub proof fn lemma_fade_script_shape(snake: Seq<Cell>, pause: u64)
    ensures
        fade_script(wipe(snake), pause).len() == 3 * snake.len(),
        forall|i: int|
            0 <= i < snake.len() ==> {
                &&& #[trigger] fade_script(wipe(snake), pause)[3 * i] == Action::Send(Pixel::dark(snake[i]))
                &&& fade_script(wipe(snake), pause)[3 * i + 1] == Action::Flush
                &&& fade_script(wipe(snake), pause)[3 * i + 2] == Action::Wait(pause)
            },
        forall|j: int|
            0 <= j < 3 * snake.len() ==> (#[trigger] fade_script(wipe(snake), pause)[j] is Send <==> j % 3 == 0),
{
}

} // verus!
