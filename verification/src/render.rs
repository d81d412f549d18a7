//! From what happened in the game to what changes on the display.

use vstd::prelude::*;
use crate::cell::Cell;
use crate::game::Transition;
use crate::pixel::{Pixel, Rgb};

verus! {

/// The pixels that bring the display up to date after one tick, in the
/// order in which they are sent: the cell that the tail left is switched
/// off, if the tail moved; the new head is painted; the food is painted,
/// whether it moved or not.
pub open spec fn frame(step: Transition, head_color: Rgb, food_color: Rgb) -> Seq<Pixel> {
    let cleared = match step.cleared {
        Some(cell) => seq![Pixel::dark(cell)],
        None => Seq::empty(),
    };
    cleared + seq![Pixel::lit(step.head, head_color), Pixel::lit(step.food, food_color)]
}

/// The pixels that wipe a snake off the display, from head to tail.
pub open spec fn wipe(snake: Seq<Cell>) -> Seq<Pixel> {
    Seq::new(snake.len(), |i: int| Pixel::dark(snake[i]))
}

/// Lists the pixels that one tick changes. `head_color` and `food_color`
/// are the colours of the two hues of the tick.
pub fn render(step: &Transition, head_color: Rgb, food_color: Rgb) -> (pixels: Vec<Pixel>)
    ensures
        pixels@ == frame(*step, head_color, food_color),
{
    let mut pixels: Vec<Pixel> = Vec::new();
    match step.cleared {
        Some(cell) => {
            pixels.push(Pixel::new_black(cell.x, cell.y));
        },
        None => {},
    }
    pixels.push(Pixel::new_lit(step.head, head_color));
    pixels.push(Pixel::new_lit(step.food, food_color));
    pixels
}

/// Lists the pixels that wipe `snake` off the display, from head to tail.
pub fn render_wipe(snake: &Vec<Cell>) -> (pixels: Vec<Pixel>)
    ensures
        pixels@ == wipe(snake@),
{
    let mut pixels: Vec<Pixel> = Vec::new();
    let mut i: usize = 0;
    while i < snake.len()
        invariant
            i <= snake.len(),
            pixels@ == wipe(snake@.take(i as int)),
        decreases snake.len() - i,
    {
        let cell = snake[i];
        pixels.push(Pixel::new_black(cell.x, cell.y));
        i += 1;
    }
    pixels
}

/// A tick changes two pixels if the snake grew and three if it moved on,
/// and the last two are always the head and the food.
pub proof fn lemma_frame_shape(step: Transition, head_color: Rgb, food_color: Rgb)
    ensures
        frame(step, head_color, food_color).len() == (if step.cleared is Some { 3nat } else { 2nat }),
        step.cleared matches Some(cell) ==> frame(step, head_color, food_color)[0] == Pixel::dark(cell),
        frame(step, head_color, food_color).drop_last().last() == Pixel::lit(step.head, head_color),
        frame(step, head_color, food_color).last() == Pixel::lit(step.food, food_color),
{
}

} // verus!
