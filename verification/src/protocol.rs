//! What the driver asks of the outside world, and what it is told in return.
//!
//! The driver never acts by itself. It hands out one [`Action`] at a time;
//! whoever runs it performs the action and reports back with an [`Event`].

use vstd::prelude::*;
use crate::cell::Cell;
use crate::pixel::{Pixel, Rgb};

verus! {

/// Why a session on the display ended.
#[derive(Clone, Copy, Debug, PartialEq, Eq, Structural)]
pub enum Fault {
    /// An action failed. The actions that can fail are those on the link
    /// to the display: opening it, sending on it and flushing it.
    Link,
    /// The report does not answer the action that was handed out.
    Unexpected,
    /// A cell offered for the food does not lie on the grid.
    FoodOffGrid,
}

/// One thing for the outside world to do.
#[derive(Clone, Copy, Debug, PartialEq, Eq, Structural)]
pub enum Action {
    /// Open the link to the display. Answered by [`Event::Done`].
    Connect,
    /// Pick a cell of the grid at random. Answered by [`Event::Food`].
    PlaceFood,
    /// Choose the cell that the head of the snake moves to, given the grid,
    /// the snake and the food. Answered by [`Event::Move`].
    ChooseMove,
    /// Turn a hue into a colour. Answered by [`Event::Color`].
    MapHue(u16),
    /// Queue a pixel on the link. Answered by [`Event::Done`].
    Send(Pixel),
    /// Push everything queued out to the display. Answered by [`Event::Done`].
    Flush,
    /// Let this many milliseconds pass. Answered by [`Event::Done`].
    Wait(u64),
    /// Give up the link, report the fault and let this many milliseconds
    /// pass before the next attempt. Answered by [`Event::Done`].
    Backoff { millis: u64, fault: Fault },
}

impl Action {
    /// Whether the action is one of the three that make up the traffic on
    /// an open link: a pixel, a flush or a pause.
    pub open spec fn on_link(self) -> bool {
        self is Send || self is Flush || self is Wait
    }

    /// Whether the action is one that a session on an open link may ask
    /// for: traffic on the link, or a question about the game.
    pub open spec fn in_session(self) -> bool {
        self.on_link() || self is PlaceFood || self is ChooseMove || self is MapHue
    }
}

/// Whether every action of `script` is traffic on the link.
pub open spec fn all_on_link(script: Seq<Action>) -> bool {
    forall|i: int| 0 <= i < script.len() ==> (#[trigger] script[i]).on_link()
}

/// What came of the last action.
#[derive(Clone, Copy, Debug, PartialEq, Eq, Structural)]
pub enum Event {
    /// The action was carried out.
    Done,
    /// The action failed.
    Failed,
    /// The cell that was picked for the food.
    Food(Cell),
    /// The cell that was chosen for the head, or `None` if there is no cell
    /// for it to go to.
    Move(Option<Cell>),
    /// The colour that the hue maps to.
    Color(Rgb),
}

} // verus!
