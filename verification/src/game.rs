//! The game itself: a snake, a piece of food and the hue of the moment.
//!
//! The game does not choose where the snake goes. Each tick it is handed the
//! cell that was chosen for the new head, or the news that no cell could be
//! chosen, and it either moves the snake there or declares the episode over.

use vstd::prelude::*;
use crate::cell::Cell;
use crate::chance::random_u16;
use crate::hue::{advance_hue, complementary_hue, first_hue, food_hue, initial_hue, next_hue, HUE_RANGE};

verus! {

/// What one tick changed, as far as the display has to know.
#[derive(Clone, Copy, Debug, PartialEq, Eq, Structural)]
pub struct Transition {
    /// The cell that the tail left, unless the snake grew.
    pub cleared: Option<Cell>,
    /// The cell that the head moved to.
    pub head: Cell,
    /// The hue in which the new head is painted.
    pub head_hue: u16,
    /// Where the food lies after the tick.
    pub food: Cell,
    /// The hue in which the food is painted.
    pub food_hue: u16,
    /// Whether the head reached the food on this tick.
    pub ate_food: bool,
}

impl Transition {
    /// Whether the record tells the display how `game` looks after the
    /// move: where its head and its food are, in the hue of the game and in
    /// the hue opposite to it.
    pub open spec fn shows(self, game: GameModel) -> bool {
        &&& game.snake.len() > 0 && self.head == game.snake[0]
        &&& self.food == game.food
        &&& self.head_hue == game.hue
        &&& self.food_hue == food_hue(game.hue)
    }
}

/// The game as a mathematical value.
pub ghost struct GameModel {
    pub width: u8,
    pub height: u8,
    /// The cells of the snake, head first.
    pub snake: Seq<Cell>,
    pub food: Cell,
    pub hue: int,
}

impl GameModel {
    /// What holds of every game: the snake has a head and at least one more
    /// cell, it never lies on one cell twice, the food is on the grid and the
    /// hue is on the wheel.
    ///
    /// The food may lie under the snake: it is placed by chance and is not
    /// moved when it lands on an occupied cell.
    pub open spec fn wf(self) -> bool {
        &&& self.snake.len() >= 2
        &&& self.snake.no_duplicates()
        &&& self.food.in_grid(self.width, self.height)
        &&& 0 <= self.hue < HUE_RANGE
    }

    /// The head of a fresh snake: the centre of the grid.
    pub open spec fn first_head(width: u8, height: u8) -> Cell {
        Cell { x: width / 2, y: height / 2 }
    }

    /// The second cell of a fresh snake: beside the head, on the side that
    /// faces away from the food.
    pub open spec fn first_tail(width: u8, height: u8, food: Cell) -> Cell {
        let head = Self::first_head(width, height);
        Cell { x: if head.x < food.x { (head.x - 1) as u8 } else { (head.x + 1) as u8 }, y: head.y }
    }

    /// The game at the start of an episode, given where the food fell and the
    /// number that was drawn for the hue.
    pub open spec fn initial(width: u8, height: u8, food: Cell, raw_hue: u16) -> GameModel {
        GameModel {
            width,
            height,
            snake: seq![Self::first_head(width, height), Self::first_tail(width, height, food)],
            food,
            hue: first_hue(raw_hue as int),
        }
    }

    /// Whether the episode ends on this answer: no cell could be chosen, or
    /// the chosen cell is one that the snake lies on.
    pub open spec fn halts(self, candidate: Option<Cell>) -> bool {
        match candidate {
            None => true,
            Some(head) => self.snake.contains(head),
        }
    }

    /// Whether the snake reaches the food on this answer.
    pub open spec fn eats(self, candidate: Option<Cell>) -> bool {
        !self.halts(candidate) && candidate == Some(self.food)
    }

    /// The game after the head has moved to `head`. `fresh_food` is where the
    /// food is put if the snake has just eaten it.
    pub open spec fn after(self, head: Cell, fresh_food: Cell) -> GameModel {
        let ate_food = head == self.food;
        GameModel {
            width: self.width,
            height: self.height,
            snake: seq![head] + (if ate_food { self.snake } else { self.snake.drop_last() }),
            food: if ate_food { fresh_food } else { self.food },
            hue: next_hue(self.hue),
        }
    }

    /// What the display has to be told about the move to `head`.
    pub open spec fn transition(self, head: Cell, fresh_food: Cell) -> Transition {
        let ate_food = head == self.food;
        Transition {
            cleared: if ate_food { None } else { Some(self.snake.last()) },
            head,
            head_hue: next_hue(self.hue) as u16,
            food: if ate_food { fresh_food } else { self.food },
            food_hue: food_hue(next_hue(self.hue)) as u16,
            ate_food,
        }
    }
}

/// An episode starts as a game in which everything is in order, and the
/// snake lies in the row through the centre of the grid.
pub proof fn lemma_initial_game(width: u8, height: u8, food: Cell, raw_hue: u16)
    requires
        food.in_grid(width, height),
    ensures
        GameModel::initial(width, height, food, raw_hue).wf(),
        GameModel::initial(width, height, food, raw_hue).snake.len() == 2,
        GameModel::initial(width, height, food, raw_hue).snake[0].in_grid(width, height),
        width >= 3 ==> GameModel::initial(width, height, food, raw_hue).snake[1].in_grid(width, height),
{
}

/// A move keeps the game in order, and tells the display the truth:
/// the head goes to a cell that the snake did not lie on; the snake grows
/// by one cell if it ate and keeps its length if not; a cell is cleared
/// exactly when nothing was eaten, and it is the cell that the tail left;
/// the food is painted in the hue opposite to the hue of the head.
pub proof fn lemma_move(game: GameModel, head: Cell, fresh_food: Cell)
    requires
        game.wf(),
        !game.halts(Some(head)),
        game.eats(Some(head)) ==> fresh_food.in_grid(game.width, game.height),
    ensures
        game.after(head, fresh_food).wf(),
        game.after(head, fresh_food).snake[0] == head,
        !game.snake.contains(head),
        game.after(head, fresh_food).snake.len() == game.snake.len() + (if game.eats(Some(head)) {
            1int
        } else {
            0int
        }),
        game.transition(head, fresh_food).ate_food == game.eats(Some(head)),
        game.transition(head, fresh_food).cleared is None <==> game.transition(head, fresh_food).ate_food,
        game.transition(head, fresh_food).cleared matches Some(cell) ==> cell == game.snake.last()
            && !game.after(head, fresh_food).snake.contains(cell),
        game.transition(head, fresh_food).shows(game.after(head, fresh_food)),
        game.transition(head, fresh_food).food_hue == food_hue(
            game.transition(head, fresh_food).head_hue as int,
        ),
{
    let moved = game.after(head, fresh_food);
    if head != game.food {
        assert forall|i: int| 0 <= i < moved.snake.len() implies moved.snake[i] != game.snake.last() by {
            if i > 0 {
                assert(moved.snake[i] == game.snake[i - 1]);
            }
        }
    }
}

/// A running episode.
pub struct GameState {
    width: u8,
    height: u8,
    snake: Vec<Cell>,
    food: Cell,
    hue: u16,
}

impl View for GameState {
    type V = GameModel;

    closed spec fn view(&self) -> GameModel {
        GameModel {
            width: self.width,
            height: self.height,
            snake: self.snake@,
            food: self.food,
            hue: self.hue as int,
        }
    }
}

/// Tells whether `cell` is one of `cells`.
pub fn occupies(cells: &Vec<Cell>, cell: Cell) -> (found: bool)
    ensures
        found == cells@.contains(cell),
{
    let mut i: usize = 0;
    while i < cells.len()
        invariant
            i <= cells.len(),
            forall|j: int| 0 <= j < i ==> cells@[j] != cell,
        decreases cells.len() - i,
    {
        if cells[i] == cell {
            return true;
        }
        i += 1;
    }
    false
}

impl GameState {
    /// Sets up an episode on a grid of `width` by `height` cells, with the
    /// food at `food` and the hue folded from `raw_hue`.
    pub fn new(width: u8, height: u8, food: Cell, raw_hue: u16) -> (game: GameState)
        requires
            food.in_grid(width, height),
        ensures
            game@ == GameModel::initial(width, height, food, raw_hue),
            game@.wf(),
    {
        let head = Cell { x: width / 2, y: height / 2 };
        let x: u8 = if head.x < food.x {
            head.x - 1
        } else {
            head.x + 1
        };
        let tail = Cell { x, y: head.y };
        let mut snake: Vec<Cell> = Vec::new();
        snake.push(head);
        snake.push(tail);
        assert(snake@ =~= seq![head, tail]);
        GameState { width, height, snake, food, hue: initial_hue(raw_hue) }
    }

    /// Sets up an episode like [`GameState::new`], with a hue drawn at random.
    pub fn start(width: u8, height: u8, food: Cell) -> (game: GameState)
        requires
            food.in_grid(width, height),
        ensures
            exists|raw_hue: u16| game@ == #[trigger] GameModel::initial(width, height, food, raw_hue),
            game@.wf(),
    {
        let raw_hue: u16 = random_u16();
        GameState::new(width, height, food, raw_hue)
    }

    pub fn width(&self) -> (width: u8)
        ensures
            width == self@.width,
    {
        self.width
    }

    pub fn height(&self) -> (height: u8)
        ensures
            height == self@.height,
    {
        self.height
    }

    /// The cells of the snake, head first.
    pub fn snake(&self) -> (snake: &Vec<Cell>)
        ensures
            snake@ == self@.snake,
    {
        &self.snake
    }

    pub fn food(&self) -> (food: Cell)
        ensures
            food == self@.food,
    {
        self.food
    }

    /// The hue in which the head was last painted.
    pub fn hue(&self) -> (hue: u16)
        ensures
            hue == self@.hue,
    {
        self.hue
    }

    /// Tells whether moving the head to `candidate` would reach the food, so
    /// that a new place for the food is needed before the move is made.
    pub fn eats(&self, candidate: Option<Cell>) -> (eating: bool)
        ensures
            eating == self@.eats(candidate),
    {
        match candidate {
            None => false,
            Some(head) => head == self.food && !occupies(&self.snake, head),
        }
    }

    /// Plays one tick.
    ///
    /// `candidate` is the cell chosen for the new head, or `None` if no cell
    /// could be chosen. The episode is over, and nothing changes, if there is
    /// no candidate or if the snake already lies on it. Otherwise the head
    /// moves there: the snake grows by one cell if that is where the food
    /// lay, and leaves its last cell if not; the hue moves on; the food, if
    /// eaten, reappears at `fresh_food`.
    pub fn step(&mut self, candidate: Option<Cell>, fresh_food: Cell) -> (outcome: Option<Transition>)
        requires
            old(self)@.wf(),
            old(self)@.eats(candidate) ==> fresh_food.in_grid(old(self)@.width, old(self)@.height),
        ensures
            old(self)@.halts(candidate) ==> outcome is None && final(self)@ == old(self)@,
            !old(self)@.halts(candidate) ==> outcome == Some(
                old(self)@.transition(candidate.unwrap(), fresh_food),
            ) && final(self)@ == old(self)@.after(candidate.unwrap(), fresh_food),
            outcome matches Some(t) ==> (t.cleared is None <==> t.ate_food),
            outcome matches Some(t) ==> !old(self)@.snake.contains(t.head),
            outcome matches Some(t) ==> t.food_hue == food_hue(t.head_hue as int),
            outcome matches Some(t) ==> t.shows(final(self)@),
            final(self)@.wf(),
    {
        let head = match candidate {
            None => {
                return None;
            },
            Some(head) => head,
        };
        if occupies(&self.snake, head) {
            return None;
        }
        let ghost before = self@;
        let ate_food = head == self.food;
        self.snake.insert(0, head);
        assert(self.snake@ =~= seq![head] + before.snake);
        let cleared = if ate_food {
            self.food = fresh_food;
            None
        } else {
            let tail = self.snake.pop();
            assert(self.snake@ =~= seq![head] + before.snake.drop_last());
            tail
        };
        self.hue = advance_hue(self.hue);
        Some(
            Transition {
                cleared,
                head,
                head_hue: self.hue,
                food: self.food,
                food_hue: complementary_hue(self.hue),
                ate_food,
            },
        )
    }
}

} // verus!
