//! One session on an open link: episode after episode, until the link fails.
//!
//! A session is a state machine. It is handed the report on the action it
//! gave out last and answers with the action to perform next. Within an
//! episode it asks for a move, and for a place for the food when the snake
//! eats; it has the two hues of the tick turned into colours; then it sends
//! the frame, flushes and pauses. When the episode is over it fades the
//! snake out cell by cell and starts the next episode on the same link.
//!
//! A failed action ends the session at once: what was queued on the link
//! is not flushed first.

use vstd::prelude::*;
use crate::cell::Cell;
use crate::chance::random_u16;
use crate::game::{lemma_initial_game, lemma_move, GameModel, GameState, Transition};
use crate::hue::HUE_RANGE;
use crate::pixel::Rgb;
use crate::protocol::{all_on_link, Action, Event, Fault};
use crate::render::{frame, render, render_wipe, wipe};
use crate::script::{fade_script, lemma_scripts_stay_on_link, plan_fade, plan_tick, tick_script};

verus! {

/// Where a session stands, as a mathematical value. Each phase but the
/// last two waits for the answer to one question.
pub ghost enum Phase {
    /// A new episode needs a place for its food.
    Seeding,
    /// The game waits for the next move.
    Choosing { game: GameModel },
    /// The head is about to move onto the food; the food needs a new place.
    Feeding { game: GameModel },
    /// The move is made; the hue of the head is being turned into a colour.
    TintingHead { game: GameModel, step: Transition },
    /// The hue of the food is being turned into a colour.
    TintingFood { game: GameModel, step: Transition, head_color: Rgb },
    /// The tick is going out on the link; `pending` is what is still to be
    /// handed out.
    Showing { game: GameModel, pending: Seq<Action> },
    /// The episode is over and the snake fades; `pending` is what is still
    /// to be handed out.
    Fading { pending: Seq<Action> },
}

impl Phase {
    /// The game of the running episode, while there is one.
    pub open spec fn game(self) -> Option<GameModel> {
        match self {
            Phase::Seeding => None,
            Phase::Choosing { game } => Some(game),
            Phase::Feeding { game } => Some(game),
            Phase::TintingHead { game, .. } => Some(game),
            Phase::TintingFood { game, .. } => Some(game),
            Phase::Showing { game, .. } => Some(game),
            Phase::Fading { .. } => None,
        }
    }

    /// What is still to be handed out of the tick or the fade that is on
    /// its way; nothing in the other phases.
    pub open spec fn pending(self) -> Seq<Action> {
        match self {
            Phase::Showing { pending, .. } => pending,
            Phase::Fading { pending } => pending,
            _ => Seq::empty(),
        }
    }

    /// The same phase with `pending` still to be handed out.
    pub open spec fn with_pending(self, pending: Seq<Action>) -> Phase {
        match self {
            Phase::Showing { game, .. } => Phase::Showing { game, pending },
            Phase::Fading { .. } => Phase::Fading { pending },
            _ => self,
        }
    }
}

/// A session as a mathematical value.
pub ghost struct SessionModel {
    pub width: u8,
    pub height: u8,
    /// The pause after each tick, in milliseconds.
    pub tick_millis: u64,
    /// The pause after each cell of a fading snake, in milliseconds.
    pub fade_millis: u64,
    pub phase: Phase,
}

impl SessionModel {
    /// What holds of every session: its game is a well-formed game on the
    /// grid of the session, a snake that waits for new food is one that
    /// eats, a move that waits for its colours is the one that led to the
    /// game, and what is pending is traffic on the link.
    pub open spec fn wf(self) -> bool {
        &&& self.phase.game() matches Some(game) ==> game.wf() && game.width == self.width && game.height
            == self.height
        &&& self.phase matches Phase::Feeding { game } ==> game.eats(Some(game.food))
        &&& self.phase matches Phase::TintingHead { game, step } ==> step.shows(game)
        &&& self.phase matches Phase::TintingFood { game, step, .. } ==> step.shows(game)
        &&& all_on_link(self.phase.pending())
    }

    /// The same session in another phase.
    pub open spec fn at(self, phase: Phase) -> SessionModel {
        SessionModel { phase, ..self }
    }

    /// A session that has just been given its link.
    pub open spec fn opened(width: u8, height: u8, tick_millis: u64, fade_millis: u64) -> SessionModel {
        SessionModel { width, height, tick_millis, fade_millis, phase: Phase::Seeding }
    }

    /// What follows once it is known where the head is to go and where the
    /// food would reappear: the fade if the episode is over, else the move
    /// and the question for the colour of the head.
    pub open spec fn play(self, game: GameModel, candidate: Option<Cell>, fresh_food: Cell) -> (
        SessionModel,
        Action,
    ) {
        if game.halts(candidate) {
            let script = fade_script(wipe(game.snake), self.fade_millis);
            (self.at(Phase::Fading { pending: script.skip(1) }), script[0])
        } else {
            let step = game.transition(candidate.unwrap(), fresh_food);
            (
                self.at(Phase::TintingHead { game: game.after(candidate.unwrap(), fresh_food), step }),
                Action::MapHue(step.head_hue),
            )
        }
    }

    /// The session after `event`, and the action it hands out, or the fault
    /// that ends it. `raw_hue` is the number drawn for the hue should a new
    /// episode begin.
    pub open spec fn next(self, event: Event, raw_hue: u16) -> Result<(SessionModel, Action), Fault> {
        match (self.phase, event) {
            (_, Event::Failed) => Err(Fault::Link),
            (Phase::Seeding, Event::Food(food)) => if food.in_grid(self.width, self.height) {
                let game = GameModel::initial(self.width, self.height, food, raw_hue);
                Ok((self.at(Phase::Choosing { game }), Action::ChooseMove))
            } else {
                Err(Fault::FoodOffGrid)
            },
            (Phase::Choosing { game }, Event::Move(candidate)) => if game.eats(candidate) {
                Ok((self.at(Phase::Feeding { game }), Action::PlaceFood))
            } else {
                Ok(self.play(game, candidate, game.food))
            },
            (Phase::Feeding { game }, Event::Food(food)) => if food.in_grid(self.width, self.height) {
                Ok(self.play(game, Some(game.food), food))
            } else {
                Err(Fault::FoodOffGrid)
            },
            (Phase::TintingHead { game, step }, Event::Color(head_color)) => Ok(
                (self.at(Phase::TintingFood { game, step, head_color }), Action::MapHue(step.food_hue)),
            ),
            (Phase::TintingFood { game, step, head_color }, Event::Color(food_color)) => {
                let script = tick_script(frame(step, head_color, food_color), self.tick_millis);
                Ok((self.at(Phase::Showing { game, pending: script.skip(1) }), script[0]))
            },
            (Phase::Showing { game, pending }, Event::Done) => if pending.len() > 0 {
                Ok((self.at(Phase::Showing { game, pending: pending.skip(1) }), pending[0]))
            } else {
                Ok((self.at(Phase::Choosing { game }), Action::ChooseMove))
            },
            (Phase::Fading { pending }, Event::Done) => if pending.len() > 0 {
                Ok((self.at(Phase::Fading { pending: pending.skip(1) }), pending[0]))
            } else {
                Ok((self.at(Phase::Seeding), Action::PlaceFood))
            },
            _ => Err(Fault::Unexpected),
        }
    }

    /// The session after `count` more reports of success, and the actions
    /// that it handed out on the way. Should one of the reports end the
    /// session, the session stays as it was before that report.
    pub open spec fn after_done(self, count: nat) -> (SessionModel, Seq<Action>)
        decreases count,
    {
        if count == 0 {
            (self, Seq::empty())
        } else {
            let (before, actions) = self.after_done((count - 1) as nat);
            match before.next(Event::Done, 0) {
                Ok((after, action)) => (after, actions.push(action)),
                Err(_) => (before, actions),
            }
        }
    }
}

/// Whatever a session is told, it stays in order, on its grid and at its
/// pace, and it asks for nothing but traffic on the link and answers about
/// the game: it never asks for a connection or a backoff. The hues that it
/// wants turned into colours lie on the wheel.
pub proof fn lemma_session_stays_in_order(session: SessionModel, event: Event, raw_hue: u16)
    requires
        session.wf(),
    ensures
        session.next(event, raw_hue) matches Ok((after, action)) ==> {
            &&& after.wf()
            &&& after == session.at(after.phase)
            &&& action.in_session()
            &&& action matches Action::MapHue(hue) ==> hue < HUE_RANGE
        },
{
    match (session.phase, event) {
        (Phase::Seeding, Event::Food(food)) => {
            if food.in_grid(session.width, session.height) {
                lemma_initial_game(session.width, session.height, food, raw_hue);
            }
        },
        (Phase::Choosing { game }, Event::Move(candidate)) => {
            if !game.eats(candidate) {
                lemma_play_stays_in_order(session, game, candidate, game.food);
            }
        },
        (Phase::Feeding { game }, Event::Food(food)) => {
            if food.in_grid(session.width, session.height) {
                lemma_play_stays_in_order(session, game, Some(game.food), food);
            }
        },
        (Phase::TintingFood { game, step, head_color }, Event::Color(food_color)) => {
            lemma_scripts_stay_on_link(frame(step, head_color, food_color), session.tick_millis);
        },
        _ => {},
    }
}

proof fn lemma_play_stays_in_order(
    session: SessionModel,
    game: GameModel,
    candidate: Option<Cell>,
    fresh_food: Cell,
)
    requires
        game.wf(),
        game.width == session.width,
        game.height == session.height,
        game.eats(candidate) ==> fresh_food.in_grid(session.width, session.height),
    ensures
        session.play(game, candidate, fresh_food).0.wf(),
        session.play(game, candidate, fresh_food).1.in_session(),
        session.play(game, candidate, fresh_food).1 matches Action::MapHue(hue) ==> hue < HUE_RANGE,
{
    if game.halts(candidate) {
        lemma_scripts_stay_on_link(wipe(game.snake), session.fade_millis);
    } else {
        lemma_move(game, candidate.unwrap(), fresh_food);
    }
}

/// What is pending goes out in order. While a tick or a fade is on its
/// way, each report of success is answered with the next action of the
/// script, and with nothing else, until the script is used up.
pub proof fn lemma_pending_goes_out_in_order(session: SessionModel, count: nat)
    requires
        session.phase is Showing || session.phase is Fading,
        count <= session.phase.pending().len(),
    ensures
        session.after_done(count).1 == session.phase.pending().take(count as int),
        session.after_done(count).0 == session.at(
            session.phase.with_pending(session.phase.pending().skip(count as int)),
        ),
    decreases count,
{
    let pending = session.phase.pending();
    if count == 0 {
        assert(pending.skip(0) =~= pending);
    } else {
        let fewer = (count - 1) as nat;
        lemma_pending_goes_out_in_order(session, fewer);
        assert(pending.skip(fewer as int).skip(1) =~= pending.skip(count as int));
    }
}

/// How a tick goes out. Once both colours are known, the session hands out
/// the frame pixel by pixel, then one flush, then the pause of the tick,
/// and only then asks for the next move: no tick begins before the one
/// before it has been flushed and waited for.
pub proof fn lemma_tick_goes_out(session: SessionModel, food_color: Rgb, raw_hue: u16)
    requires
        session.phase is TintingFood,
    ensures
        ({
            let script = tick_script(
                frame(session.phase->TintingFood_step, session.phase->head_color, food_color),
                session.tick_millis,
            );
            let rest = (script.len() - 1) as nat;
            &&& session.next(Event::Color(food_color), raw_hue) matches Ok((showing, first))
            &&& seq![first] + showing.after_done(rest).1 == script
            &&& showing.after_done(rest).0.next(Event::Done, raw_hue) == Ok::<(SessionModel, Action), Fault>(
                (session.at(Phase::Choosing { game: session.phase->TintingFood_game }), Action::ChooseMove),
            )
        }),
{
    let script = tick_script(
        frame(session.phase->TintingFood_step, session.phase->head_color, food_color),
        session.tick_millis,
    );
    let rest = (script.len() - 1) as nat;
    let showing = session.next(Event::Color(food_color), raw_hue)->Ok_0.0;
    lemma_pending_goes_out_in_order(showing, rest);
}

/// How an episode ends. When there is no move, or the move runs into the
/// snake, nothing of that tick is sent. The session switches off the cells
/// of the snake one after the other, from head to tail; each of these
/// pixels is followed by a flush and the pause of the fade; and when the
/// last pause is over the session asks for the food of the next episode.
pub proof fn lemma_fade_goes_out(
    session: SessionModel,
    game: GameModel,
    candidate: Option<Cell>,
    fresh_food: Cell,
    raw_hue: u16,
)
    requires
        game.snake.len() > 0,
        game.halts(candidate),
    ensures
        ({
            let script = fade_script(wipe(game.snake), session.fade_millis);
            let rest = (script.len() - 1) as nat;
            let (fading, first) = session.play(game, candidate, fresh_food);
            &&& script.len() == 3 * game.snake.len()
            &&& seq![first] + fading.after_done(rest).1 == script
            &&& fading.after_done(rest).0.next(Event::Done, raw_hue) == Ok::<(SessionModel, Action), Fault>(
                (session.at(Phase::Seeding), Action::PlaceFood),
            )
        }),
{
    let script = fade_script(wipe(game.snake), session.fade_millis);
    let rest = (script.len() - 1) as nat;
    let fading = session.play(game, candidate, fresh_food).0;
    lemma_pending_goes_out_in_order(fading, rest);
}

/// Grid and pace of a session.
#[derive(Clone, Copy)]
struct Rules {
    width: u8,
    height: u8,
    tick_millis: u64,
    fade_millis: u64,
}

impl Rules {
    /// The session with these rules in `phase`.
    spec fn session(self, phase: Phase) -> SessionModel {
        SessionModel {
            width: self.width,
            height: self.height,
            tick_millis: self.tick_millis,
            fade_millis: self.fade_millis,
            phase,
        }
    }
}

enum Stage {
    Seeding,
    Choosing { game: GameState },
    Feeding { game: GameState },
    TintingHead { game: GameState, step: Transition },
    TintingFood { game: GameState, step: Transition, head_color: Rgb },
    Showing { game: GameState, script: Vec<Action>, cursor: usize },
    Fading { script: Vec<Action>, cursor: usize },
}

impl Stage {
    spec fn phase(self) -> Phase {
        match self {
            Stage::Seeding => Phase::Seeding,
            Stage::Choosing { game } => Phase::Choosing { game: game@ },
            Stage::Feeding { game } => Phase::Feeding { game: game@ },
            Stage::TintingHead { game, step } => Phase::TintingHead { game: game@, step },
            Stage::TintingFood { game, step, head_color } => Phase::TintingFood { game: game@, step, head_color },
            Stage::Showing { game, script, cursor } => Phase::Showing {
                game: game@,
                pending: script@.skip(cursor as int),
            },
            Stage::Fading { script, cursor } => Phase::Fading { pending: script@.skip(cursor as int) },
        }
    }

    spec fn cursor_in_script(self) -> bool {
        match self {
            Stage::Showing { script, cursor, .. } => cursor <= script.len(),
            Stage::Fading { script, cursor } => cursor <= script.len(),
            _ => true,
        }
    }
}

/// A session on an open link.
pub struct Session {
    rules: Rules,
    stage: Stage,
}

impl View for Session {
    type V = SessionModel;

    closed spec fn view(&self) -> SessionModel {
        self.rules.session(self.stage.phase())
    }
}

/// Whether what a session returned is what its model prescribes.
pub open spec fn session_agrees(
    outcome: Result<(Session, Action), Fault>,
    expected: Result<(SessionModel, Action), Fault>,
) -> bool {
    match outcome {
        Ok((session, action)) => expected == Ok::<(SessionModel, Action), Fault>((session@, action))
            && session.wf(),
        Err(fault) => expected == Err::<(SessionModel, Action), Fault>(fault),
    }
}

impl Session {
    /// What holds of every session that this module hands out.
    pub closed spec fn wf(&self) -> bool {
        self@.wf() && self.stage.cursor_in_script()
    }

    /// Begins a session on a link that has just been opened. The first
    /// thing it needs is a place for the food.
    pub fn open(width: u8, height: u8, tick_millis: u64, fade_millis: u64) -> (opened: (Session, Action))
        ensures
            opened.0@ == SessionModel::opened(width, height, tick_millis, fade_millis),
            opened.0.wf(),
            opened.1 == Action::PlaceFood,
    {
        let rules = Rules { width, height, tick_millis, fade_millis };
        (Session { rules, stage: Stage::Seeding }, Action::PlaceFood)
    }

    /// The game of the running episode, while there is one.
    pub fn game(&self) -> (game: Option<&GameState>)
        ensures
            match game {
                Some(game) => self@.phase.game() == Some(game@),
                None => self@.phase.game() is None,
            },
    {
        match &self.stage {
            Stage::Seeding => None,
            Stage::Choosing { game } => Some(game),
            Stage::Feeding { game } => Some(game),
            Stage::TintingHead { game, .. } => Some(game),
            Stage::TintingFood { game, .. } => Some(game),
            Stage::Showing { game, .. } => Some(game),
            Stage::Fading { .. } => None,
        }
    }

    /// Tells whether the next report may begin an episode, for which a
    /// number has to be drawn.
    pub(crate) fn seeds(&self) -> (seeding: bool)
        ensures
            seeding == (self@.phase is Seeding),
    {
        match &self.stage {
            Stage::Seeding => true,
            _ => false,
        }
    }

    /// Makes the move if there is one to make, and begins the fade if not.
    fn play(rules: Rules, game: GameState, candidate: Option<Cell>, fresh_food: Cell) -> (played: (
        Session,
        Action,
    ))
        requires
            game@.wf(),
            game@.width == rules.width,
            game@.height == rules.height,
            game@.eats(candidate) ==> fresh_food.in_grid(rules.width, rules.height),
        ensures
            (played.0@, played.1) == rules.session(Phase::Seeding).play(game@, candidate, fresh_food),
            played.0.wf(),
    {
        let mut game = game;
        match game.step(candidate, fresh_food) {
            Some(step) => (Session { rules, stage: Stage::TintingHead { game, step } }, Action::MapHue(step.head_hue)),
            None => {
                let pixels = render_wipe(game.snake());
                let script = plan_fade(&pixels, rules.fade_millis);
                proof {
                    lemma_scripts_stay_on_link(pixels@, rules.fade_millis);
                }
                let first = script[0];
                (Session { rules, stage: Stage::Fading { script, cursor: 1 } }, first)
            },
        }
    }

    /// Takes the report on the last action and gives the next one, or the
    /// fault that ends the session. `raw_hue` is the number from which the
    /// hue of a new episode is taken; it is looked at only when `event`
    /// brings the first food of an episode.
    pub fn next_with(self, event: Event, raw_hue: u16) -> (outcome: Result<(Session, Action), Fault>)
        requires
            self.wf(),
        ensures
            session_agrees(outcome, self@.next(event, raw_hue)),
    {
        let Session { rules, stage } = self;
        if let Event::Failed = event {
            return Err(Fault::Link);
        }
        match stage {
            Stage::Seeding => match event {
                Event::Food(food) => {
                    if food.is_in_grid(rules.width, rules.height) {
                        let game = GameState::new(rules.width, rules.height, food, raw_hue);
                        Ok((Session { rules, stage: Stage::Choosing { game } }, Action::ChooseMove))
                    } else {
                        Err(Fault::FoodOffGrid)
                    }
                },
                _ => Err(Fault::Unexpected),
            },
            Stage::Choosing { game } => match event {
                Event::Move(candidate) => {
                    if game.eats(candidate) {
                        Ok((Session { rules, stage: Stage::Feeding { game } }, Action::PlaceFood))
                    } else {
                        let food = game.food();
                        Ok(Session::play(rules, game, candidate, food))
                    }
                },
                _ => Err(Fault::Unexpected),
            },
            Stage::Feeding { game } => match event {
                Event::Food(food) => {
                    if food.is_in_grid(rules.width, rules.height) {
                        let head = game.food();
                        Ok(Session::play(rules, game, Some(head), food))
                    } else {
                        Err(Fault::FoodOffGrid)
                    }
                },
                _ => Err(Fault::Unexpected),
            },
            Stage::TintingHead { game, step } => match event {
                Event::Color(head_color) => Ok(
                    (
                        Session { rules, stage: Stage::TintingFood { game, step, head_color } },
                        Action::MapHue(step.food_hue),
                    ),
                ),
                _ => Err(Fault::Unexpected),
            },
            Stage::TintingFood { game, step, head_color } => match event {
                Event::Color(food_color) => {
                    let pixels = render(&step, head_color, food_color);
                    let script = plan_tick(&pixels, rules.tick_millis);
                    proof {
                        lemma_scripts_stay_on_link(pixels@, rules.tick_millis);
                    }
                    let first = script[0];
                    Ok((Session { rules, stage: Stage::Showing { game, script, cursor: 1 } }, first))
                },
                _ => Err(Fault::Unexpected),
            },
            Stage::Showing { game, script, cursor } => match event {
                Event::Done => {
                    if cursor < script.len() {
                        let action = script[cursor];
                        assert(script@.skip(cursor as int).skip(1) =~= script@.skip(cursor + 1));
                        Ok((Session { rules, stage: Stage::Showing { game, script, cursor: cursor + 1 } }, action))
                    } else {
                        Ok((Session { rules, stage: Stage::Choosing { game } }, Action::ChooseMove))
                    }
                },
                _ => Err(Fault::Unexpected),
            },
            Stage::Fading { script, cursor } => match event {
                Event::Done => {
                    if cursor < script.len() {
                        let action = script[cursor];
                        assert(script@.skip(cursor as int).skip(1) =~= script@.skip(cursor + 1));
                        Ok((Session { rules, stage: Stage::Fading { script, cursor: cursor + 1 } }, action))
                    } else {
                        Ok((Session { rules, stage: Stage::Seeding }, Action::PlaceFood))
                    }
                },
                _ => Err(Fault::Unexpected),
            },
        }
    }

    /// Takes the report on the last action and gives the next one, or the
    /// fault that ends the session. Where a new episode begins, its hue is
    /// drawn at random.
    pub fn next(self, event: Event) -> (outcome: Result<(Session, Action), Fault>)
        requires
            self.wf(),
        ensures
            exists|raw_hue: u16| session_agrees(outcome, #[trigger] self@.next(event, raw_hue)),
    {
        let raw_hue: u16 = if self.seeds() {
            random_u16()
        } else {
            0
        };
        self.next_with(event, raw_hue)
    }
}

} // verus!
