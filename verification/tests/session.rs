use led_snake::cell::Cell;
use led_snake::pixel::{Pixel, Rgb};
use led_snake::protocol::{Action, Event, Fault};
use led_snake::session::Session;

const HEAD: Rgb = Rgb { r: 255, g: 21, b: 0 };
const FOOD: Rgb = Rgb { r: 0, g: 234, b: 255 };

fn advance(session: Session, event: Event) -> (Session, Action) {
    match session.next_with(event, 0) {
        Ok(next) => next,
        Err(fault) => panic!("session ended with {fault:?}"),
    }
}

fn fault_of(session: Session, event: Event) -> Fault {
    match session.next_with(event, 0) {
        Ok((_, action)) => panic!("session went on with {action:?}"),
        Err(fault) => fault,
    }
}

/// A session that waits for the first move of an episode with the food at `food`.
fn choosing(food: Cell, raw_hue: u16) -> Session {
    let (session, action) = Session::open(8, 32, 250, 100);
    assert_eq!(action, Action::PlaceFood);
    let (session, action) = session.next_with(Event::Food(food), raw_hue).unwrap_or_else(|fault| panic!("{fault:?}"));
    assert_eq!(action, Action::ChooseMove);
    session
}

#[test]
fn open_session_asks_for_food_first() {
    let (session, action) = Session::open(8, 32, 250, 100);
    assert_eq!(action, Action::PlaceFood);
    assert!(session.game().is_none());
}

#[test]
fn first_tick_clears_tail_paints_head_and_food() {
    let session = choosing(Cell::new(6, 16), 0);
    let game = session.game().unwrap();
    assert_eq!(game.snake(), &vec![Cell::new(4, 16), Cell::new(3, 16)]);
    assert_eq!(game.food(), Cell::new(6, 16));

    let (session, action) = advance(session, Event::Move(Some(Cell::new(5, 16))));
    assert_eq!(action, Action::MapHue(5));
    let (session, action) = advance(session, Event::Color(HEAD));
    assert_eq!(action, Action::MapHue(185));
    let (session, action) = advance(session, Event::Color(FOOD));
    assert_eq!(action, Action::Send(Pixel::new_black(3, 16)));
    let (session, action) = advance(session, Event::Done);
    assert_eq!(action, Action::Send(Pixel::new(5, 16, 255, 21, 0)));
    let (session, action) = advance(session, Event::Done);
    assert_eq!(action, Action::Send(Pixel::new(6, 16, 0, 234, 255)));
    let (session, action) = advance(session, Event::Done);
    assert_eq!(action, Action::Flush);
    let (session, action) = advance(session, Event::Done);
    assert_eq!(action, Action::Wait(250));
    let (session, action) = advance(session, Event::Done);
    assert_eq!(action, Action::ChooseMove);
    assert_eq!(session.game().unwrap().snake(), &vec![Cell::new(5, 16), Cell::new(4, 16)]);
}

#[test]
fn eating_asks_for_new_food_before_the_move_is_shown() {
    let session = choosing(Cell::new(5, 16), 355);
    let (session, action) = advance(session, Event::Move(Some(Cell::new(5, 16))));
    assert_eq!(action, Action::PlaceFood);
    assert_eq!(session.game().unwrap().snake().len(), 2);
    let (session, action) = advance(session, Event::Food(Cell::new(0, 31)));
    assert_eq!(action, Action::MapHue(0));
    assert_eq!(session.game().unwrap().food(), Cell::new(0, 31));
    let (session, action) = advance(session, Event::Color(HEAD));
    assert_eq!(action, Action::MapHue(180));
    let (session, action) = advance(session, Event::Color(FOOD));
    assert_eq!(action, Action::Send(Pixel::new(5, 16, 255, 21, 0)));
    let (session, action) = advance(session, Event::Done);
    assert_eq!(action, Action::Send(Pixel::new(0, 31, 0, 234, 255)));
    let (session, action) = advance(session, Event::Done);
    assert_eq!(action, Action::Flush);
    let (session, action) = advance(session, Event::Done);
    assert_eq!(action, Action::Wait(250));
    let (session, action) = advance(session, Event::Done);
    assert_eq!(action, Action::ChooseMove);
    assert_eq!(
        session.game().unwrap().snake(),
        &vec![Cell::new(5, 16), Cell::new(4, 16), Cell::new(3, 16)]
    );
}

#[test]
fn biting_itself_sends_nothing_for_the_tick_and_starts_the_fade() {
    let session = choosing(Cell::new(6, 16), 0);
    let (session, action) = advance(session, Event::Move(Some(Cell::new(3, 16))));
    assert_eq!(action, Action::Send(Pixel::new_black(4, 16)));
    assert!(session.game().is_none());
}

#[test]
fn fade_switches_off_the_snake_from_head_to_tail_then_starts_over() {
    let session = choosing(Cell::new(5, 16), 0);
    let (session, _) = advance(session, Event::Move(Some(Cell::new(5, 16))));
    let (session, _) = advance(session, Event::Food(Cell::new(7, 0)));
    let (session, _) = advance(session, Event::Color(HEAD));
    let (mut session, mut action) = advance(session, Event::Color(FOOD));
    while action != Action::ChooseMove {
        (session, action) = advance(session, Event::Done);
    }

    let mut actions = Vec::new();
    (session, action) = advance(session, Event::Move(None));
    while action != Action::PlaceFood {
        actions.push(action);
        (session, action) = advance(session, Event::Done);
    }
    assert_eq!(
        actions,
        vec![
            Action::Send(Pixel::new_black(5, 16)),
            Action::Flush,
            Action::Wait(100),
            Action::Send(Pixel::new_black(4, 16)),
            Action::Flush,
            Action::Wait(100),
            Action::Send(Pixel::new_black(3, 16)),
            Action::Flush,
            Action::Wait(100),
        ]
    );
    assert!(session.game().is_none());

    let (session, action) = advance(session, Event::Food(Cell::new(0, 0)));
    assert_eq!(action, Action::ChooseMove);
    assert_eq!(session.game().unwrap().snake(), &vec![Cell::new(4, 16), Cell::new(5, 16)]);
}

#[test]
fn failure_ends_the_session_in_every_phase() {
    let (session, _) = Session::open(8, 32, 250, 100);
    assert_eq!(fault_of(session, Event::Failed), Fault::Link);

    assert_eq!(fault_of(choosing(Cell::new(6, 16), 0), Event::Failed), Fault::Link);

    let (session, _) = advance(choosing(Cell::new(5, 16), 0), Event::Move(Some(Cell::new(5, 16))));
    assert_eq!(fault_of(session, Event::Failed), Fault::Link);

    let (session, _) = advance(choosing(Cell::new(6, 16), 0), Event::Move(Some(Cell::new(5, 16))));
    assert_eq!(fault_of(session, Event::Failed), Fault::Link);

    let (session, _) = advance(choosing(Cell::new(6, 16), 0), Event::Move(Some(Cell::new(5, 16))));
    let (session, _) = advance(session, Event::Color(HEAD));
    assert_eq!(fault_of(session, Event::Failed), Fault::Link);

    let (session, _) = advance(choosing(Cell::new(6, 16), 0), Event::Move(Some(Cell::new(5, 16))));
    let (session, _) = advance(session, Event::Color(HEAD));
    let (session, action) = advance(session, Event::Color(FOOD));
    assert_eq!(action, Action::Send(Pixel::new_black(3, 16)));
    assert_eq!(fault_of(session, Event::Failed), Fault::Link);

    let (session, _) = advance(choosing(Cell::new(6, 16), 0), Event::Move(None));
    assert_eq!(fault_of(session, Event::Failed), Fault::Link);
}

#[test]
fn food_off_the_grid_ends_the_session() {
    let (session, _) = Session::open(8, 32, 250, 100);
    assert_eq!(fault_of(session, Event::Food(Cell::new(8, 0))), Fault::FoodOffGrid);
    let (session, _) = Session::open(8, 32, 250, 100);
    assert_eq!(fault_of(session, Event::Food(Cell::new(0, 32))), Fault::FoodOffGrid);

    let (session, _) = advance(choosing(Cell::new(5, 16), 0), Event::Move(Some(Cell::new(5, 16))));
    assert_eq!(fault_of(session, Event::Food(Cell::new(8, 32))), Fault::FoodOffGrid);

    let (session, _) = Session::open(0, 0, 250, 100);
    assert_eq!(fault_of(session, Event::Food(Cell::new(0, 0))), Fault::FoodOffGrid);
}

#[test]
fn report_that_answers_another_action_ends_the_session() {
    let (session, _) = Session::open(8, 32, 250, 100);
    assert_eq!(fault_of(session, Event::Done), Fault::Unexpected);
    let (session, _) = Session::open(8, 32, 250, 100);
    assert_eq!(fault_of(session, Event::Move(None)), Fault::Unexpected);
    let (session, _) = Session::open(8, 32, 250, 100);
    assert_eq!(fault_of(session, Event::Color(HEAD)), Fault::Unexpected);

    assert_eq!(fault_of(choosing(Cell::new(6, 16), 0), Event::Done), Fault::Unexpected);
    assert_eq!(fault_of(choosing(Cell::new(6, 16), 0), Event::Food(Cell::new(0, 0))), Fault::Unexpected);

    let (session, _) = advance(choosing(Cell::new(5, 16), 0), Event::Move(Some(Cell::new(5, 16))));
    assert_eq!(fault_of(session, Event::Move(None)), Fault::Unexpected);

    let (session, _) = advance(choosing(Cell::new(6, 16), 0), Event::Move(Some(Cell::new(5, 16))));
    assert_eq!(fault_of(session, Event::Done), Fault::Unexpected);

    let (session, _) = advance(choosing(Cell::new(6, 16), 0), Event::Move(Some(Cell::new(5, 16))));
    let (session, _) = advance(session, Event::Color(HEAD));
    let (session, _) = advance(session, Event::Color(FOOD));
    assert_eq!(fault_of(session, Event::Color(FOOD)), Fault::Unexpected);

    let (session, _) = advance(choosing(Cell::new(6, 16), 0), Event::Move(None));
    assert_eq!(fault_of(session, Event::Move(None)), Fault::Unexpected);
}

#[test]
fn session_draws_a_hue_on_the_wheel_for_each_episode() {
    for _ in 0..50 {
        let (session, _) = Session::open(8, 32, 250, 100);
        let (session, action) = session.next(Event::Food(Cell::new(6, 16))).unwrap_or_else(|fault| panic!("{fault:?}"));
        assert_eq!(action, Action::ChooseMove);
        let hue = session.game().unwrap().hue();
        assert!(hue < 360);
        let (session, action) =
            session.next(Event::Move(Some(Cell::new(5, 16)))).unwrap_or_else(|fault| panic!("{fault:?}"));
        assert_eq!(action, Action::MapHue((hue + 5) % 360));
        let (_, action) = session.next(Event::Color(HEAD)).unwrap_or_else(|fault| panic!("{fault:?}"));
        assert_eq!(action, Action::MapHue((hue + 185) % 360));
    }
}
