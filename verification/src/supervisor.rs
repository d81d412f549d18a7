//! Keeps a session running: connects, and connects again after every fault.
//!
//! The supervisor is the state machine that a program drives from start to
//! finish. It never stops: whatever it is told, it answers with the next
//! action. A fault of any kind, on the link or in what is reported, ends
//! the running session; the supervisor then asks for the backoff pause and
//! after it for a new connection, on which a fresh session begins.

use vstd::prelude::*;
use crate::chance::random_u16;
use crate::config::Config;
use crate::game::GameState;
use crate::protocol::{Action, Event, Fault};
use crate::session::{lemma_session_stays_in_order, Session, SessionModel};

verus! {

/// What a supervisor is busy with, as a mathematical value.
pub ghost enum Duty {
    /// It has asked for the link to be opened.
    Connecting,
    /// A session runs on the open link.
    Running { session: SessionModel },
    /// It has asked for the pause that follows a fault.
    BackingOff,
}

/// A supervisor as a mathematical value.
pub ghost struct SupervisorModel {
    pub config: Config,
    pub duty: Duty,
}

impl SupervisorModel {
    /// What holds of every supervisor: its session, if one runs, is a
    /// well-formed session on the grid and at the pace of the configuration.
    pub open spec fn wf(self) -> bool {
        self.duty matches Duty::Running { session } ==> {
            &&& session.wf()
            &&& session.width == self.config.width
            &&& session.height == self.config.height
            &&& session.tick_millis == self.config.tick_millis
            &&& session.fade_millis == self.config.fade_millis
        }
    }

    /// The same supervisor busy with something else.
    pub open spec fn at(self, duty: Duty) -> SupervisorModel {
        SupervisorModel { duty, ..self }
    }

    /// A supervisor that has just been started: it has asked for the link.
    pub open spec fn launched(config: Config) -> SupervisorModel {
        SupervisorModel { config, duty: Duty::Connecting }
    }

    /// What follows a fault: the session, if any, is dropped and the backoff
    /// pause is asked for.
    pub open spec fn give_up(self, fault: Fault) -> (SupervisorModel, Action) {
        (self.at(Duty::BackingOff), Action::Backoff { millis: self.config.backoff_millis, fault })
    }

    /// The supervisor after `event`, and the action it hands out. `raw_hue`
    /// is the number drawn for the hue should a new episode begin.
    pub open spec fn next(self, event: Event, raw_hue: u16) -> (SupervisorModel, Action) {
        match self.duty {
            Duty::Connecting => match event {
                Event::Done => (
                    self.at(
                        Duty::Running {
                            session: SessionModel::opened(
                                self.config.width,
                                self.config.height,
                                self.config.tick_millis,
                                self.config.fade_millis,
                            ),
                        },
                    ),
                    Action::PlaceFood,
                ),
                Event::Failed => self.give_up(Fault::Link),
                _ => self.give_up(Fault::Unexpected),
            },
            Duty::Running { session } => match session.next(event, raw_hue) {
                Ok((session, action)) => (self.at(Duty::Running { session }), action),
                Err(fault) => self.give_up(fault),
            },
            Duty::BackingOff => (self.at(Duty::Connecting), Action::Connect),
        }
    }
}

/// Whatever a supervisor is told, it answers, stays in order and keeps its
/// configuration. It backs off exactly when something went wrong: when the
/// link could not be opened, or when the report ended the running session.
/// A failed action on the link always does. The pause is the one of the
/// configuration, and a connection is asked for exactly when a backoff is
/// over.
pub proof fn lemma_supervisor_stays_in_order(supervisor: SupervisorModel, event: Event, raw_hue: u16)
    requires
        supervisor.wf(),
    ensures
        ({
            let (after, action) = supervisor.next(event, raw_hue);
            &&& after.wf()
            &&& after.config == supervisor.config
            &&& after.duty is BackingOff <==> {
                ||| supervisor.duty is Connecting && event !is Done
                ||| supervisor.duty matches Duty::Running { session } && session.next(event, raw_hue) is Err
            }
            &&& action is Backoff <==> after.duty is BackingOff
            &&& action matches Action::Backoff { millis, .. } ==> millis == supervisor.config.backoff_millis
            &&& event is Failed && !(supervisor.duty is BackingOff) ==> action == (Action::Backoff {
                millis: supervisor.config.backoff_millis,
                fault: Fault::Link,
            })
            &&& action == Action::Connect <==> supervisor.duty is BackingOff
            &&& action == Action::Connect <==> after.duty is Connecting
        }),
{
    if let Duty::Running { session } = supervisor.duty {
        lemma_session_stays_in_order(session, event, raw_hue);
    }
}

/// Every fault is answered in the same way: the supervisor asks for the
/// backoff pause, and whatever it is told next, it then asks for a new
/// connection and is again as it was when it was started.
pub proof fn lemma_fault_leads_to_reconnect(
    supervisor: SupervisorModel,
    event: Event,
    raw_hue: u16,
    later: Event,
    later_raw_hue: u16,
)
    requires
        supervisor.wf(),
        supervisor.next(event, raw_hue).1 is Backoff,
    ensures
        supervisor.next(event, raw_hue).0.next(later, later_raw_hue) == (
            SupervisorModel::launched(supervisor.config),
            Action::Connect,
        ),
{
    lemma_supervisor_stays_in_order(supervisor, event, raw_hue);
}

enum State {
    Connecting,
    Running { session: Session },
    BackingOff,
}

impl State {
    spec fn duty(self) -> Duty {
        match self {
            State::Connecting => Duty::Connecting,
            State::Running { session } => Duty::Running { session: session@ },
            State::BackingOff => Duty::BackingOff,
        }
    }

    spec fn session_wf(self) -> bool {
        self matches State::Running { session } ==> session.wf()
    }
}

/// The driver of one display.
pub struct Supervisor {
    config: Config,
    state: State,
}

impl View for Supervisor {
    type V = SupervisorModel;

    closed spec fn view(&self) -> SupervisorModel {
        SupervisorModel { config: self.config, duty: self.state.duty() }
    }
}

impl Supervisor {
    /// What holds of every supervisor that this module hands out.
    pub closed spec fn wf(&self) -> bool {
        self@.wf() && self.state.session_wf()
    }

    /// Starts a supervisor. The first thing it asks for is the link.
    pub fn launch(config: Config) -> (launched: (Supervisor, Action))
        ensures
            launched.0@ == SupervisorModel::launched(config),
            launched.0.wf(),
            launched.1 == Action::Connect,
    {
        (Supervisor { config, state: State::Connecting }, Action::Connect)
    }

    /// The configuration that the supervisor was started with.
    pub fn config(&self) -> (config: &Config)
        ensures
            *config == self@.config,
    {
        &self.config
    }

    /// The game of the running episode, while there is one.
    pub fn game(&self) -> (game: Option<&GameState>)
        ensures
            match game {
                Some(game) => self@.duty matches Duty::Running { session } && session.phase.game() == Some(
                    game@,
                ),
                None => self@.duty matches Duty::Running { session } ==> session.phase.game() is None,
            },
    {
        match &self.state {
            State::Running { session } => session.game(),
            _ => None,
        }
    }

    fn give_up(config: Config, fault: Fault) -> (given_up: (Supervisor, Action))
        ensures
            given_up.0@ == SupervisorModel::launched(config).at(Duty::BackingOff),
            given_up.0.wf(),
            given_up.1 == (Action::Backoff { millis: config.backoff_millis, fault }),
    {
        let millis: u64 = config.backoff_millis;
        (Supervisor { config, state: State::BackingOff }, Action::Backoff { millis, fault })
    }

    /// Takes the report on the last action and gives the next one.
    /// `raw_hue` is the number from which the hue of a new episode is taken;
    /// it is looked at only when `event` brings the first food of an episode.
    pub fn next_with(self, event: Event, raw_hue: u16) -> (outcome: (Supervisor, Action))
        requires
            self.wf(),
        ensures
            (outcome.0@, outcome.1) == self@.next(event, raw_hue),
            outcome.0.wf(),
    {
        let Supervisor { config, state } = self;
        match state {
            State::Connecting => match event {
                Event::Done => {
                    let (session, action) = Session::open(
                        config.width,
                        config.height,
                        config.tick_millis,
                        config.fade_millis,
                    );
                    (Supervisor { config, state: State::Running { session } }, action)
                },
                Event::Failed => Supervisor::give_up(config, Fault::Link),
                _ => Supervisor::give_up(config, Fault::Unexpected),
            },
            State::Running { session } => match session.next_with(event, raw_hue) {
                Ok((session, action)) => (Supervisor { config, state: State::Running { session } }, action),
                Err(fault) => Supervisor::give_up(config, fault),
            },
            State::BackingOff => (Supervisor { config, state: State::Connecting }, Action::Connect),
        }
    }

    /// Tells whether the next report may begin an episode, for which a
    /// number has to be drawn.
    fn seeds(&self) -> (seeding: bool)
        ensures
            seeding == (self@.duty matches Duty::Running { session } && session.phase is Seeding),
    {
        match &self.state {
            State::Running { session } => session.seeds(),
            _ => false,
        }
    }

    /// Takes the report on the last action and gives the next one. Where a
    /// new episode begins, its hue is drawn at random.
    pub fn next(self, event: Event) -> (outcome: (Supervisor, Action))
        requires
            self.wf(),
        ensures
            exists|raw_hue: u16| (outcome.0@, outcome.1) == #[trigger] self@.next(event, raw_hue),
            outcome.0.wf(),
    {
        let raw_hue: u16 = if self.seeds() {
            random_u16()
        } else {
            0
        };
        self.next_with(event, raw_hue)
    }
}

} // verus!
