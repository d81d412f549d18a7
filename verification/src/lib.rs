//! Drives a remote LED matrix with a self-playing game of snake.
//!
//! The library holds everything that is decided: how the snake moves and
//! grows, which pixels change on each tick, how a pixel is written on the
//! wire, and what the driver does next after every answer from the outside
//! world. Talking to the display, sleeping, picking the next move and mapping
//! a hue to a colour are left to the program that runs the driver.

pub mod cell;
pub mod config;
mod chance;
pub mod game;
pub mod hue;
pub mod pixel;
pub mod protocol;
pub mod render;
pub mod script;
pub mod session;
pub mod supervisor;
pub mod wire;

pub use cell::Cell;
pub use config::Config;
pub use game::{GameState, Transition};
pub use pixel::{Pixel, Rgb};
pub use protocol::{Action, Event, Fault};
pub use session::Session;
pub use supervisor::Supervisor;
