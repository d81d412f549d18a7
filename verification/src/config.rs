//! What a driver is told when it is started.

use vstd::prelude::*;

verus! {

/// The pause after each tick, in milliseconds, unless set otherwise.
pub const TICK_MILLIS: u64 = 250;

/// The pause after each cell of a fading snake, in milliseconds, unless set
/// otherwise.
pub const FADE_MILLIS: u64 = 100;

/// The pause before a new attempt to connect, in milliseconds, unless set
/// otherwise.
pub const BACKOFF_MILLIS: u64 = 30_000;

/// The display to drive and the pace at which to drive it.
#[derive(Debug)]
pub struct Config {
    /// Where the display listens. Every attempt to connect goes here.
    pub url: String,
    /// Number of columns of the grid.
    pub width: u8,
    /// Number of rows of the grid.
    pub height: u8,
    /// The pause after each tick, in milliseconds.
    pub tick_millis: u64,
    /// The pause after each cell of a fading snake, in milliseconds.
    pub fade_millis: u64,
    /// The pause between losing the link and trying to connect again, in
    /// milliseconds.
    pub backoff_millis: u64,
}

impl Clone for Config {
    fn clone(&self) -> (copy: Config)
        ensures
            copy == *self,
    {
        Config {
            url: self.url.clone(),
            width: self.width,
            height: self.height,
            tick_millis: self.tick_millis,
            fade_millis: self.fade_millis,
            backoff_millis: self.backoff_millis,
        }
    }
}

impl Config {
    /// A configuration for the display at `url` with a grid of `width` by
    /// `height` cells, at the usual pace.
    pub fn new(url: String, width: u8, height: u8) -> (config: Config)
        ensures
            config == (Config {
                url,
                width,
                height,
                tick_millis: TICK_MILLIS,
                fade_millis: FADE_MILLIS,
                backoff_millis: BACKOFF_MILLIS,
            }),
    {
        Config {
            url,
            width,
            height,
            tick_millis: TICK_MILLIS,
            fade_millis: FADE_MILLIS,
            backoff_millis: BACKOFF_MILLIS,
        }
    }
}

} // verus!
