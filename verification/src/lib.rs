//! The gameplay simulation of a side-scrolling obstacle-avoidance game.
//!
//! An actor falls under gravity and is pushed upwards by the player; pairs of
//! pipes scroll towards it and must be passed through their gap. This crate
//! holds the rules of that game and nothing else: the mode machine, the
//! spawners, the scoring and elimination rules and the removal of objects that
//! have scrolled out of the field. Rendering, input devices and the rigid-body
//! physics are collaborators: they hand this crate plain values once per step
//! (see [`game::StepInput`]) and act on what it reports back.
//!
//! All quantities are integers. Lengths are in world units, speeds in world
//! units per second, scales and depths in thousandths, angles in thousandths
//! of a degree and time in microseconds.

use vstd::prelude::*;

pub mod background;
pub mod config;
pub mod flappy;
pub mod game;
pub mod geometry;
pub mod laws;
pub mod main_menu;
pub mod model;
pub mod physics;
pub mod pipes;
pub mod random;
pub mod ratio;
pub mod roster;
pub mod timer;

verus! {

/// The mode of the game. Exactly one is active at a time.
///
/// `GameOver` is never the active mode: a request to enter it settles on
/// `GameStart` (see [`AppState::settled`]).
#[derive(Clone, Copy, Debug, PartialEq, Eq, Hash, Structural)]
pub enum AppState {
    GameStart,
    InGame,
    GameOver,
}

impl AppState {
    /// The mode that a request for `self` leads to.
    pub open spec fn settled(self) -> AppState {
        match self {
            AppState::GameOver => AppState::GameStart,
            other => other,
        }
    }

    /// The mode that a request for `self` leads to.
    pub fn settle(self) -> (mode: AppState)
        ensures
            mode == self.settled(),
    {
        match self {
            AppState::GameOver => AppState::GameStart,
            other => other,
        }
    }
}

impl Default for AppState {
    /// The game begins in `GameStart`.
    fn default() -> (mode: AppState)
        ensures
            mode == AppState::GameStart,
    {
        AppState::GameStart
    }
}

/// The number of gaps that the actor has passed in the current game.
#[derive(Clone, Copy, Debug, PartialEq, Eq, Structural)]
pub struct Score(pub u32);

} // verus!
