//! Rules of a constellation quiz played on a rendered night sky.
//!
//! The crate holds everything the game decides: which screen comes next,
//! how a quiz round is dealt and judged, what the labels read, and how the
//! catalogue texts are cut into fields. Rendering, input polling and the
//! trigonometry on floating-point coordinates belong to the program that
//! drives these functions.

pub mod catalog;
pub mod chance;
pub mod end_state;
pub mod explo_state;
pub mod game_state;
pub mod pointer;
pub mod star;
pub mod start_state;
pub mod text;

use vstd::prelude::*;

verus! {

/// The four screens of the game.
#[derive(Clone, Copy, PartialEq, Eq, Structural, Debug, Hash)]
pub enum GameState {
    /// The title screen.
    Start,
    /// The sky explorer.
    Explo,
    /// The quiz.
    Game,
    /// The closing screen.
    End,
}

impl Default for GameState {
    fn default() -> (state: GameState)
        ensures
            state == GameState::Start,
    {
        GameState::Start
    }
}

} // verus!
