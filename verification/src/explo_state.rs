//! The sky explorer.

use crate::pointer::{drag_step, Drag, Pointer};
use crate::GameState;
use vstd::prelude::*;

verus! {

/// Reads the explorer's key: the escape key, once it goes down, leads back
/// to the title screen.
pub fn player_interact(escape: bool) -> (next: Option<GameState>)
    ensures
        next == if escape {
            Some(GameState::Start)
        } else {
            None
        },
{
    if escape {
        Some(GameState::Start)
    } else {
        None
    }
}

/// Decides what the mouse does to the sky in one frame. While a button of
/// the interface is held down the mouse belongs to it, and the drag stays as
/// it is; otherwise the drag takes its step.
pub fn player_mouse_move(button_pressed: bool, pointer: Pointer) -> (drag: Drag)
    ensures
        drag == if button_pressed {
            Drag::Keep
        } else {
            drag_step(pointer)
        },
{
    if button_pressed {
        return Drag::Keep;
    }
    crate::game_state::player_mouse_move(pointer)
}

} // verus!
