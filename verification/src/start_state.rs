//! The title screen.

use crate::GameState;
use vstd::prelude::*;

verus! {

/// The screen that the title screen asks for, given which keys went down in
/// this frame. The explore key is looked at last, so it wins over the space
/// bar when both went down together.
pub open spec fn requested_state(space: bool, key_e: bool) -> Option<GameState> {
    if key_e {
        Some(GameState::Explo)
    } else if space {
        Some(GameState::Game)
    } else {
        None
    }
}

/// Reads the title screen's keys: `space` starts a game, `key_e` opens the
/// sky explorer. Both flags mean "went down in this frame".
pub fn player_interact(space: bool, key_e: bool) -> (next: Option<GameState>)
    ensures
        next == requested_state(space, key_e),
{
    let mut next: Option<GameState> = None;
    if space {
        next = Some(GameState::Game);
    }
    if key_e {
        next = Some(GameState::Explo);
    }
    next
}

} // verus!
