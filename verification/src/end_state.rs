//! The closing screen.

use crate::text::{decimal, decimal_string};
use crate::GameState;
use vstd::prelude::*;
use vstd::string::StringExecFns;

verus! {

/// What stands in front of the score on the closing screen.
pub open spec fn score_caption() -> Seq<char> {
    "final score : "@
}

/// The line that tells the final score.
pub fn final_score_text(score: u32) -> (line: String)
    ensures
        line@ == score_caption() + decimal(score as nat),
{
    let digits = decimal_string(score);
    String::from_str("final score : ").concat(digits.as_str())
}

/// Reads the closing screen's key: the space bar, once it goes down, leads
/// back to the title screen.
pub fn player_interact(space: bool) -> (next: Option<GameState>)
    ensures
        next == if space {
            Some(GameState::Start)
        } else {
            None
        },
{
    if space {
        Some(GameState::Start)
    } else {
        None
    }
}

} // verus!
