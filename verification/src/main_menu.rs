//! The start of a game: the wait for the player before it begins.

use crate::AppState;
use vstd::prelude::*;

verus! {

/// Waits for the player before a game. The primary action, pressed in this
/// step, asks for the game to begin, which is what is returned.
pub fn wait_for_interaction_to_start(pressed: bool) -> (request: Option<AppState>)
    ensures
        request == if pressed {
            Some(AppState::InGame)
        } else {
            None
        },
{
    if pressed {
        Some(AppState::InGame)
    } else {
        None
    }
}

} // verus!
