//! The start menu's one piece of logic: switching into the game. Drawing the
//! menu text, reading the keyboard and quitting are the caller's business.

use vstd::prelude::*;

use crate::{GameState, RootState};

verus! {

/// Handles menu input: confirming the menu enters the game, anything else
/// leaves the state untouched.
pub fn start_menu_input(state: &mut GameState, start: bool)
    ensures
        final(state).root == (if start {
            RootState::InGame
        } else {
            old(state).root
        }),
        final(state).position == old(state).position,
        final(state).player == old(state).player,
        final(state).viewport.tiles@ == old(state).viewport.tiles@,
        final(state).viewport.dirty == old(state).viewport.dirty,
        final(state).map == old(state).map,
        final(state).tilesheet == old(state).tilesheet,
        final(state).scheduler == old(state).scheduler,
        final(state).show_fps == old(state).show_fps,
{
    if start {
        state.root = RootState::InGame;
    }
}

} // verus!
