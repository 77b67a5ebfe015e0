//! What can go wrong inside the turn-based game model.

use vstd::prelude::*;

use crate::gamecore::night_action::NightAction;
use crate::gamecore::player::{PlayerName, PlayerRole};

verus! {

/// Errors of the turn-based game model.
#[derive(Debug)]
pub enum Error {
    /// No player of that name is in the game.
    NameNotFound(PlayerName),
    /// The player's role does not allow the submitted night action.
    InvalidNightAction(PlayerRole, NightAction),
    /// The game is not in a state that accepts this action.
    WrongStateForAction,
}

} // verus!
