//! What a player may do during the night, depending on their role.

use vstd::prelude::*;

use crate::gamecore::player::PlayerName;

verus! {

/// A night action submitted by one player, naming its target.
#[derive(Debug)]
pub enum NightAction {
    /// Sit the night out; open to every role.
    Idle,
    /// Protect the named player; the doctor's move.
    Save(PlayerName),
    /// Learn about the named player; the detective's move.
    Investigate(PlayerName),
    /// Block the named player; the bartender's move.
    Negate(PlayerName),
    /// Vote to attack the named player; the mafia's move.
    Vote(PlayerName),
}

impl Default for NightAction {
    /// By default a player does nothing at night.
    fn default() -> (r: NightAction)
        ensures
            r is Idle,
    {
        NightAction::Idle
    }
}

} // verus!
