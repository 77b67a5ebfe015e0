//! Players: the roster entries of a session.

use vstd::prelude::*;

use crate::player_connection::PlayerConnection;

verus! {

/// A player is keyed by name within a session.
pub type PlayerName = String;

/// One roster entry: identity, liveness, role, credential, and the
/// optional transport capability through which the player is reached.
pub struct Player<PC: PlayerConnection> {
    /// Unique within the session's roster.
    pub name: PlayerName,
    /// The live transport, if one is registered.
    pub connection: Option<PC>,
    pub state: PlayerState,
    pub role: Role,
    /// Immutable after creation; sole means of resolving a reconnecting
    /// transport to this player.
    pub secret_key: String,
}

impl<PC: PlayerConnection> Player<PC> {
    /// A fresh player: alive, default role, no transport yet.
    pub fn new(name: PlayerName, secret: String) -> (p: Player<PC>)
        ensures
            p.name@ == name@,
            p.connection is None,
            p.state is Alive,
            p.role is Townie,
            p.secret_key@ == secret@,
    {
        Player {
            name,
            connection: None,
            state: PlayerState::Alive,
            role: Role::Townie,
            secret_key: secret,
        }
    }

    pub fn get_name(&self) -> (n: &str)
        ensures
            n@ == self.name@,
    {
        self.name.as_str()
    }
}

/// In-game liveness. Independent of whether a transport is attached.
#[derive(Clone, Copy, Debug, PartialEq, Eq, Structural)]
pub enum PlayerState {
    Alive,
    Dead,
}

impl PlayerState {
    pub fn is_alive(&self) -> (b: bool)
        ensures
            b == (self is Alive),
    {
        *self == PlayerState::Alive
    }
}

/// The part a player was dealt. Affects only action legality.
#[derive(Clone, Copy, Debug, PartialEq, Eq, Structural)]
pub enum Role {
    Townie,
    Mafioso,
    Doctor,
    Bartender,
    Detective,
}

impl Default for Role {
    /// New players start as plain townsfolk.
    fn default() -> (r: Role)
        ensures
            r is Townie,
    {
        Role::Townie
    }
}

} // verus!
