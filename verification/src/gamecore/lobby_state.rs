//! The gathering lobby of the turn-based game model.

use vstd::prelude::*;

use crate::gamecore::player::{
    find_player,
    is_first_player,
    lemma_first_player_unique,
    name_present,
    Player,
};
use crate::gamecore::session::Session;

verus! {

/// The players assembled before a game starts, in arrival order.
#[derive(Debug)]
pub struct LobbyState {
    pub players: Vec<Player>,
}

impl LobbyState {
    /// Attaches `s` to the first player bearing `player_name`, or, if
    /// no player bears it yet, adds a fresh player of that name — who
    /// starts unattached, whatever `s` offered.
    pub fn connect(self, player_name: &str, s: Session) -> (r: LobbyState)
        ensures
            forall|i: int|
                #[trigger] is_first_player(self.players@, player_name@, i) ==> r.players@
                    == self.players@.update(
                    i,
                    Player { session: s, ..self.players@[i] },
                ),
            !name_present(self.players@, player_name@) ==> {
                &&& r.players@.len() == self.players@.len() + 1
                &&& forall|k: int|
                    0 <= k < self.players@.len() ==> #[trigger] r.players@[k] == self.players@[k]
                &&& r.players@.last().name@ == player_name@
                &&& r.players@.last().session is Disconnected
                &&& r.players@.last().state is Alive
                &&& r.players@.last().role is Townie
            },
    {
        let name: String = player_name.to_owned();
        let mut lobby = self;
        match find_player(&lobby.players, &name) {
            Some(i) => {
                proof {
                    assert forall|k: int|
                        #[trigger] is_first_player(
                            self.players@,
                            player_name@,
                            k,
                        ) implies k == i as int by {
                        lemma_first_player_unique(self.players@, player_name@, k, i as int);
                    }
                }
                let p = vstd::std_specs::vec::vec_index_mut(&mut lobby.players, i);
                p.session = s;
            },
            None => {
                lobby.players.push(Player::new(name));
            },
        }
        lobby
    }
}

impl Default for LobbyState {
    /// An empty lobby.
    fn default() -> (r: LobbyState)
        ensures
            r.players@.len() == 0,
    {
        LobbyState { players: Vec::new() }
    }
}

} // verus!
