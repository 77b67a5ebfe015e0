//! One turn-based game: its players, its state, its rules.

use vstd::prelude::*;

use crate::gamecore::error::Error;
use crate::gamecore::lobby_state::LobbyState;
use crate::gamecore::night_action::NightAction;
use crate::gamecore::player::{
    find_player,
    is_first_player,
    lemma_first_player_unique,
    name_present,
    Player,
    PlayerName,
};
use crate::gamecore::playing_state::PlayingState;
use crate::gamecore::rules::Rules;

verus! {

/// Whether the game is still gathering players or already in play.
#[derive(Debug)]
pub enum State {
    Lobby(LobbyState),
    Playing(PlayingState),
}

/// Some submitted night action is keyed by `name`.
pub open spec fn action_key_present(
    actions: Seq<(PlayerName, NightAction)>,
    name: Seq<char>,
) -> bool {
    exists|i: int| 0 <= i < actions.len() && #[trigger] actions[i].0@ == name
}

/// `i` is the position of the first submitted action keyed by `name`.
pub open spec fn is_first_action_key(
    actions: Seq<(PlayerName, NightAction)>,
    name: Seq<char>,
    i: int,
) -> bool {
    &&& 0 <= i < actions.len()
    &&& actions[i].0@ == name
    &&& forall|j: int| 0 <= j < i ==> #[trigger] actions[j].0@ != name
}

/// Replaces the action submitted under `name`, or records it afresh:
/// one entry per player, last submission wins.
pub fn update_actions(
    actions: Vec<(PlayerName, NightAction)>,
    name: PlayerName,
    action: NightAction,
) -> (r: Vec<(PlayerName, NightAction)>)
    ensures
        forall|i: int|
            #[trigger] is_first_action_key(actions@, name@, i) ==> r@ == actions@.update(
                i,
                (name, action),
            ),
        !action_key_present(actions@, name@) ==> r@ == actions@.push((name, action)),
        action_key_present(r@, name@),
{
    let mut acts = actions;
    let n = acts.len();
    let mut i: usize = 0;
    while i < n
        invariant
            acts == actions,
            n == acts@.len(),
            0 <= i <= n,
            forall|j: int| 0 <= j < i ==> #[trigger] acts@[j].0@ != name@,
        decreases n - i,
    {
        if acts[i].0 == name {
            proof {
                assert(is_first_action_key(actions@, name@, i as int));
                assert forall|k: int|
                    #[trigger] is_first_action_key(
                        actions@,
                        name@,
                        k,
                    ) implies k == i as int by {
                    if k < i as int {
                        assert(actions@[k].0@ == name@);
                    }
                    if (i as int) < k {
                        assert(actions@[i as int].0@ == name@);
                    }
                }
            }
            let p = vstd::std_specs::vec::vec_index_mut(&mut acts, i);
            *p = (name, action);
            assert(acts@[i as int].0@ == name@);
            return acts;
        }
        i += 1;
    }
    acts.push((name, action));
    assert(acts@.last().0@ == name@);
    acts
}

/// One running game.
#[derive(Debug)]
pub struct Game {
    pub players: Vec<Player>,
    pub state: State,
    pub rules: Rules,
}

impl Game {
    /// Records the night action a player submits: the player must
    /// exist and the action must suit their role; the submission is
    /// bookkept only while a night is in progress, and the game is
    /// otherwise unchanged.
    pub fn take_night_action(self, player_name: PlayerName, action: NightAction) -> (r: Result<
        Game,
        Error,
    >)
        ensures
            !name_present(self.players@, player_name@) ==> (r matches Err(Error::NameNotFound(n))
                && n@ == player_name@),
            forall|i: int|
                #[trigger] is_first_player(self.players@, player_name@, i) ==> {
                    let role = self.players@[i].role;
                    &&& (!crate::gamecore::player::valid_night_action_spec(role, action) ==> (
                    r matches Err(Error::InvalidNightAction(ro, a)) && ro == role && a == action))
                    &&& (crate::gamecore::player::valid_night_action_spec(role, action) ==> (
                    r matches Ok(g) && g.players == self.players && g.rules == self.rules && match self.state {
                        State::Playing(PlayingState::Night { ends_at, actions }) => {
                            &&& g.state matches State::Playing(
                                PlayingState::Night { ends_at: e2, actions: a2 },
                            )
                            &&& e2 == ends_at
                            &&& (forall|k: int|
                                #[trigger] is_first_action_key(actions@, player_name@, k)
                                    ==> a2@ == actions@.update(k, (player_name, action)))
                            &&& (!action_key_present(actions@, player_name@) ==> a2@
                                == actions@.push((player_name, action)))
                        },
                        _ => g.state == self.state,
                    }))
                },
    {
        let i = match find_player(&self.players, &player_name) {
            Some(i) => i,
            None => {
                return Err(Error::NameNotFound(player_name));
            },
        };
        proof {
            assert forall|k: int|
                #[trigger] is_first_player(self.players@, player_name@, k) implies k
                == i as int by {
                lemma_first_player_unique(self.players@, player_name@, k, i as int);
            }
        }
        let role = self.players[i].role;
        if !role.valid_night_action(&action) {
            return Err(Error::InvalidNightAction(role, action));
        }
        let Game { players, state, rules } = self;
        let new_state = match state {
            State::Playing(PlayingState::Night { actions, ends_at }) => {
                let updated = update_actions(actions, player_name, action);
                State::Playing(PlayingState::Night { actions: updated, ends_at })
            },
            other => other,
        };
        Ok(Game { players, state: new_state, rules })
    }
}

impl Default for Game {
    /// A fresh game: nobody has arrived, the lobby is open, default
    /// rules.
    fn default() -> (r: Game)
        ensures
            r.players@.len() == 0,
            r.state matches State::Lobby(l) && l.players@.len() == 0,
            r.rules.morning_duration == 300,
            r.rules.night_duration == 90,
    {
        let rules = Rules::default();
        Game { players: Vec::new(), state: State::Lobby(LobbyState::default()), rules }
    }
}

} // verus!
