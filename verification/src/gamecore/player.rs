//! Players of the turn-based game model: liveness, role, and what each
//! role may do at night.

use vstd::prelude::*;

use crate::gamecore::night_action::NightAction;
use crate::gamecore::session::Session;

verus! {

/// A player is keyed by name within a game.
pub type PlayerName = String;

/// In-game liveness.
#[derive(Copy, Clone, Debug, PartialEq, Eq, Hash, Structural)]
pub enum PlayerState {
    Alive,
    Dead,
}

impl PlayerState {
    pub fn is_alive(self) -> (b: bool)
        ensures
            b == (self is Alive),
    {
        self == PlayerState::Alive
    }

    pub fn is_dead(self) -> (b: bool)
        ensures
            b == (self is Dead),
    {
        self == PlayerState::Dead
    }
}

impl Default for PlayerState {
    /// Players start the game alive.
    fn default() -> (r: PlayerState)
        ensures
            r is Alive,
    {
        PlayerState::Alive
    }
}

/// The part a player was dealt.
#[derive(Copy, Clone, Debug, PartialEq, Eq, Hash, Structural)]
pub enum PlayerRole {
    Townie,
    Mafioso,
    Doctor,
    Detective,
    Bartender,
}

impl PlayerRole {
    /// Whether the role sides with the town: every role but the mafia.
    pub fn is_town(self) -> (b: bool)
        ensures
            b == !(self is Mafioso),
    {
        match self {
            PlayerRole::Townie | PlayerRole::Doctor | PlayerRole::Detective
                | PlayerRole::Bartender => true,
            _ => false,
        }
    }

    /// Whether the role sides with the mafia.
    pub fn is_mafia(self) -> (b: bool)
        ensures
            b == (self is Mafioso),
    {
        match self {
            PlayerRole::Mafioso => true,
            _ => false,
        }
    }

    /// Which night actions the role admits; see
    /// [`valid_night_action_spec`].
    pub fn valid_night_action(self, action: &NightAction) -> (b: bool)
        ensures
            b == valid_night_action_spec(self, *action),
    {
        match action {
            NightAction::Idle => true,
            NightAction::Investigate(_) => self == PlayerRole::Detective,
            NightAction::Save(_) => self == PlayerRole::Doctor,
            NightAction::Negate(_) => self == PlayerRole::Bartender,
            NightAction::Vote(_) => self.is_mafia(),
        }
    }
}

/// Role legality of night actions: anyone may sit out; investigating is
/// the detective's, saving the doctor's, negating the bartender's, and
/// the night vote the mafia's.
pub open spec fn valid_night_action_spec(role: PlayerRole, action: NightAction) -> bool {
    match action {
        NightAction::Idle => true,
        NightAction::Investigate(_) => role is Detective,
        NightAction::Save(_) => role is Doctor,
        NightAction::Negate(_) => role is Bartender,
        NightAction::Vote(_) => role is Mafioso,
    }
}

impl Default for PlayerRole {
    /// New players start as plain townsfolk.
    fn default() -> (r: PlayerRole)
        ensures
            r is Townie,
    {
        PlayerRole::Townie
    }
}

/// One game participant.
#[derive(Debug, Hash)]
pub struct Player {
    pub name: PlayerName,
    pub session: Session,
    pub state: PlayerState,
    pub role: PlayerRole,
}

impl Player {
    /// A fresh player: alive, unattached, default role.
    pub fn new(name: PlayerName) -> (p: Player)
        ensures
            p.name@ == name@,
            p.session is Disconnected,
            p.state is Alive,
            p.role is Townie,
    {
        Player {
            name,
            state: PlayerState::Alive,
            session: Session::Disconnected,
            role: PlayerRole::Townie,
        }
    }

    /// The same player, attached to `session`.
    pub fn set_session(self, session: Session) -> (p: Player)
        ensures
            p.name == self.name,
            p.session == session,
            p.state == self.state,
            p.role == self.role,
    {
        Player { session, ..self }
    }

    /// The same player, with liveness `state`.
    pub fn set_state(self, state: PlayerState) -> (p: Player)
        ensures
            p.name == self.name,
            p.session == self.session,
            p.state == state,
            p.role == self.role,
    {
        Player { state, ..self }
    }

    /// The same player, dealt `role`.
    pub fn set_role(self, role: PlayerRole) -> (p: Player)
        ensures
            p.name == self.name,
            p.session == self.session,
            p.state == self.state,
            p.role == role,
    {
        Player { role, ..self }
    }
}

/// Some player of `players` bears `name`.
pub open spec fn name_present(players: Seq<Player>, name: Seq<char>) -> bool {
    exists|i: int| 0 <= i < players.len() && #[trigger] players[i].name@ == name
}

/// `i` is the position of the first player bearing `name`.
pub open spec fn is_first_player(players: Seq<Player>, name: Seq<char>, i: int) -> bool {
    &&& 0 <= i < players.len()
    &&& players[i].name@ == name
    &&& forall|j: int| 0 <= j < i ==> #[trigger] players[j].name@ != name
}

/// The position of the first player of `players` bearing `name`, if
/// any.
pub fn find_player(players: &Vec<Player>, name: &String) -> (r: Option<usize>)
    ensures
        match r {
            Some(i) => is_first_player(players@, name@, i as int),
            None => !name_present(players@, name@),
        },
{
    let n = players.len();
    let mut i: usize = 0;
    while i < n
        invariant
            n == players@.len(),
            0 <= i <= n,
            forall|j: int| 0 <= j < i ==> #[trigger] players@[j].name@ != name@,
        decreases n - i,
    {
        if players[i].name == *name {
            return Some(i);
        }
        i += 1;
    }
    None
}

/// The first position bearing a name is unique.
pub proof fn lemma_first_player_unique(players: Seq<Player>, name: Seq<char>, i: int, j: int)
    requires
        is_first_player(players, name, i),
        is_first_player(players, name, j),
    ensures
        i == j,
{
    if i < j {
        assert(players[i].name@ == name);
    }
    if j < i {
        assert(players[j].name@ == name);
    }
}

} // verus!
