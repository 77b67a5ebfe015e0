//! One independent game: an id and the state it owns.

use vstd::prelude::*;

use crate::action::ActionE;
use crate::error::Error;
use crate::player::PlayerName;
use crate::player_connection::PlayerConnection;
use crate::ruleset::Ruleset;
use crate::state::{is_first_named, is_first_secret, name_taken, secret_known, Phase, State};

verus! {

/// One game instance, registered under `id` for its process lifetime.
/// All mutation goes through one owner, one operation at a time.
pub struct Session<PC: PlayerConnection> {
    pub id: String,
    pub state: State<PC>,
}

impl<PC: PlayerConnection> Session<PC> {
    /// The session invariant: roster names and secrets are unique.
    pub open spec fn wf(&self) -> bool {
        self.state.wf()
    }

    /// A fresh session: the host is its first and only player.
    pub fn new(id: String, rules: Ruleset, host: PlayerName, host_secret: String) -> (s: Session<
        PC,
    >)
        ensures
            s.wf(),
            s.id@ == id@,
            s.state.root.day == 1,
            s.state.root.players@.len() == 1,
            s.state.root.players@[0].name@ == host@,
            s.state.root.players@[0].connection is None,
            s.state.root.players@[0].state is Alive,
            s.state.root.players@[0].role is Townie,
            s.state.root.players@[0].secret_key@ == host_secret@,
            s.state.root.rules == rules,
            s.state.root.vote_skip@.len() == 0,
            s.state.root.next_state_time is Some <==> rules.morning_limit is Some,
            s.state.root.host@ == host@,
            s.state.phase is Morning,
    {
        Session { id, state: State::new(rules, host, host_secret) }
    }

    /// Resolves a credential to a player name; see
    /// [`State::get_playername`].
    pub fn get_playername(&self, secret: &str) -> (r: Option<PlayerName>)
        ensures
            r is Some <==> secret_known(self.state.root.players@, secret@),
            r matches Some(n) ==> exists|i: int|
                #[trigger] is_first_secret(self.state.root.players@, secret@, i) && n@
                    == self.state.root.players@[i].name@,
    {
        self.state.get_playername(secret)
    }

    /// The transport registered for `player`, if any; see
    /// [`State::get_connection`].
    pub fn get_connection(&self, player: &str) -> (r: Option<PC>)
        ensures
            r is Some <==> exists|i: int|
                #[trigger] is_first_named(self.state.root.players@, player@, i)
                    && self.state.root.players@[i].connection is Some,
            forall|i: int|
                #[trigger] is_first_named(self.state.root.players@, player@, i) ==> match (
                r,
                self.state.root.players@[i].connection,
            ) {
                    (Some(c), Some(pc)) => vstd::pervasive::cloned(pc, c),
                    (None, None) => true,
                    _ => false,
                },
    {
        self.state.get_connection(player)
    }

    /// Attaches or clears the transport of `player`; see
    /// [`State::register_connection`].
    pub fn register_connection(&mut self, player: PlayerName, conn: Option<PC>)
        ensures
            final(self).id == old(self).id,
            !name_taken(old(self).state.root.players@, player@) ==> *final(self) == *old(self),
            forall|i: int|
                #[trigger] is_first_named(old(self).state.root.players@, player@, i)
                    ==> final(self).state.root.players@ == old(self).state.root.players@.update(
                    i,
                    crate::state::with_connection(old(self).state.root.players@[i], conn),
                ),
            final(self).state.root.day == old(self).state.root.day,
            final(self).state.root.rules == old(self).state.root.rules,
            final(self).state.root.vote_skip == old(self).state.root.vote_skip,
            final(self).state.root.next_state_time == old(self).state.root.next_state_time,
            final(self).state.root.host == old(self).state.root.host,
            final(self).state.phase == old(self).state.phase,
            old(self).wf() ==> final(self).wf(),
    {
        self.state.register_connection(player, conn)
    }

    /// Adds a player, or fails if the name is taken or the secret is
    /// already held; see [`State::create_user`].
    pub fn create_user(&mut self, player: PlayerName, secret: String) -> (r: Result<(), Error>)
        ensures
            final(self).id == old(self).id,
            name_taken(old(self).state.root.players@, player@) ==> (r matches Err(
                Error::PlayerNameTaken(n),
            ) && n@ == player@ && *final(self) == *old(self)),
            !name_taken(old(self).state.root.players@, player@) && secret_known(
                old(self).state.root.players@,
                secret@,
            ) ==> (r matches Err(Error::InvalidSecret) && *final(self) == *old(self)),
            !name_taken(old(self).state.root.players@, player@) && !secret_known(
                old(self).state.root.players@,
                secret@,
            ) ==> {
                &&& r is Ok
                &&& final(self).state.root.players@.len() == old(
                    self,
                ).state.root.players@.len() + 1
                &&& forall|k: int|
                    0 <= k < old(self).state.root.players@.len()
                        ==> #[trigger] final(self).state.root.players@[k] == old(
                        self,
                    ).state.root.players@[k]
                &&& final(self).state.root.players@.last().name@ == player@
                &&& final(self).state.root.players@.last().connection is None
                &&& final(self).state.root.players@.last().state is Alive
                &&& final(self).state.root.players@.last().role is Townie
                &&& final(self).state.root.players@.last().secret_key@ == secret@
            },
            final(self).state.phase == old(self).state.phase,
            old(self).wf() ==> final(self).wf(),
    {
        self.state.create_user(player, secret)
    }

    /// Dispatches an action to the active phase; see
    /// [`State::handle_action`].
    pub fn handle_action(&mut self, player: PlayerName, act: ActionE) -> (r: Result<(), Error>)
        ensures
            *final(self) == *old(self),
            old(self).state.phase is Morning ==> {
                &&& (r is Ok <==> name_taken(old(self).state.root.players@, player@))
                &&& !name_taken(old(self).state.root.players@, player@) ==> (r matches Err(
                    Error::InvalidPlayerName(n),
                ) && n@ == player@)
            },
            !(old(self).state.phase is Morning) ==> r matches Err(Error::WrongStateForAction),
    {
        self.state.handle_action(player, act)
    }

    /// Advances an expired phase if `expected` is still active; see
    /// [`State::advance_at`]. A stale signal has no effect.
    pub fn advance_at(&mut self, expected: &Phase, now: i64)
        ensures
            !old(self).state.phase.same_phase_spec(expected) ==> *final(self) == *old(self),
            old(self).state.phase.same_phase_spec(expected) && old(self).state.phase is Morning
                ==> {
                &&& final(self).id == old(self).id
                &&& final(self).state.phase matches Phase::Vote(v) && v.votes@.len() == 0
                &&& final(self).state.root.players == old(self).state.root.players
                &&& final(self).state.root.vote_skip@.len() == 0
                &&& final(self).state.root.next_state_time == old(
                    self,
                ).state.root.rules.vote_end_spec(now)
            },
            old(self).state.phase.same_phase_spec(expected) && !(old(self).state.phase is Morning)
                ==> *final(self) == *old(self),
            old(self).wf() ==> final(self).wf(),
    {
        self.state.advance_at(expected, now)
    }
}

} // verus!
