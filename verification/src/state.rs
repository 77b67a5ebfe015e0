//! A session's durable state: the roster, the rules, and the active
//! phase.

use vstd::prelude::*;

use crate::action::ActionE;
use crate::clock::now_ts;
use crate::error::Error;
use crate::phases::{Evening, LastWords, Lobby, Morning, Night, Vote};
use crate::player::{Player, PlayerName};
use crate::player_connection::PlayerConnection;
use crate::ruleset::Ruleset;

verus! {

/// Some player of `players` bears `name`.
pub open spec fn name_taken<PC: PlayerConnection>(
    players: Seq<Player<PC>>,
    name: Seq<char>,
) -> bool {
    exists|i: int| 0 <= i < players.len() && #[trigger] players[i].name@ == name
}

/// No two players of `players` share a name.
pub open spec fn names_unique<PC: PlayerConnection>(players: Seq<Player<PC>>) -> bool {
    forall|i: int, j: int|
        0 <= i < j < players.len() ==> #[trigger] players[i].name@ != #[trigger] players[j].name@
}

/// No two players of `players` hold the same secret.
pub open spec fn secrets_unique<PC: PlayerConnection>(players: Seq<Player<PC>>) -> bool {
    forall|i: int, j: int|
        0 <= i < j < players.len() ==> #[trigger] players[i].secret_key@
            != #[trigger] players[j].secret_key@
}

/// Some player of `players` holds `secret`.
pub open spec fn secret_known<PC: PlayerConnection>(
    players: Seq<Player<PC>>,
    secret: Seq<char>,
) -> bool {
    exists|i: int| 0 <= i < players.len() && #[trigger] players[i].secret_key@ == secret
}

/// `i` is the position of the first player bearing `name`.
pub open spec fn is_first_named<PC: PlayerConnection>(
    players: Seq<Player<PC>>,
    name: Seq<char>,
    i: int,
) -> bool {
    &&& 0 <= i < players.len()
    &&& players[i].name@ == name
    &&& forall|j: int| 0 <= j < i ==> #[trigger] players[j].name@ != name
}

/// `i` is the position of the first player holding `secret`.
pub open spec fn is_first_secret<PC: PlayerConnection>(
    players: Seq<Player<PC>>,
    secret: Seq<char>,
    i: int,
) -> bool {
    &&& 0 <= i < players.len()
    &&& players[i].secret_key@ == secret
    &&& forall|j: int| 0 <= j < i ==> #[trigger] players[j].secret_key@ != secret
}

/// `p` with its transport handle replaced by `conn`.
pub open spec fn with_connection<PC: PlayerConnection>(
    p: Player<PC>,
    conn: Option<PC>,
) -> Player<PC> {
    Player { connection: conn, ..p }
}

/// The position of the first player of `players` bearing `name`, if
/// any.
pub fn find_first_named<PC: PlayerConnection>(players: &Vec<Player<PC>>, name: &String) -> (r:
    Option<usize>)
    ensures
        match r {
            Some(i) => is_first_named(players@, name@, i as int),
            None => !name_taken(players@, name@),
        },
{
    let n = players.len();
    let mut i: usize = 0;
    while i < n
        invariant
            n == players@.len(),
            0 <= i <= n,
            forall|j: int| 0 <= j < i ==> #[trigger] players@[j].name@ != name@,
        decreases n - i,
    {
        if players[i].name == *name {
            return Some(i);
        }
        i += 1;
    }
    None
}

/// Whether any player of `players` already holds `secret`.
fn secret_held<PC: PlayerConnection>(players: &Vec<Player<PC>>, secret: &String) -> (b: bool)
    ensures
        b == secret_known(players@, secret@),
{
    let n = players.len();
    let mut i: usize = 0;
    while i < n
        invariant
            n == players@.len(),
            0 <= i <= n,
            forall|j: int| 0 <= j < i ==> #[trigger] players@[j].secret_key@ != secret@,
        decreases n - i,
    {
        if players[i].secret_key == *secret {
            return true;
        }
        i += 1;
    }
    false
}

/// The phase-independent state of one game.
pub struct RootState<PC: PlayerConnection> {
    /// Day counter, starting at 1.
    pub day: u32,
    /// The roster, in insertion order. Names are unique within it.
    pub players: Vec<Player<PC>>,
    pub rules: Ruleset,
    /// Who has asked to skip the vote. No name appears twice.
    pub vote_skip: Vec<PlayerName>,
    /// When the active phase expires, in seconds since the epoch, if it
    /// expires at all.
    pub next_state_time: Option<i64>,
    /// The player who created the session.
    pub host: PlayerName,
}

/// The root state together with the active phase. The two are replaced
/// together, atomically, as the result of one action or one timeout.
pub struct State<PC: PlayerConnection> {
    pub root: RootState<PC>,
    pub phase: Phase,
}

impl<PC: PlayerConnection> State<PC> {
    /// The session invariant: roster names are unique, and secrets are
    /// unique — one secret resolves to one player.
    pub open spec fn wf(&self) -> bool {
        names_unique(self.root.players@) && secrets_unique(self.root.players@)
    }

    /// A fresh game whose clock was read as `now`: day 1, the host as
    /// sole player, the opening phase, and the morning deadline.
    pub fn new_at(rules: Ruleset, host_name: PlayerName, host_secret: String, now: i64) -> (s:
        State<PC>)
        ensures
            s.wf(),
            s.root.day == 1,
            s.root.players@.len() == 1,
            s.root.players@[0].name@ == host_name@,
            s.root.players@[0].connection is None,
            s.root.players@[0].state is Alive,
            s.root.players@[0].role is Townie,
            s.root.players@[0].secret_key@ == host_secret@,
            s.root.rules == rules,
            s.root.vote_skip@.len() == 0,
            s.root.next_state_time == rules.morning_end_spec(now),
            s.root.host@ == host_name@,
            s.phase is Morning,
    {
        let next_state_time = rules.morning_end_at(now);
        let phase = rules.init_phase();
        let host: Player<PC> = Player::new(host_name.clone(), host_secret);
        let mut players: Vec<Player<PC>> = Vec::new();
        players.push(host);
        State {
            root: RootState {
                day: 1,
                players,
                rules,
                vote_skip: Vec::new(),
                next_state_time,
                host: host_name,
            },
            phase,
        }
    }

    /// A fresh game, its deadline computed from the wall clock.
    pub fn new(rules: Ruleset, host_name: PlayerName, host_secret: String) -> (s: State<PC>)
        ensures
            s.wf(),
            s.root.day == 1,
            s.root.players@.len() == 1,
            s.root.players@[0].name@ == host_name@,
            s.root.players@[0].connection is None,
            s.root.players@[0].state is Alive,
            s.root.players@[0].role is Townie,
            s.root.players@[0].secret_key@ == host_secret@,
            s.root.rules == rules,
            s.root.vote_skip@.len() == 0,
            s.root.next_state_time is Some <==> rules.morning_limit is Some,
            exists|now: i64| s.root.next_state_time == rules.morning_end_spec(now),
            s.root.host@ == host_name@,
            s.phase is Morning,
    {
        let now: i64 = now_ts();
        Self::new_at(rules, host_name, host_secret, now)
    }

    /// Resolves a credential to the name of the first player holding it.
    /// Secrets are never revoked, so `None` means the secret was never
    /// issued for this session.
    pub fn get_playername(&self, secret: &str) -> (r: Option<PlayerName>)
        ensures
            r is Some <==> secret_known(self.root.players@, secret@),
            r matches Some(n) ==> exists|i: int|
                #[trigger] is_first_secret(self.root.players@, secret@, i) && n@
                    == self.root.players@[i].name@,
    {
        let sec: String = secret.to_owned();
        let n = self.root.players.len();
        let mut i: usize = 0;
        while i < n
            invariant
                n == self.root.players@.len(),
                0 <= i <= n,
                sec@ == secret@,
                forall|j: int| 0 <= j < i ==> #[trigger] self.root.players@[j].secret_key@ != sec@,
            decreases n - i,
        {
            if self.root.players[i].secret_key == sec {
                assert(is_first_secret(self.root.players@, secret@, i as int));
                return Some(self.root.players[i].name.clone());
            }
            i += 1;
        }
        None
    }

    /// The transport handle of the first player bearing `player_name`,
    /// if that player exists and has one registered.
    pub fn get_connection(&self, player_name: &str) -> (r: Option<PC>)
        ensures
            r is Some <==> exists|i: int|
                #[trigger] is_first_named(self.root.players@, player_name@, i)
                    && self.root.players@[i].connection is Some,
            forall|i: int|
                #[trigger] is_first_named(self.root.players@, player_name@, i) ==> match (
                r,
                self.root.players@[i].connection,
            ) {
                    (Some(c), Some(pc)) => vstd::pervasive::cloned(pc, c),
                    (None, None) => true,
                    _ => false,
                },
    {
        let name: String = player_name.to_owned();
        match find_first_named(&self.root.players, &name) {
            Some(i) => {
                proof {
                    assert forall|k: int|
                        #[trigger] is_first_named(
                            self.root.players@,
                            player_name@,
                            k,
                        ) implies k == i as int by {
                        lemma_first_named_unique(self.root.players@, player_name@, k, i as int);
                    }
                }
                match &self.root.players[i].connection {
                    Some(c) => Some(c.clone()),
                    None => None,
                }
            },
            None => None,
        }
    }

    /// Attaches (or, with `None`, clears) the transport handle of the
    /// first player bearing `player_name`. A name not in the roster is
    /// silently ignored: that is the common reconnect race, not an
    /// error.
    pub fn register_connection(&mut self, player_name: PlayerName, conn: Option<PC>)
        ensures
            !name_taken(old(self).root.players@, player_name@) ==> *final(self) == *old(self),
            forall|i: int|
                #[trigger] is_first_named(old(self).root.players@, player_name@, i)
                    ==> final(self).root.players@ == old(self).root.players@.update(
                    i,
                    with_connection(old(self).root.players@[i], conn),
                ),
            final(self).root.day == old(self).root.day,
            final(self).root.rules == old(self).root.rules,
            final(self).root.vote_skip == old(self).root.vote_skip,
            final(self).root.next_state_time == old(self).root.next_state_time,
            final(self).root.host == old(self).root.host,
            final(self).phase == old(self).phase,
            final(self).root.players@.len() == old(self).root.players@.len(),
            forall|k: int|
                0 <= k < old(self).root.players@.len()
                    ==> #[trigger] final(self).root.players@[k].name@
                    == old(self).root.players@[k].name@,
            old(self).wf() ==> final(self).wf(),
    {
        match find_first_named(&self.root.players, &player_name) {
            Some(i) => {
                proof {
                    assert forall|k: int|
                        #[trigger] is_first_named(
                            old(self).root.players@,
                            player_name@,
                            k,
                        ) implies k == i as int by {
                        lemma_first_named_unique(
                            old(self).root.players@,
                            player_name@,
                            k,
                            i as int,
                        );
                    }
                }
                let p = vstd::std_specs::vec::vec_index_mut(&mut self.root.players, i);
                p.connection = conn;
            },
            None => {},
        }
    }

    /// Appends a fresh player, or fails: a name already present
    /// (case-sensitive exact match) is refused as taken, and a secret
    /// already held by another player is refused as invalid, keeping
    /// secrets one-to-one with names. The roster is otherwise
    /// untouched.
    pub fn create_user(&mut self, player_name: PlayerName, secret: String) -> (r: Result<
        (),
        Error,
    >)
        ensures
            name_taken(old(self).root.players@, player_name@) ==> (r matches Err(
                Error::PlayerNameTaken(n),
            ) && n@ == player_name@ && *final(self) == *old(self)),
            !name_taken(old(self).root.players@, player_name@) && secret_known(
                old(self).root.players@,
                secret@,
            ) ==> (r matches Err(Error::InvalidSecret) && *final(self) == *old(self)),
            !name_taken(old(self).root.players@, player_name@) && !secret_known(
                old(self).root.players@,
                secret@,
            ) ==> {
                &&& r is Ok
                &&& final(self).root.players@.len() == old(self).root.players@.len() + 1
                &&& forall|k: int|
                    0 <= k < old(self).root.players@.len()
                        ==> #[trigger] final(self).root.players@[k]
                        == old(self).root.players@[k]
                &&& final(self).root.players@.last().name@ == player_name@
                &&& final(self).root.players@.last().connection is None
                &&& final(self).root.players@.last().state is Alive
                &&& final(self).root.players@.last().role is Townie
                &&& final(self).root.players@.last().secret_key@ == secret@
            },
            final(self).root.day == old(self).root.day,
            final(self).root.rules == old(self).root.rules,
            final(self).root.vote_skip == old(self).root.vote_skip,
            final(self).root.next_state_time == old(self).root.next_state_time,
            final(self).root.host == old(self).root.host,
            final(self).phase == old(self).phase,
            old(self).wf() ==> final(self).wf(),
    {
        match find_first_named(&self.root.players, &player_name) {
            Some(_) => Err(Error::PlayerNameTaken(player_name)),
            None => {
                if secret_held(&self.root.players, &secret) {
                    Err(Error::InvalidSecret)
                } else {
                    let player: Player<PC> = Player::new(player_name, secret);
                    self.root.players.push(player);
                    Ok(())
                }
            },
        }
    }

    /// Dispatches one player action to the active phase's handler. The
    /// morning phase broadcasts messages; every other phase refuses
    /// actions outright, and the state is never touched either way.
    pub fn handle_action(&mut self, player_name: PlayerName, act: ActionE) -> (r: Result<
        (),
        Error,
    >)
        ensures
            *final(self) == *old(self),
            old(self).phase is Morning ==> {
                &&& (r is Ok <==> name_taken(old(self).root.players@, player_name@))
                &&& !name_taken(old(self).root.players@, player_name@) ==> (r matches Err(
                    Error::InvalidPlayerName(n),
                ) && n@ == player_name@)
            },
            !(old(self).phase is Morning) ==> r matches Err(Error::WrongStateForAction),
    {
        match &self.phase {
            Phase::Morning(_) => {
                match act {
                    ActionE::Message(m) => crate::util::message_basic(
                        player_name.as_str(),
                        m,
                        &self.root.players,
                    ),
                }
            },
            _ => Err(Error::WrongStateForAction),
        }
    }

    /// Advances the phase that expired at `now`, but only if `expected`
    /// — the phase that scheduled the timeout — is still the active
    /// phase: a stale or duplicate timeout signal has no effect at all.
    /// Leaving the morning installs the vote with an empty tally,
    /// resets the vote-skip set and schedules the vote deadline; the
    /// transitions beyond the vote are left to the ruleset and
    /// currently keep the state as it is.
    pub fn advance_at(&mut self, expected: &Phase, now: i64)
        ensures
            !old(self).phase.same_phase_spec(expected) ==> *final(self) == *old(self),
            old(self).phase.same_phase_spec(expected) && old(self).phase is Morning ==> {
                &&& final(self).phase matches Phase::Vote(v) && v.votes@.len() == 0
                &&& final(self).root.day == old(self).root.day
                &&& final(self).root.players == old(self).root.players
                &&& final(self).root.rules == old(self).root.rules
                &&& final(self).root.vote_skip@.len() == 0
                &&& final(self).root.next_state_time == old(self).root.rules.vote_end_spec(now)
                &&& final(self).root.host == old(self).root.host
            },
            old(self).phase.same_phase_spec(expected) && !(old(self).phase is Morning)
                ==> *final(self) == *old(self),
            old(self).wf() ==> final(self).wf(),
    {
        if self.phase.same_phase(expected) {
            match &self.phase {
                Phase::Morning(_) => {
                    let next = self.root.rules.vote_end_at(now);
                    self.root.vote_skip = Vec::new();
                    self.root.next_state_time = next;
                    self.phase = Phase::Vote(Vote { votes: Vec::new() });
                },
                _ => {},
            }
        }
    }

    /// As [`State::advance_at`], with the expiry time read off the wall
    /// clock.
    pub fn advance(&mut self, expected: &Phase)
        ensures
            !old(self).phase.same_phase_spec(expected) ==> *final(self) == *old(self),
            old(self).phase.same_phase_spec(expected) && old(self).phase is Morning ==> {
                &&& final(self).phase matches Phase::Vote(v) && v.votes@.len() == 0
                &&& final(self).root.day == old(self).root.day
                &&& final(self).root.players == old(self).root.players
                &&& final(self).root.rules == old(self).root.rules
                &&& final(self).root.vote_skip@.len() == 0
                &&& exists|now: i64|
                    final(self).root.next_state_time == old(self).root.rules.vote_end_spec(now)
                &&& final(self).root.host == old(self).root.host
            },
            old(self).phase.same_phase_spec(expected) && !(old(self).phase is Morning)
                ==> *final(self) == *old(self),
            old(self).wf() ==> final(self).wf(),
    {
        let now: i64 = now_ts();
        self.advance_at(expected, now);
    }
}

/// Credential resolution law: extend a roster with a player holding a
/// secret nobody held before, and that secret resolves to the new
/// player — the first position holding it is the new player's, so
/// looking the secret up yields the new player's name. A secret nobody
/// holds resolves to nothing, by the resolution contract itself.
pub proof fn lemma_fresh_secret_resolves<PC: PlayerConnection>(
    players: Seq<Player<PC>>,
    p: Player<PC>,
    i: int,
)
    requires
        !secret_known(players, p.secret_key@),
        is_first_secret(players.push(p), p.secret_key@, i),
    ensures
        i == players.len(),
        players.push(p)[i].name@ == p.name@,
{
    if i < players.len() {
        assert(players.push(p)[i] == players[i]);
        assert(players[i].secret_key@ == p.secret_key@);
        assert(secret_known(players, p.secret_key@));
    }
    assert(players.push(p)[i] == p);
}

/// The first position bearing a name is unique.
pub proof fn lemma_first_named_unique<PC: PlayerConnection>(
    players: Seq<Player<PC>>,
    name: Seq<char>,
    i: int,
    j: int,
)
    requires
        is_first_named(players, name, i),
        is_first_named(players, name, j),
    ensures
        i == j,
{
    if i < j {
        assert(players[i].name@ == name);
    }
    if j < i {
        assert(players[j].name@ == name);
    }
}

/// The tagged union of the six phases; exactly one is active per
/// session.
pub enum Phase {
    Lobby(Lobby),
    Morning(Morning),
    Vote(Vote),
    LastWords(LastWords),
    Evening(Evening),
    Night(Night),
}

impl Phase {
    /// Structural-by-variant phase identity, ignoring payload. Used
    /// solely to validate that a timeout signal still concerns the
    /// active phase, never for business logic.
    pub open spec fn same_phase_spec(&self, other: &Phase) -> bool {
        match (self, other) {
            (Phase::Lobby(_), Phase::Lobby(_)) => true,
            (Phase::Morning(_), Phase::Morning(_)) => true,
            (Phase::Vote(_), Phase::Vote(_)) => true,
            (Phase::LastWords(_), Phase::LastWords(_)) => true,
            (Phase::Evening(_), Phase::Evening(_)) => true,
            (Phase::Night(_), Phase::Night(_)) => true,
            _ => false,
        }
    }

    /// Whether `self` and `other` are the same phase variant.
    pub fn same_phase(&self, other: &Phase) -> (b: bool)
        ensures
            b == self.same_phase_spec(other),
    {
        match (self, other) {
            (Phase::Lobby(_), Phase::Lobby(_)) => true,
            (Phase::Morning(_), Phase::Morning(_)) => true,
            (Phase::Vote(_), Phase::Vote(_)) => true,
            (Phase::LastWords(_), Phase::LastWords(_)) => true,
            (Phase::Evening(_), Phase::Evening(_)) => true,
            (Phase::Night(_), Phase::Night(_)) => true,
            (Phase::Lobby(_), _) => false,
            (Phase::Morning(_), _) => false,
            (Phase::Vote(_), _) => false,
            (Phase::LastWords(_), _) => false,
            (Phase::Evening(_), _) => false,
            (Phase::Night(_), _) => false,
        }
    }
}

impl From<Lobby> for Phase {
    fn from(s: Lobby) -> (p: Phase) {
        Phase::Lobby(s)
    }
}

impl vstd::std_specs::convert::FromSpecImpl<Lobby> for Phase {
    open spec fn obeys_from_spec() -> bool {
        true
    }

    open spec fn from_spec(s: Lobby) -> Phase {
        Phase::Lobby(s)
    }
}

impl From<Morning> for Phase {
    fn from(s: Morning) -> (p: Phase) {
        Phase::Morning(s)
    }
}

impl vstd::std_specs::convert::FromSpecImpl<Morning> for Phase {
    open spec fn obeys_from_spec() -> bool {
        true
    }

    open spec fn from_spec(s: Morning) -> Phase {
        Phase::Morning(s)
    }
}

impl From<Vote> for Phase {
    fn from(s: Vote) -> (p: Phase) {
        Phase::Vote(s)
    }
}

impl vstd::std_specs::convert::FromSpecImpl<Vote> for Phase {
    open spec fn obeys_from_spec() -> bool {
        true
    }

    open spec fn from_spec(s: Vote) -> Phase {
        Phase::Vote(s)
    }
}

impl From<LastWords> for Phase {
    fn from(s: LastWords) -> (p: Phase) {
        Phase::LastWords(s)
    }
}

impl vstd::std_specs::convert::FromSpecImpl<LastWords> for Phase {
    open spec fn obeys_from_spec() -> bool {
        true
    }

    open spec fn from_spec(s: LastWords) -> Phase {
        Phase::LastWords(s)
    }
}

impl From<Evening> for Phase {
    fn from(s: Evening) -> (p: Phase) {
        Phase::Evening(s)
    }
}

impl vstd::std_specs::convert::FromSpecImpl<Evening> for Phase {
    open spec fn obeys_from_spec() -> bool {
        true
    }

    open spec fn from_spec(s: Evening) -> Phase {
        Phase::Evening(s)
    }
}

impl From<Night> for Phase {
    fn from(s: Night) -> (p: Phase) {
        Phase::Night(s)
    }
}

impl vstd::std_specs::convert::FromSpecImpl<Night> for Phase {
    open spec fn obeys_from_spec() -> bool {
        true
    }

    open spec fn from_spec(s: Night) -> Phase {
        Phase::Night(s)
    }
}

} // verus!
