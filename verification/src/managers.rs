//! Process-wide registries: transport connections by id, sessions by
//! id, and the operations a front end drives them with.

use vstd::prelude::*;

use crate::action::ActionE;
use crate::error::Error;
use crate::player::PlayerName;
use crate::player_connection::PlayerConnection;
use crate::ruleset::Ruleset;
use crate::session::Session;
use crate::state::{is_first_named, is_first_secret, name_taken, secret_known, with_connection};
use crate::uid::gen_uuid;

verus! {

/// Some entry of `entries` is keyed by `id`.
pub open spec fn conn_id_taken<H>(entries: Seq<(String, H)>, id: Seq<char>) -> bool {
    exists|i: int| 0 <= i < entries.len() && #[trigger] entries[i].0@ == id
}

/// `i` is the position of the first entry keyed by `id`.
pub open spec fn is_first_conn_id<H>(entries: Seq<(String, H)>, id: Seq<char>, i: int) -> bool {
    &&& 0 <= i < entries.len()
    &&& entries[i].0@ == id
    &&& forall|j: int| 0 <= j < i ==> #[trigger] entries[j].0@ != id
}

/// Pure bookkeeping: connection id to the handle of the owning
/// connection entity. Ids are freshly generated per connection, so
/// inserting cannot collide in practice; inserting an existing id
/// overwrites nonetheless.
pub struct ConnectionManager<H> {
    pub connections: Vec<(String, H)>,
}

impl<H> ConnectionManager<H> {
    /// The registry invariant: connection ids are unique.
    pub open spec fn wf(&self) -> bool {
        forall|i: int, j: int|
            0 <= i < j < self.connections@.len() ==> #[trigger] self.connections@[i].0@
                != #[trigger] self.connections@[j].0@
    }

    /// The position of the first entry keyed by `id`, if any.
    fn find(entries: &Vec<(String, H)>, id: &String) -> (r: Option<usize>)
        ensures
            match r {
                Some(i) => is_first_conn_id(entries@, id@, i as int),
                None => !conn_id_taken(entries@, id@),
            },
    {
        let n = entries.len();
        let mut i: usize = 0;
        while i < n
            invariant
                n == entries@.len(),
                0 <= i <= n,
                forall|j: int| 0 <= j < i ==> #[trigger] entries@[j].0@ != id@,
            decreases n - i,
        {
            if entries[i].0 == *id {
                return Some(i);
            }
            i += 1;
        }
        None
    }

    /// Registers `addr` under `id`, overwriting any previous entry
    /// under that id.
    pub fn connect(&mut self, id: String, addr: H)
        ensures
            !conn_id_taken(old(self).connections@, id@)
                ==> final(self).connections@ == old(self).connections@.push((id, addr)),
            forall|i: int|
                #[trigger] is_first_conn_id(old(self).connections@, id@, i)
                    ==> final(self).connections@ == old(self).connections@.update(i, (id, addr)),
            conn_id_taken(final(self).connections@, id@),
            old(self).wf() ==> final(self).wf(),
    {
        match Self::find(&self.connections, &id) {
            Some(i) => {
                proof {
                    assert forall|k: int|
                        #[trigger] is_first_conn_id(
                            old(self).connections@,
                            id@,
                            k,
                        ) implies k == i as int by {
                        if k < i as int {
                            assert(old(self).connections@[k].0@ == id@);
                        }
                        if (i as int) < k {
                            assert(old(self).connections@[i as int].0@ == id@);
                        }
                    }
                }
                let p = vstd::std_specs::vec::vec_index_mut(&mut self.connections, i);
                *p = (id, addr);
                assert(final(self).connections@[i as int].0@ == id@);
            },
            None => {
                self.connections.push((id, addr));
                assert(final(self).connections@.last().0@ == id@);
            },
        }
    }

    /// Removes the entry under `id`; removing an absent id is a no-op,
    /// not an error.
    pub fn disconnect(&mut self, id: &str)
        ensures
            !conn_id_taken(old(self).connections@, id@) ==> *final(self) == *old(self),
            forall|i: int|
                #[trigger] is_first_conn_id(old(self).connections@, id@, i)
                    ==> final(self).connections@ == old(self).connections@.remove(i),
            old(self).wf() ==> final(self).wf(),
    {
        let key: String = id.to_owned();
        match Self::find(&self.connections, &key) {
            Some(i) => {
                proof {
                    assert forall|k: int|
                        #[trigger] is_first_conn_id(
                            old(self).connections@,
                            id@,
                            k,
                        ) implies k == i as int by {
                        if k < i as int {
                            assert(old(self).connections@[k].0@ == id@);
                        }
                        if (i as int) < k {
                            assert(old(self).connections@[i as int].0@ == id@);
                        }
                    }
                }
                self.connections.remove(i);
            },
            None => {},
        }
    }
}

impl<H> Default for ConnectionManager<H> {
    /// An empty registry.
    fn default() -> (r: ConnectionManager<H>)
        ensures
            r.connections@.len() == 0,
    {
        ConnectionManager { connections: Vec::new() }
    }
}

/// Some session of `sessions` is registered under `id`.
pub open spec fn sid_taken<PC: PlayerConnection>(
    sessions: Seq<Session<PC>>,
    id: Seq<char>,
) -> bool {
    exists|i: int| 0 <= i < sessions.len() && #[trigger] sessions[i].id@ == id
}

/// `i` is the position of the first session registered under `id`.
pub open spec fn is_first_sid<PC: PlayerConnection>(
    sessions: Seq<Session<PC>>,
    id: Seq<char>,
    i: int,
) -> bool {
    &&& 0 <= i < sessions.len()
    &&& sessions[i].id@ == id
    &&& forall|j: int| 0 <= j < i ==> #[trigger] sessions[j].id@ != id
}

/// What a freshly created session looks like: well-formed, on day 1 of
/// its opening morning under the default rules (a five-minute morning,
/// a ninety-second vote), with the host as its only player, reachable
/// by the host's secret and not yet connected, nobody skipping the
/// vote, and the morning deadline scheduled.
pub open spec fn session_ok<PC: PlayerConnection>(
    s: Session<PC>,
    host_name: Seq<char>,
    secret: Seq<char>,
) -> bool {
    &&& s.wf()
    &&& s.state.root.day == 1
    &&& s.state.root.players@.len() == 1
    &&& s.state.root.players@[0].name@ == host_name
    &&& s.state.root.players@[0].secret_key@ == secret
    &&& s.state.root.players@[0].connection is None
    &&& s.state.root.rules.morning_limit == Some(300i64)
    &&& s.state.root.rules.vote_limit == Some(90i64)
    &&& s.state.root.vote_skip@.len() == 0
    &&& s.state.root.next_state_time is Some
    &&& s.state.root.host@ == host_name
    &&& s.state.phase is Morning
}

/// What a successful session creation or join hands back: where to
/// connect, and the credential that resolves to the player.
pub struct CreateSessionRes {
    pub session_id: String,
    pub secret: String,
}

/// The result of joining an existing session.
pub struct JoinSessionRes {
    pub session_id: String,
    pub secret: String,
}

/// The query string of a transport-upgrade request: which session, and
/// whose secret.
pub struct WebsocketAuth {
    pub session: String,
    pub secret: String,
}

/// Registry and factory for sessions, single writer over its own map.
pub struct SessionManager<PC: PlayerConnection> {
    pub sessions: Vec<Session<PC>>,
}

impl<PC: PlayerConnection> SessionManager<PC> {
    /// The registry invariant: one session per id.
    pub open spec fn wf(&self) -> bool {
        forall|i: int, j: int|
            0 <= i < j < self.sessions@.len() ==> #[trigger] self.sessions@[i].id@
                != #[trigger] self.sessions@[j].id@
    }

    /// The position of the first session registered under `id`, if
    /// any.
    fn find(sessions: &Vec<Session<PC>>, id: &String) -> (r: Option<usize>)
        ensures
            match r {
                Some(i) => is_first_sid(sessions@, id@, i as int),
                None => !sid_taken(sessions@, id@),
            },
    {
        let n = sessions.len();
        let mut i: usize = 0;
        while i < n
            invariant
                n == sessions@.len(),
                0 <= i <= n,
                forall|j: int| 0 <= j < i ==> #[trigger] sessions@[j].id@ != id@,
            decreases n - i,
        {
            if sessions[i].id == *id {
                return Some(i);
            }
            i += 1;
        }
        None
    }

    /// The session registered under `id`, for authorising a transport
    /// upgrade before the handshake resolves a player identity.
    pub fn get_session(&self, id: &str) -> (r: Option<&Session<PC>>)
        ensures
            r is Some <==> sid_taken(self.sessions@, id@),
            r matches Some(s) ==> exists|i: int|
                #[trigger] is_first_sid(self.sessions@, id@, i) && *s == self.sessions@[i],
    {
        let key: String = id.to_owned();
        match Self::find(&self.sessions, &key) {
            Some(i) => {
                proof {
                    assert(is_first_sid(self.sessions@, id@, i as int));
                }
                Some(&self.sessions[i])
            },
            None => None,
        }
    }

    /// Creates a session under a fresh id, with `host_name` as its
    /// first player and a fresh secret for them, and registers it.
    /// Always succeeds.
    pub fn create_session(&mut self, host_name: PlayerName) -> (r: CreateSessionRes)
        ensures
            r.session_id@.len() == 36,
            r.secret@.len() == 36,
            exists|i: int|
                #[trigger] is_first_sid(final(self).sessions@, r.session_id@, i) && session_ok(
                    final(self).sessions@[i],
                    host_name@,
                    r.secret@,
                ),
            !sid_taken(old(self).sessions@, r.session_id@)
                ==> (final(self).sessions@.len() == old(self).sessions@.len() + 1 && forall|
                j: int,
            |
                0 <= j < old(self).sessions@.len()
                    ==> #[trigger] final(self).sessions@[j] == old(self).sessions@[j]),
            old(self).wf() ==> final(self).wf(),
    {
        let sess_id = gen_uuid();
        let host_secret = gen_uuid();
        let session: Session<PC> = Session::new(
            sess_id.clone(),
            Ruleset::default(),
            host_name,
            host_secret.clone(),
        );
        let idx: usize = match Self::find(&self.sessions, &sess_id) {
            Some(i) => {
                let p = vstd::std_specs::vec::vec_index_mut(&mut self.sessions, i);
                *p = session;
                i
            },
            None => {
                self.sessions.push(session);
                self.sessions.len() - 1
            },
        };
        proof {
            assert(self.sessions@[idx as int] == session);
            assert forall|j: int| 0 <= j < idx as int implies #[trigger] self.sessions@[j].id@
                != sess_id@ by {
                assert(self.sessions@[j] == old(self).sessions@[j]);
            }
            assert(is_first_sid(self.sessions@, sess_id@, idx as int));
            assert(session_ok(self.sessions@[idx as int], host_name@, host_secret@));
        }
        let res = CreateSessionRes { session_id: sess_id, secret: host_secret };
        proof {
            assert(is_first_sid(self.sessions@, res.session_id@, idx as int));
            assert(session_ok(self.sessions@[idx as int], host_name@, res.secret@));
        }
        res
    }

    /// Joins `name` to the session registered under `session_id`,
    /// handing back that id and a fresh secret for the new player —
    /// fresh within the session, so it resolves to the new player and
    /// nobody else. Fails with `InvalidSession` when no session bears
    /// the id, with the session's own error when the name is already
    /// taken, and with `InvalidSecret` in the (randomly improbable)
    /// case that the generated secret is already held; succeeds in
    /// every other case.
    pub fn join_session(&mut self, session_id: &str, name: PlayerName) -> (r: Result<
        JoinSessionRes,
        Error,
    >)
        ensures
            !sid_taken(old(self).sessions@, session_id@) ==> (r matches Err(Error::InvalidSession)
                && *final(self) == *old(self)),
            final(self).sessions@.len() == old(self).sessions@.len(),
            forall|k: int|
                0 <= k < old(self).sessions@.len() ==> #[trigger] final(self).sessions@[k].id
                    == old(self).sessions@[k].id,
            old(self).wf() ==> final(self).wf(),
            forall|i: int|
                #[trigger] is_first_sid(old(self).sessions@, session_id@, i) ==> {
                    let s0 = old(self).sessions@[i];
                    &&& (name_taken(s0.state.root.players@, name@) ==> (r matches Err(
                        Error::PlayerNameTaken(n),
                    ) && n@ == name@ && final(self).sessions@ == old(self).sessions@))
                    &&& (!name_taken(s0.state.root.players@, name@) ==> ((r matches Err(
                        Error::InvalidSecret,
                    ) && final(self).sessions@ == old(self).sessions@) || (r matches Ok(res) && {
                        let s1 = final(self).sessions@[i];
                        &&& res.session_id@ == session_id@
                        &&& res.secret@.len() == 36
                        &&& !secret_known(s0.state.root.players@, res.secret@)
                        &&& final(self).sessions@.len() == old(self).sessions@.len()
                        &&& forall|j: int|
                            0 <= j < old(self).sessions@.len() && j != i
                                ==> #[trigger] final(self).sessions@[j] == old(self).sessions@[j]
                        &&& s1.id == s0.id
                        &&& s1.state.phase == s0.state.phase
                        &&& s1.state.root.players@.len() == s0.state.root.players@.len() + 1
                        &&& forall|k: int|
                            0 <= k < s0.state.root.players@.len()
                                ==> #[trigger] s1.state.root.players@[k]
                                == s0.state.root.players@[k]
                        &&& s1.state.root.players@.last().name@ == name@
                        &&& s1.state.root.players@.last().secret_key@ == res.secret@
                        &&& s1.state.root.players@.last().connection is None
                        &&& s1.state.root.players@.last().state is Alive
                        &&& (s0.wf() ==> s1.wf())
                    })))
                },
    {
        let key: String = session_id.to_owned();
        match Self::find(&self.sessions, &key) {
            Some(i) => {
                proof {
                    assert forall|k: int|
                        #[trigger] is_first_sid(
                            old(self).sessions@,
                            session_id@,
                            k,
                        ) implies k == i as int by {
                        if k < i as int {
                            assert(old(self).sessions@[k].id@ == session_id@);
                        }
                        if (i as int) < k {
                            assert(old(self).sessions@[i as int].id@ == session_id@);
                        }
                    }
                }
                let secret = gen_uuid();
                let s = vstd::std_specs::vec::vec_index_mut(&mut self.sessions, i);
                let r = match s.create_user(name, secret.clone()) {
                    Ok(()) => Ok(JoinSessionRes { session_id: key, secret }),
                    Err(e) => Err(e),
                };
                proof {
                    if self.sessions@[i as int] == old(self).sessions@[i as int] {
                        assert(self.sessions@ =~= old(self).sessions@);
                    }
                }
                r
            },
            None => Err(Error::InvalidSession),
        }
    }

    /// Forwards a transport registration to the session registered
    /// under `session_id`; an unknown session id is silently ignored,
    /// as is an unknown player name within the session.
    pub fn register_connection(&mut self, session_id: &str, player: PlayerName, conn: Option<PC>)
        ensures
            !sid_taken(old(self).sessions@, session_id@) ==> *final(self) == *old(self),
            final(self).sessions@.len() == old(self).sessions@.len(),
            forall|k: int|
                0 <= k < old(self).sessions@.len() ==> #[trigger] final(self).sessions@[k].id
                    == old(self).sessions@[k].id,
            old(self).wf() ==> final(self).wf(),
            forall|i: int|
                #[trigger] is_first_sid(old(self).sessions@, session_id@, i) ==> {
                    let s0 = old(self).sessions@[i];
                    let s1 = final(self).sessions@[i];
                    &&& final(self).sessions@.len() == old(self).sessions@.len()
                    &&& (forall|j: int|
                        0 <= j < old(self).sessions@.len() && j != i
                            ==> #[trigger] final(self).sessions@[j] == old(self).sessions@[j])
                    &&& s1.id == s0.id
                    &&& s1.state.phase == s0.state.phase
                    &&& (!name_taken(s0.state.root.players@, player@) ==> s1 == s0)
                    &&& (forall|k: int|
                        #[trigger] is_first_named(s0.state.root.players@, player@, k)
                            ==> s1.state.root.players@ == s0.state.root.players@.update(
                            k,
                            with_connection(s0.state.root.players@[k], conn),
                        ))
                    &&& (s0.wf() ==> s1.wf())
                },
    {
        let key: String = session_id.to_owned();
        match Self::find(&self.sessions, &key) {
            Some(i) => {
                proof {
                    assert forall|k: int|
                        #[trigger] is_first_sid(
                            old(self).sessions@,
                            session_id@,
                            k,
                        ) implies k == i as int by {
                        if k < i as int {
                            assert(old(self).sessions@[k].id@ == session_id@);
                        }
                        if (i as int) < k {
                            assert(old(self).sessions@[i as int].id@ == session_id@);
                        }
                    }
                }
                let s = vstd::std_specs::vec::vec_index_mut(&mut self.sessions, i);
                s.register_connection(player, conn);
            },
            None => {},
        }
    }

    /// The transport registered for `player` in the session under
    /// `session_id`, if both exist; what a fresh transport uses to
    /// discover and evict its predecessor.
    pub fn get_connection(&self, session_id: &str, player: &str) -> (r: Option<PC>)
        ensures
            !sid_taken(self.sessions@, session_id@) ==> r is None,
            forall|i: int|
                #[trigger] is_first_sid(self.sessions@, session_id@, i) ==> {
                    let players = self.sessions@[i].state.root.players;
                    &&& (r is Some <==> exists|k: int|
                        #[trigger] is_first_named(players@, player@, k) && players@[k].connection
                            is Some)
                    &&& (forall|k: int|
                        #[trigger] is_first_named(players@, player@, k) ==> match (
                        r,
                        players@[k].connection,
                    ) {
                            (Some(c), Some(pc)) => vstd::pervasive::cloned(pc, c),
                            (None, None) => true,
                            _ => false,
                        })
                },
    {
        let key: String = session_id.to_owned();
        match Self::find(&self.sessions, &key) {
            Some(i) => {
                proof {
                    assert forall|k: int|
                        #[trigger] is_first_sid(
                            self.sessions@,
                            session_id@,
                            k,
                        ) implies k == i as int by {
                        if k < i as int {
                            assert(self.sessions@[k].id@ == session_id@);
                        }
                        if (i as int) < k {
                            assert(self.sessions@[i as int].id@ == session_id@);
                        }
                    }
                }
                self.sessions[i].get_connection(player)
            },
            None => None,
        }
    }

    /// Forwards a player action to the session registered under
    /// `session_id`. The session's state is never changed by an
    /// action in the current phase set; an unknown session id fails
    /// with `InvalidSession`.
    pub fn handle_action(&mut self, session_id: &str, player: PlayerName, act: ActionE) -> (r:
        Result<(), Error>)
        ensures
            final(self).sessions@ == old(self).sessions@,
            !sid_taken(old(self).sessions@, session_id@) ==> r matches Err(Error::InvalidSession),
            forall|i: int|
                #[trigger] is_first_sid(old(self).sessions@, session_id@, i) ==> {
                    let s0 = old(self).sessions@[i];
                    &&& (s0.state.phase is Morning ==> {
                        &&& (r is Ok <==> name_taken(s0.state.root.players@, player@))
                        &&& (!name_taken(s0.state.root.players@, player@) ==> (r matches Err(
                            Error::InvalidPlayerName(n),
                        ) && n@ == player@))
                    })
                    &&& (!(s0.state.phase is Morning) ==> r matches Err(
                        Error::WrongStateForAction,
                    ))
                },
    {
        let key: String = session_id.to_owned();
        match Self::find(&self.sessions, &key) {
            Some(i) => {
                proof {
                    assert forall|k: int|
                        #[trigger] is_first_sid(
                            old(self).sessions@,
                            session_id@,
                            k,
                        ) implies k == i as int by {
                        if k < i as int {
                            assert(old(self).sessions@[k].id@ == session_id@);
                        }
                        if (i as int) < k {
                            assert(old(self).sessions@[i as int].id@ == session_id@);
                        }
                    }
                }
                let s = vstd::std_specs::vec::vec_index_mut(&mut self.sessions, i);
                let r = s.handle_action(player, act);
                proof {
                    assert(self.sessions@ =~= old(self).sessions@);
                }
                r
            },
            None => Err(Error::InvalidSession),
        }
    }

    /// Resolves a transport-upgrade request: the session must exist and
    /// the secret must resolve to one of its players; the player's name
    /// is the authenticated identity.
    pub fn authenticate(&self, auth: &WebsocketAuth) -> (r: Result<PlayerName, Error>)
        ensures
            !sid_taken(self.sessions@, auth.session@) ==> r matches Err(Error::InvalidSession),
            forall|i: int|
                #[trigger] is_first_sid(self.sessions@, auth.session@, i) ==> {
                    let players = self.sessions@[i].state.root.players;
                    &&& (!secret_known(players@, auth.secret@) ==> r matches Err(
                        Error::InvalidSecret,
                    ))
                    &&& (secret_known(players@, auth.secret@) ==> (r matches Ok(n) && exists|k: int|
                        #[trigger] is_first_secret(players@, auth.secret@, k) && n@
                            == players@[k].name@))
                },
    {
        match Self::find(&self.sessions, &auth.session) {
            Some(i) => {
                proof {
                    assert forall|k: int|
                        #[trigger] is_first_sid(
                            self.sessions@,
                            auth.session@,
                            k,
                        ) implies k == i as int by {
                        if k < i as int {
                            assert(self.sessions@[k].id@ == auth.session@);
                        }
                        if (i as int) < k {
                            assert(self.sessions@[i as int].id@ == auth.session@);
                        }
                    }
                }
                match self.sessions[i].get_playername(auth.secret.as_str()) {
                    Some(n) => Ok(n),
                    None => Err(Error::InvalidSecret),
                }
            },
            None => Err(Error::InvalidSession),
        }
    }
}

impl<PC: PlayerConnection> Default for SessionManager<PC> {
    /// An empty registry.
    fn default() -> (r: SessionManager<PC>)
        ensures
            r.sessions@.len() == 0,
    {
        SessionManager { sessions: Vec::new() }
    }
}

} // verus!
