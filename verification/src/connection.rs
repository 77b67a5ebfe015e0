//! The per-transport entity: identity, takeover on reconnect, and
//! graceful shutdown.
//!
//! A connection owns exactly one live transport for one player and
//! enforces last-connection-wins takeover. The surrounding transport
//! runtime performs the sends and stops; this module holds the
//! decisions it acts on, over plain values:
//!
//! * on start, [`takeover_terminate`] names the prior connection to
//!   terminate, if a live one is registered, before the new connection
//!   registers itself;
//! * on stop, [`should_unregister`] says whether the stopping
//!   connection may clear the registration — never when another
//!   connection has already taken the slot over.

use vstd::prelude::*;

use crate::player::{Player, PlayerName};
use crate::player_connection::PlayerConnection;
use crate::state::{is_first_named, with_connection};
use crate::uid::gen_uuid;

verus! {

/// What a connection sees of a registered transport handle when making
/// its lifecycle decisions: the handle's connection id and whether the
/// transport behind it is still there.
pub struct ConnRef {
    pub id: String,
    pub alive: bool,
}

/// A per-transport entity: a fresh random id and the player it serves.
pub struct Connection {
    pub id: String,
    pub name: PlayerName,
}

impl Connection {
    /// A fresh connection entity for `name`, under a fresh id.
    pub fn new(name: PlayerName) -> (c: Connection)
        ensures
            c.name@ == name@,
            c.id@.len() == 36,
    {
        Connection { id: gen_uuid(), name }
    }
}

/// Which connection a starting transport must terminate: the prior
/// registered one, exactly when it is still alive.
pub open spec fn takeover_terminate_spec(prior: Option<ConnRef>) -> Option<Seq<char>> {
    match prior {
        Some(p) => if p.alive {
            Some(p.id@)
        } else {
            None
        },
        None => None,
    }
}

/// The start-time takeover decision: given the transport handle
/// currently registered for this connection's player (if any), the id
/// of the connection to terminate before registering ourselves.
pub fn takeover_terminate(prior: &Option<ConnRef>) -> (t: Option<String>)
    ensures
        t is Some <==> (prior matches Some(p) && p.alive),
        t matches Some(s) ==> (prior matches Some(p) && p.alive && s@ == p.id@),
{
    match prior {
        Some(p) => if p.alive {
            Some(p.id.clone())
        } else {
            None
        },
        None => None,
    }
}

/// Whether a stopping connection with id `my_id` may clear the
/// player's registration, given what is currently registered: yes when
/// nothing is registered (the common shutdown path, an idempotent
/// no-op), yes when the live registration is its own, and never
/// otherwise — a fresh takeover by another connection must not be
/// clobbered.
pub open spec fn should_unregister_spec(current: Option<ConnRef>, my_id: Seq<char>) -> bool {
    match current {
        None => true,
        Some(c) => c.alive && c.id@ == my_id,
    }
}

/// The stop-time cleanup decision; executable form of
/// [`should_unregister_spec`].
pub fn should_unregister(current: &Option<ConnRef>, my_id: &String) -> (b: bool)
    ensures
        b == should_unregister_spec(*current, my_id@),
{
    match current {
        None => true,
        Some(c) => c.alive && c.id == *my_id,
    }
}

/// Reconnect law: when a live connection `c1` is registered for the
/// first player bearing `name`, a new connection taking the slot over
/// (1) is told to terminate exactly `c1`, and (2) after registering its
/// own handle `c2`, leaves the player reachable through `c2` and
/// through nothing else.
pub proof fn lemma_reconnect_takeover<PC: PlayerConnection>(
    players: Seq<Player<PC>>,
    name: Seq<char>,
    i: int,
    c1: ConnRef,
    c2: PC,
)
    requires
        is_first_named(players, name, i),
        players[i].connection is Some,
        c1.alive,
    ensures
        takeover_terminate_spec(Some(c1)) == Some(c1.id@),
        ({
            let after = players.update(i, with_connection(players[i], Some(c2)));
            &&& is_first_named(after, name, i)
            &&& after[i].connection == Some(c2)
            &&& forall|j: int| 0 <= j < after.len() && j != i ==> after[j] == players[j]
        }),
{
    let after = players.update(i, with_connection(players[i], Some(c2)));
    assert(after[i].name@ == name);
    assert forall|j: int| 0 <= j < i implies #[trigger] after[j].name@ != name by {
        assert(after[j] == players[j]);
    }
}

/// Shutdown race law: let connection `c1` be stopping while `c2` (a
/// different connection, so a different id) has taken or is taking over
/// the same player slot. Whichever order the two steps run in, the slot
/// ends registered to `c2`:
///
/// * takeover first — `c1`'s later cleanup sees `c2`'s handle
///   registered, decides not to unregister, and leaves the slot alone;
/// * cleanup first — `c1` clears the slot (or finds it clear), and
///   `c2`'s registration then lands last.
pub proof fn lemma_shutdown_race<PC: PlayerConnection>(
    players: Seq<Player<PC>>,
    name: Seq<char>,
    i: int,
    c1_id: Seq<char>,
    c2: PC,
    c2_ref: ConnRef,
)
    requires
        is_first_named(players, name, i),
        c2_ref.id@ != c1_id,
    ensures
        !should_unregister_spec(Some(c2_ref), c1_id),
        ({
            let cleared = players.update(i, with_connection(players[i], None::<PC>));
            let after = cleared.update(i, with_connection(cleared[i], Some(c2)));
            &&& is_first_named(after, name, i)
            &&& after[i].connection == Some(c2)
        }),
{
    let cleared = players.update(i, with_connection(players[i], None::<PC>));
    let after = cleared.update(i, with_connection(cleared[i], Some(c2)));
    assert(after[i].name@ == name);
    assert forall|j: int| 0 <= j < i implies #[trigger] after[j].name@ != name by {
        assert(after[j] == players[j]);
    }
}

} // verus!
