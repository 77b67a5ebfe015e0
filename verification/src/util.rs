//! Broadcast helpers: who hears whom, and the delivery loop itself.

use vstd::prelude::*;

use crate::action::ActionMessage;
use crate::error::Error;
use crate::player::{Player, PlayerState};
use crate::player_connection::PlayerConnection;
use crate::response::Response;
use crate::state::{find_first_named, name_taken};

verus! {

/// The visibility rule for ordinary talk: liveness must match. The
/// living talk among the living and the dead commune among the dead;
/// neither side overhears the other.
pub open spec fn basic_visible_spec(src: PlayerState, dest: PlayerState) -> bool {
    (src is Alive) <==> (dest is Alive)
}

/// Executable form of [`basic_visible_spec`].
pub fn basic_visible(src: PlayerState, dest: PlayerState) -> (b: bool)
    ensures
        b == basic_visible_spec(src, dest),
{
    src.is_alive() == dest.is_alive()
}

/// Message visibility, as a law over the rule itself: a living
/// sender's message reaches exactly the living recipients, and never a
/// dead one; a dead sender's message reaches exactly the dead.
pub proof fn lemma_message_visibility(src: PlayerState, dest: PlayerState)
    ensures
        src is Alive ==> (basic_visible_spec(src, dest) <==> dest is Alive),
        src is Dead ==> (basic_visible_spec(src, dest) <==> dest is Dead),
{
}

/// The positions of the players who hear a message sent by the player
/// at `src`: exactly those whom [`basic_visible_spec`] admits.
pub fn visible_targets<PC: PlayerConnection>(players: &Vec<Player<PC>>, src: usize) -> (ts: Vec<
    usize,
>)
    requires
        src < players@.len(),
    ensures
        forall|k: int| 0 <= k < ts@.len() ==> 0 <= #[trigger] ts@[k] < players@.len(),
        forall|i: usize|
            i < players@.len() ==> (#[trigger] ts@.contains(i) <==> basic_visible_spec(
                players@[src as int].state,
                players@[i as int].state,
            )),
{
    let n = players.len();
    let src_state = players[src].state;
    let mut ts: Vec<usize> = Vec::new();
    let mut i: usize = 0;
    while i < n
        invariant
            n == players@.len(),
            src < players@.len(),
            src_state == players@[src as int].state,
            0 <= i <= n,
            forall|k: int| 0 <= k < ts@.len() ==> 0 <= #[trigger] ts@[k] < i,
            forall|t: usize|
                t < i ==> (#[trigger] ts@.contains(t) <==> basic_visible_spec(
                    src_state,
                    players@[t as int].state,
                )),
        decreases n - i,
    {
        let ghost pre = ts@;
        if basic_visible(src_state, players[i].state) {
            ts.push(i);
            proof {
                assert(ts@[ts@.len() - 1] == i);
                assert(ts@.contains(i));
                assert forall|t: usize| t < i + 1 implies (#[trigger] ts@.contains(t)
                    <==> basic_visible_spec(src_state, players@[t as int].state)) by {
                    if t < i {
                        assert(ts@.contains(t) <==> pre.contains(t)) by {
                            if pre.contains(t) {
                                let k = choose|k: int| 0 <= k < pre.len() && pre[k] == t;
                                assert(ts@[k] == t);
                            }
                            if ts@.contains(t) {
                                let k = choose|k: int| 0 <= k < ts@.len() && ts@[k] == t;
                                assert(k < pre.len());
                                assert(pre[k] == t);
                            }
                        }
                    }
                }
            }
        } else {
            proof {
                assert forall|t: usize| t < i + 1 implies (#[trigger] ts@.contains(t)
                    <==> basic_visible_spec(src_state, players@[t as int].state)) by {
                    if t == i {
                        assert(!ts@.contains(t)) by {
                            if ts@.contains(t) {
                                let k = choose|k: int| 0 <= k < ts@.len() && ts@[k] == t;
                            }
                        }
                    }
                }
            }
        }
        i += 1;
    }
    ts
}

/// Broadcasts `message` from `sender` to every roster member that
/// `cond` admits, through whatever transport each has registered.
/// Succeeds exactly when the sender is in the roster; an unresolvable
/// sender name is an error, and nothing is delivered for it.
pub fn message_if<PC: PlayerConnection, C: Fn(PlayerState, PlayerState) -> bool>(
    sender: &str,
    message: ActionMessage,
    players: &Vec<Player<PC>>,
    cond: C,
) -> (r: Result<(), Error>)
    requires
        forall|a: PlayerState, b: PlayerState| #[trigger] call_requires(cond, (a, b)),
    ensures
        r is Ok <==> name_taken(players@, sender@),
        !name_taken(players@, sender@) ==> (r matches Err(Error::InvalidPlayerName(n)) && n@
            == sender@),
{
    let sname: String = sender.to_owned();
    let src_i = match find_first_named(players, &sname) {
        Some(i) => i,
        None => {
            return Err(Error::InvalidPlayerName(sname));
        },
    };
    let src_state = players[src_i].state;
    let src_name = players[src_i].name.clone();
    let n = players.len();
    let mut t: usize = 0;
    while t < n
        invariant
            n == players@.len(),
            0 <= t <= n,
            forall|a: PlayerState, b: PlayerState| #[trigger] call_requires(cond, (a, b)),
        decreases n - t,
    {
        if cond(src_state, players[t].state) {
            if let Some(conn) = &players[t].connection {
                conn.send(Response::message(Some(src_name.clone()), message.text.clone()));
            }
        }
        t += 1;
    }
    Ok(())
}

/// Broadcasts `message` from `sender` under the ordinary visibility
/// rule, [`basic_visible_spec`].
pub fn message_basic<PC: PlayerConnection>(
    sender: &str,
    message: ActionMessage,
    players: &Vec<Player<PC>>,
) -> (r: Result<(), Error>)
    ensures
        r is Ok <==> name_taken(players@, sender@),
        !name_taken(players@, sender@) ==> (r matches Err(Error::InvalidPlayerName(n)) && n@
            == sender@),
{
    message_if(
        sender,
        message,
        players,
        |a: PlayerState, b: PlayerState| -> bool { basic_visible(a, b) },
    )
}

} // verus!
