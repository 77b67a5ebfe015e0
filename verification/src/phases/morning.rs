//! The morning phase: open discussion among the players.

use vstd::prelude::*;

use crate::action::ActionE;
use crate::error::Error;
use crate::player::PlayerName;
use crate::player_connection::PlayerConnection;
use crate::phases::Vote;
use crate::state::{name_taken, Phase, RootState};
use crate::util::message_basic;

verus! {

/// No phase-local data: morning is open talk until the vote deadline.
pub struct Morning {}

impl Morning {
    /// Handles one player action during the morning: a message is
    /// broadcast under the ordinary visibility rule, and the state is
    /// handed back unchanged. Fails exactly when the sender is not in
    /// the roster.
    pub fn handle_action<PC: PlayerConnection>(
        self,
        root: RootState<PC>,
        player: PlayerName,
        act: ActionE,
    ) -> (r: Result<(Morning, RootState<PC>), Error>)
        ensures
            name_taken(root.players@, player@) ==> (r matches Ok((m, root2)) && root2 == root),
            !name_taken(root.players@, player@) ==> (r matches Err(Error::InvalidPlayerName(n))
                && n@ == player@),
    {
        match act {
            ActionE::Message(m) => {
                match message_basic(player.as_str(), m, &root.players) {
                    Ok(()) => Ok((self, root)),
                    Err(e) => Err(e),
                }
            },
        }
    }

    /// Hands over at the end of the morning that expired at `now`: the
    /// successor is the vote, with an empty tally; the vote-skip set is
    /// reset and the vote deadline is scheduled; everything else is
    /// kept.
    pub fn next_phase_at<PC: PlayerConnection>(self, root: RootState<PC>, now: i64) -> (r: (
        Phase,
        RootState<PC>,
    ))
        ensures
            r.0 matches Phase::Vote(v) && v.votes@.len() == 0,
            r.1.day == root.day,
            r.1.players == root.players,
            r.1.rules == root.rules,
            r.1.vote_skip@.len() == 0,
            r.1.next_state_time == root.rules.vote_end_spec(now),
            r.1.host == root.host,
    {
        let next_state_time = root.rules.vote_end_at(now);
        (
            Phase::Vote(Vote { votes: Vec::new() }),
            RootState { vote_skip: Vec::new(), next_state_time, ..root },
        )
    }

    /// As [`Morning::next_phase_at`], with the deadline computed from
    /// the wall clock.
    pub fn next_phase<PC: PlayerConnection>(self, root: RootState<PC>) -> (r: (
        Phase,
        RootState<PC>,
    ))
        ensures
            r.0 matches Phase::Vote(v) && v.votes@.len() == 0,
            r.1.day == root.day,
            r.1.players == root.players,
            r.1.rules == root.rules,
            r.1.vote_skip@.len() == 0,
            r.1.next_state_time is Some <==> root.rules.vote_limit is Some,
            exists|now: i64| r.1.next_state_time == root.rules.vote_end_spec(now),
            r.1.host == root.host,
    {
        let now: i64 = crate::clock::now_ts();
        self.next_phase_at(root, now)
    }
}

} // verus!
