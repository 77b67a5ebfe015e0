//! The in-play phases of the turn-based game model.

use vstd::prelude::*;

use crate::gamecore::night_action::NightAction;
use crate::gamecore::player::PlayerName;
use crate::ruleset::deadline_add;

verus! {

/// A point in time, in whole seconds since the Unix epoch.
pub type SDateTime = i64;

/// Where a running game stands in its turn cycle. Every variant knows
/// when it expires; the vote variants carry the running tally, and the
/// night carries the actions submitted so far, keyed by player.
#[allow(inconsistent_fields)]
#[derive(Debug)]
pub enum PlayingState {
    Morning { ends_at: SDateTime },
    MorningVote { ends_at: SDateTime, votes: Vec<(PlayerName, PlayerName)> },
    MorningVoteResults {
        ends_at: SDateTime,
        votes: Vec<(PlayerName, PlayerName)>,
        voted: Option<PlayerName>,
    },
    LastWords { ends_at: SDateTime, voted: PlayerName },
    PostVote { ends_at: SDateTime },
    Night { ends_at: SDateTime, actions: Vec<(PlayerName, NightAction)> },
}

impl PlayingState {
    /// A bare night starting at `now` and lasting two minutes, with no
    /// actions submitted yet; a convenience for exercising night
    /// logic.
    pub fn gen_night(now: SDateTime) -> (s: PlayingState)
        ensures
            s matches PlayingState::Night { ends_at, actions } && ends_at
                == crate::ruleset::deadline_at(now, 120) && actions@.len() == 0,
    {
        PlayingState::Night { ends_at: deadline_add(now, 120), actions: Vec::new() }
    }
}

} // verus!
