//! The daily vote on whom to condemn.

use vstd::prelude::*;

use crate::player::PlayerName;

verus! {

/// Carries the running tally: who has voted for whom, one entry per
/// voter.
pub struct Vote {
    pub votes: Vec<(PlayerName, PlayerName)>,
}

} // verus!
