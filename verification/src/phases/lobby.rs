//! The gathering phase before a game starts.

use vstd::prelude::*;

verus! {

/// Players assemble here; no in-game data accrues yet.
pub struct Lobby {}

} // verus!
