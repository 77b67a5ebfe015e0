//! Configuration of the turn-based game model: phase durations and the
//! state a game opens in.

use vstd::prelude::*;

use crate::clock::now_ts;
use crate::gamecore::playing_state::PlayingState;
use crate::ruleset::{deadline_add, deadline_at};

verus! {

/// Phase durations in whole seconds.
#[derive(Debug, Clone, Copy)]
pub struct Rules {
    pub morning_duration: i64,
    pub night_duration: i64,
}

impl Rules {
    /// The state a game opens in when play begins at `now`: a morning
    /// lasting `morning_duration`.
    pub fn initial_state_at(&self, now: i64) -> (s: PlayingState)
        ensures
            s matches PlayingState::Morning { ends_at } && ends_at == deadline_at(
                now,
                self.morning_duration,
            ),
    {
        PlayingState::Morning { ends_at: deadline_add(now, self.morning_duration) }
    }

    /// The state a game opens in when play begins now, read off the
    /// wall clock.
    pub fn initial_state(&self) -> (s: PlayingState)
        ensures
            s matches PlayingState::Morning { ends_at } && exists|now: i64|
                ends_at == #[trigger] deadline_at(now, self.morning_duration),
    {
        let now: i64 = now_ts();
        self.initial_state_at(now)
    }
}

impl Default for Rules {
    /// Five minutes of morning, a minute and a half of night.
    fn default() -> (r: Rules)
        ensures
            r.morning_duration == 300,
            r.night_duration == 90,
    {
        Rules { morning_duration: 300, night_duration: 90 }
    }
}

} // verus!
