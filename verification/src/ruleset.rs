//! The configuration of a session: phase time limits and the opening
//! phase.

use vstd::prelude::*;

use crate::clock::now_ts;
use crate::phases::Morning;
use crate::state::Phase;

verus! {

/// `now + limit`, clamped at the ends of the representable range so a
/// deadline is always a value rather than a panic.
pub open spec fn deadline_at(now: i64, limit: i64) -> i64 {
    if now + limit > i64::MAX {
        i64::MAX
    } else if now + limit < i64::MIN {
        i64::MIN
    } else {
        (now + limit) as i64
    }
}

/// Clamped deadline arithmetic over clock readings.
pub fn deadline_add(now: i64, limit: i64) -> (r: i64)
    ensures
        r == deadline_at(now, limit),
{
    match now.checked_add(limit) {
        Some(v) => v,
        None => if limit >= 0 {
            i64::MAX
        } else {
            i64::MIN
        },
    }
}

/// Phase time limits in whole seconds; `None` means the phase never
/// expires on its own.
pub struct Ruleset {
    pub morning_limit: Option<i64>,
    pub vote_limit: Option<i64>,
}

impl Ruleset {
    /// The morning deadline as computed from the clock reading `now`.
    pub open spec fn morning_end_spec(&self, now: i64) -> Option<i64> {
        match self.morning_limit {
            Some(l) => Some(deadline_at(now, l)),
            None => None,
        }
    }

    /// The vote deadline as computed from the clock reading `now`.
    pub open spec fn vote_end_spec(&self, now: i64) -> Option<i64> {
        match self.vote_limit {
            Some(l) => Some(deadline_at(now, l)),
            None => None,
        }
    }

    /// When the morning that starts at `now` expires, if ever.
    pub fn morning_end_at(&self, now: i64) -> (r: Option<i64>)
        ensures
            r == self.morning_end_spec(now),
    {
        match self.morning_limit {
            Some(l) => Some(deadline_add(now, l)),
            None => None,
        }
    }

    /// When a morning that starts now expires, if ever, read off the
    /// wall clock.
    pub fn morning_end(&self) -> (r: Option<i64>)
        ensures
            r is Some <==> self.morning_limit is Some,
            exists|now: i64| r == self.morning_end_spec(now),
    {
        let now: i64 = now_ts();
        self.morning_end_at(now)
    }

    /// When a vote that starts at `now` expires, if ever.
    pub fn vote_end_at(&self, now: i64) -> (r: Option<i64>)
        ensures
            r == self.vote_end_spec(now),
    {
        match self.vote_limit {
            Some(l) => Some(deadline_add(now, l)),
            None => None,
        }
    }

    /// When a vote that starts now expires, if ever, read off the wall
    /// clock.
    pub fn vote_end(&self) -> (r: Option<i64>)
        ensures
            r is Some <==> self.vote_limit is Some,
            exists|now: i64| r == self.vote_end_spec(now),
    {
        let now: i64 = now_ts();
        self.vote_end_at(now)
    }

    /// The phase a fresh session opens in.
    pub fn init_phase(&self) -> (p: Phase)
        ensures
            p is Morning,
    {
        Phase::from(Morning {  })
    }
}

impl Default for Ruleset {
    /// Five minutes of morning talk, a minute and a half to vote.
    fn default() -> (r: Ruleset)
        ensures
            r.morning_limit == Some(300i64),
            r.vote_limit == Some(90i64),
    {
        Ruleset { morning_limit: Some(300), vote_limit: Some(90) }
    }
}

} // verus!
