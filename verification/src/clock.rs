//! The wall clock, read as seconds since the Unix epoch.
//!
//! Deadlines are computed by verified code from a clock reading handed in
//! as a plain value; only the reading itself comes from outside.

use vstd::prelude::*;

verus! {

/// Relies on chrono's `Utc::now` and `DateTime::timestamp`: the current
/// wall-clock time in whole seconds since the Unix epoch. Nothing can be
/// promised of a clock reading. `Utc::now` panics on a system clock set
/// before the Unix epoch — an environment fault, not an input.
#[verifier::external_body]
pub fn now_ts() -> i64 {
    chrono::Utc::now().timestamp()
}

} // verus!
