//! The wind-down phase between the day's vote and nightfall.

use vstd::prelude::*;

verus! {

/// No phase-local data: evening is a pause with a deadline.
pub struct Evening {}

} // verus!
