//! The condemned player's final say before the evening.

use vstd::prelude::*;

verus! {

/// No phase-local data: the condemned player is recorded in the roster.
pub struct LastWords {}

} // verus!
