//! The night phase, when special roles act in secret.

use vstd::prelude::*;

verus! {

/// No phase-local data here: submitted night actions are bookkept by the
/// turn-based game model (see the crate's `gamecore` module).
pub struct Night {}

} // verus!
