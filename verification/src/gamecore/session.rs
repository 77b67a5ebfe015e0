//! Whether a player currently has a session attached.

use vstd::prelude::*;

verus! {

/// A player's attachment to a running session, if any.
#[derive(Debug, Hash)]
pub enum Session {
    Connected { session_id: String },
    Disconnected,
}

impl Default for Session {
    /// Players start out unattached.
    fn default() -> (r: Session)
        ensures
            r is Disconnected,
    {
        Session::Disconnected
    }
}

} // verus!
