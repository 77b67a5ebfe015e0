//! The capability through which a player's current transport is reached.

use vstd::prelude::*;

use crate::response::Response;

verus! {

/// A non-owning handle to a player's live transport.
///
/// `send` delivers a response to the transport if it is still there and
/// silently does nothing once it is gone: delivering to a disconnected
/// player is never an error, just a dropped message. `is_alive` reflects
/// only current reachability of the transport, not the player's in-game
/// liveness. Nothing further is promised of either operation: what a
/// transport does with a delivered response is the implementor's business.
pub trait PlayerConnection: Clone {
    fn send(&self, r: Response);

    fn is_alive(&self) -> bool;
}

} // verus!
