//! Actions: what a connected player may ask a session to do.

use vstd::prelude::*;

verus! {

/// An inbound request from a player, as handed to the session.
pub struct Action {
    pub a: ActionE,
}

/// The closed set of action kinds.
pub enum ActionE {
    /// Say something to the other players.
    Message(ActionMessage),
}

/// The payload of a chat message.
pub struct ActionMessage {
    pub text: String,
}

} // verus!
