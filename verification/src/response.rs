//! Responses: what a session delivers back to a player's transport.

use vstd::prelude::*;

use crate::error::Error;
use crate::player::PlayerName;

verus! {

/// An outbound frame payload.
pub struct Response {
    pub resp: ResponseE,
}

impl Response {
    /// A chat message as seen by a recipient; `src` is `None` for
    /// messages that no player sent.
    pub fn message(src: Option<PlayerName>, text: String) -> (r: Response)
        ensures
            r.resp matches ResponseE::Message { from, text: t } && (match src {
                Some(n) => from matches Some(f) && f@ == n@,
                None => from is None,
            }) && t@ == text@,
    {
        Response { resp: ResponseE::Message { from: src, text } }
    }
}

impl From<Error> for Response {
    fn from(e: Error) -> (r: Response) {
        Response { resp: ResponseE::Error(e) }
    }
}

impl vstd::std_specs::convert::FromSpecImpl<Error> for Response {
    open spec fn obeys_from_spec() -> bool {
        true
    }

    open spec fn from_spec(e: Error) -> Response {
        Response { resp: ResponseE::Error(e) }
    }
}

/// The closed set of response kinds.
pub enum ResponseE {
    /// A chat message; `from` names the sender, if any player sent it.
    Message { from: Option<PlayerName>, text: String },
    /// An error surfaced to the transport.
    Error(Error),
}

impl From<Error> for ResponseE {
    fn from(e: Error) -> (r: ResponseE) {
        ResponseE::Error(e)
    }
}

impl vstd::std_specs::convert::FromSpecImpl<Error> for ResponseE {
    open spec fn obeys_from_spec() -> bool {
        true
    }

    open spec fn from_spec(e: Error) -> ResponseE {
        ResponseE::Error(e)
    }
}

} // verus!
