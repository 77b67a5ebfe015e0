//! The error taxonomy shared by sessions, registries and transports.

use vstd::prelude::*;

use crate::player::PlayerName;

verus! {

/// Everything that can go wrong while joining, authenticating against or
/// acting inside a session. Cross-entity delivery failures are coerced to
/// `InternalError` by the caller that observes them.
#[derive(Debug)]
pub enum Error {
    /// The named player does not exist in the roster.
    InvalidPlayerName(PlayerName),
    /// No session is registered under the given id.
    InvalidSession,
    /// The secret resolves to no player of the session.
    InvalidSecret,
    /// A player of that name already sits in the roster.
    PlayerNameTaken(PlayerName),
    /// A collaborating entity was gone or unreachable.
    InternalError,
    /// The action is not allowed in the session's current phase.
    WrongStateForAction,
}

impl Error {
    /// A human-readable account of the error.
    pub fn describe(&self) -> (r: String)
        ensures
            r@ == self.describe_spec(),
    {
        match self {
            Error::InvalidPlayerName(p) => String::from_str("invalid player name: ").concat(
                p.as_str(),
            ),
            Error::InvalidSession => String::from_str("invalid session id"),
            Error::InvalidSecret => String::from_str("invalid secret"),
            Error::PlayerNameTaken(p) => String::from_str("name ").concat(p.as_str()).concat(
                " is already taken!",
            ),
            Error::InternalError => String::from_str("internal error"),
            Error::WrongStateForAction => String::from_str("wrong state for action"),
        }
    }

    /// What `describe` returns, variant by variant.
    pub open spec fn describe_spec(&self) -> Seq<char> {
        match self {
            Error::InvalidPlayerName(p) => "invalid player name: "@ + p@,
            Error::InvalidSession => "invalid session id"@,
            Error::InvalidSecret => "invalid secret"@,
            Error::PlayerNameTaken(p) => "name "@ + p@ + " is already taken!"@,
            Error::InternalError => "internal error"@,
            Error::WrongStateForAction => "wrong state for action"@,
        }
    }
}

impl PartialEq for Error {
    fn eq(&self, other: &Error) -> (r: bool) {
        match (self, other) {
            (Error::InvalidPlayerName(a), Error::InvalidPlayerName(b)) => *a == *b,
            (Error::InvalidSession, Error::InvalidSession) => true,
            (Error::InvalidSecret, Error::InvalidSecret) => true,
            (Error::PlayerNameTaken(a), Error::PlayerNameTaken(b)) => *a == *b,
            (Error::InternalError, Error::InternalError) => true,
            (Error::WrongStateForAction, Error::WrongStateForAction) => true,
            _ => false,
        }
    }
}

impl vstd::std_specs::cmp::PartialEqSpecImpl for Error {
    open spec fn obeys_eq_spec() -> bool {
        true
    }

    open spec fn eq_spec(&self, other: &Error) -> bool {
        match (self, other) {
            (Error::InvalidPlayerName(a), Error::InvalidPlayerName(b)) => a@ == b@,
            (Error::InvalidSession, Error::InvalidSession) => true,
            (Error::InvalidSecret, Error::InvalidSecret) => true,
            (Error::PlayerNameTaken(a), Error::PlayerNameTaken(b)) => a@ == b@,
            (Error::InternalError, Error::InternalError) => true,
            (Error::WrongStateForAction, Error::WrongStateForAction) => true,
            _ => false,
        }
    }
}

} // verus!
