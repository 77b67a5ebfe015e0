//! Real-time backend core for a social-deduction party game.
//!
//! A game runs as a `Session`: a roster of players, a `Ruleset`, and an
//! active `Phase` that together form the session's state. Players join a
//! session with a fresh secret, attach and detach transport connections,
//! and exchange messages whose visibility depends on whether sender and
//! receiver are alive. Deadlines drive phase advancement; a stale advance
//! signal is recognised and ignored.
//!
//! The crate models transports as values implementing [`PlayerConnection`]:
//! a non-owning capability whose `send` is a no-op once the transport is
//! gone.

pub mod action;
pub mod clock;
pub mod connection;
pub mod error;
pub mod gamecore;
pub mod json;
pub mod managers;
pub mod phases;
pub mod player;
pub mod player_connection;
pub mod response;
pub mod ruleset;
pub mod session;
pub mod state;
pub mod uid;
pub mod util;

pub use error::Error;
pub use player_connection::PlayerConnection;
pub use response::Response;
pub use ruleset::Ruleset;
pub use state::State;
