//! The six phases of a session's turn cycle.
//!
//! Each phase owns its phase-local data and knows how to handle a
//! player's action and how to hand over to its successor; both are
//! invoked only by the owning session.

mod evening;
mod last_words;
mod lobby;
mod morning;
mod night;
mod vote;

pub use evening::Evening;
pub use last_words::LastWords;
pub use lobby::Lobby;
pub use morning::Morning;
pub use night::Night;
pub use vote::Vote;
