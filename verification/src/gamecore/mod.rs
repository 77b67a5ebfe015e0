//! The turn-based game model: roster, lobby, playing states and night
//! actions, independent of any transport.

pub mod error;
pub mod game;
pub mod lobby_state;
pub mod night_action;
pub mod player;
pub mod playing_state;
pub mod rules;
pub mod session;

pub use error::Error;
pub use game::Game;
pub use player::PlayerName;
