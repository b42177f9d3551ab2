//! Core of a small media-player supervisor: a request-id generator, the
//! line-oriented JSON wire format used to drive the player, a table of
//! pending requests correlating commands with asynchronously arriving
//! responses, and the state machine that decides when a fresh player
//! process must be spawned.

pub mod client;
pub mod errors;
pub mod ids;
pub mod inbound;
pub mod pending;
pub mod playback;
pub mod supervisor;
pub mod wire;

pub use ids::IdGen;
