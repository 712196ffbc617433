//! Server-side state and decision logic for a shared DJ room: two decks
//! whose transports, cue points, loops and settings are kept authoritative
//! on the server, plus a room-wide crossfader.

pub mod clock;
pub mod protocol;
pub mod room;
pub mod session;
pub mod config;
pub mod tls;
