//! Playback coordination for a group of media players: the wire protocol's
//! field mapping, the player's event and request vocabulary, and the state
//! machine that reconciles local, remote and periodic events.
//!
//! Positions are signed integers in milliseconds and speeds are signed
//! integers in thousandths of the normal rate, so that every threshold of the
//! coordination rules is an exact integer comparison.

pub mod config;
pub mod laws;
pub mod logic;
pub mod model;
pub mod mpv;
pub mod p2p;
pub mod proto;
pub mod statemachine;
pub mod text;
