//! Connections to peers.

pub mod configuration;
pub mod describe;
pub mod error;
pub mod handshake;
pub mod state;
pub mod tcp;
