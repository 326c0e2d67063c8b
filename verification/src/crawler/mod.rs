//! The discovery of peers.

pub mod builder;
pub mod connection;
pub mod course;
pub mod crawler;
pub mod message;
pub mod peer_set;
pub mod session;
pub mod task;
