//! How messages travel: in plaintext (v1), or encrypted as BIP-324 has it (v2).

pub mod error;
pub mod v1;
pub mod v2;
