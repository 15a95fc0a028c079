//! Winternitz one-time signatures over a pluggable 256-bit hash backend.

pub mod address;
pub mod chain;
pub mod hash;
pub mod laws;
pub mod merkle;
pub mod privkey;
pub mod pubkey;
pub mod signature;
