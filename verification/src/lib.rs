//! Cryptographic security layer: authenticated symmetric encryption for data
//! at rest, and Ed25519 signing for identity keys and RPC traffic.

pub mod models;
pub mod security;
