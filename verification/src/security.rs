//! Authenticated encryption and signatures.
//!
//! - [`aes_256_gcm`]: AES-256-GCM with a raw key or a passphrase-derived key.
//! - [`ed25519`]: Ed25519 identity key pairs in PKCS#8 containers.
//! - [`ed25519_client`]: signing RPC requests and verifying RPC responses.

pub mod aes_256_gcm;
pub mod ed25519;
pub mod ed25519_client;
