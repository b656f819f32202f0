//! The identity and profile records that the security layer protects.

use std::collections::HashMap;
use vstd::prelude::*;

verus! {

/// Length of a key pair's PKCS#8 v2 document in bytes.
pub const KEYPAIR_BYTES_LENGTH: usize = 83;

/// Length of an identity's local symmetric key in bytes.
pub const LOCAL_KEY_BYTES_LENGTH: usize = 32;

/// Length of an identity's Ed25519 public key in bytes.
pub const PUBLIC_KEY_BYTES_LENGTH: usize = 32;

/// A known party: its names, its public verification key and the symmetric
/// key under which data for it is kept.
pub struct Identity {
    /// Hexadecimal form of a 32-byte identifier.
    pub local_id: String,
    pub name: String,
    pub public_key: [u8; 32],
    pub local_key: [u8; 32],
}

/// The identities that a profile knows, each under its public key.
pub type KnownIdentities = HashMap<[u8; 32], Identity>;

/// A user's own profile: the key pair's PKCS#8 document and the identities
/// it knows.
pub struct Profile {
    pub name: String,
    pub keypair: Vec<u8>,
    pub known_identities: KnownIdentities,
}

} // verus!
