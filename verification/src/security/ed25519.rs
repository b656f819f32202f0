//! Ed25519 identity keys: generation, loading, signing and verification.
//!
//! A private key travels as a PKCS#8 v2 document, which this layer treats as
//! opaque bytes. The curve arithmetic is `ring`'s. What is proved here is
//! what each function hands to `ring`, how every outcome is reported, and
//! that a [`KeyPair`] always holds a document that `ring` accepts together
//! with the public key that belongs to it.

use ring::signature::KeyPair as RingKeyPair;
use vstd::prelude::*;
use vstd::slice::slice_to_vec;

verus! {

/// Length of an Ed25519 public key in bytes.
pub const PUBLIC_KEY_LENGTH: usize = 32;

/// Length of an Ed25519 signature in bytes.
pub const SIGNATURE_LENGTH: usize = 64;

/// Why an Ed25519 operation failed.
#[derive(Clone, Copy, Debug, PartialEq, Eq, Structural)]
pub enum Ed25519Error {
    /// The system's randomness source failed while a key was generated.
    KeyGenerationFailed,
    /// The bytes are not a PKCS#8 v2 Ed25519 key with a matching public key.
    KeyRejected,
    /// The signature does not verify, or the public key or the signature is
    /// malformed. The causes are not told apart.
    SignatureInvalid,
}

impl Ed25519Error {
    /// A short description of the failure.
    pub fn message(&self) -> (text: &'static str)
        ensures
            text@ == match *self {
                Ed25519Error::KeyGenerationFailed => "key generation failed"@,
                Ed25519Error::KeyRejected => "key rejected"@,
                Ed25519Error::SignatureInvalid => "signature verification failed"@,
            },
    {
        match self {
            Ed25519Error::KeyGenerationFailed => "key generation failed",
            Ed25519Error::KeyRejected => "key rejected",
            Ed25519Error::SignatureInvalid => "signature verification failed",
        }
    }
}

// ---------------------------------------------------------------------------
// The outside primitives
// ---------------------------------------------------------------------------

/// `ring`'s error without detail.
#[verifier::external_type_specification]
#[verifier::external_body]
pub struct ExUnspecified(ring::error::Unspecified);

/// `ring`'s error for a key that it does not accept.
#[verifier::external_type_specification]
#[verifier::external_body]
pub struct ExKeyRejected(ring::error::KeyRejected);

/// The public key of the pair that `Ed25519KeyPair::from_pkcs8` builds from a
/// document, or `None` where it rejects the document.
pub uninterp spec fn ring_pkcs8_public_key(document: Seq<u8>) -> Option<Seq<u8>>;

/// The signature that `Ed25519KeyPair::sign` gives for a message, made with
/// the pair that `Ed25519KeyPair::from_pkcs8` builds from a document.
pub uninterp spec fn ring_ed25519_signature(document: Seq<u8>, message: Seq<u8>) -> Seq<u8>;

/// Whether `UnparsedPublicKey::verify` with the algorithm `ED25519` accepts a
/// signature over a message under a public key.
pub uninterp spec fn ring_ed25519_verifies(
    public_key: Seq<u8>,
    message: Seq<u8>,
    signature: Seq<u8>,
) -> bool;

/// Calls `Ed25519KeyPair::generate_pkcs8` on `SystemRandom` and copies the
/// document. The key is random, so it has no name. Claimed of it: the
/// document is one that `Ed25519KeyPair::from_pkcs8` accepts, as the two
/// functions' documentation says of the format that one writes and the other
/// reads.
#[verifier::external_body]
fn ring_generate_pkcs8() -> (r: Result<Vec<u8>, ring::error::Unspecified>)
    ensures
        r matches Ok(document) ==> ring_pkcs8_public_key(document@) is Some,
{
    let rng = ring::rand::SystemRandom::new();
    let document = ring::signature::Ed25519KeyPair::generate_pkcs8(&rng)?;
    Ok(document.as_ref().to_vec())
}

/// Calls `Ed25519KeyPair::from_pkcs8` and copies the pair's public key,
/// which `ring` holds as 32 bytes. Claimed of it: the outcome is the named
/// one.
#[verifier::external_body]
fn ring_pkcs8_to_public_key(document: &[u8]) -> (r: Result<[u8; 32], ring::error::KeyRejected>)
    ensures
        match r {
            Ok(public_key) => ring_pkcs8_public_key(document@) == Some(public_key@),
            Err(_) => ring_pkcs8_public_key(document@) is None,
        },
{
    let pair = ring::signature::Ed25519KeyPair::from_pkcs8(document)?;
    let mut public_key = [0u8; 32];
    public_key.copy_from_slice(pair.public_key().as_ref());
    Ok(public_key)
}

/// Calls `Ed25519KeyPair::from_pkcs8` and then `Ed25519KeyPair::sign`, and
/// copies the signature, which `ring` writes as 64 bytes. The document must
/// be one that `from_pkcs8` accepts. Claimed of it: the signature is the
/// named one, and `ring` verifies it over the same message under the pair's
/// public key.
#[verifier::external_body]
fn ring_sign(document: &[u8], message: &[u8]) -> (signature: [u8; 64])
    requires
        ring_pkcs8_public_key(document@) is Some,
    ensures
        signature@ == ring_ed25519_signature(document@, message@),
        ring_ed25519_verifies(ring_pkcs8_public_key(document@).unwrap(), message@, signature@),
{
    let pair = ring::signature::Ed25519KeyPair::from_pkcs8(document).unwrap();
    let mut signature = [0u8; 64];
    signature.copy_from_slice(pair.sign(message).as_ref());
    signature
}

/// Calls `UnparsedPublicKey::verify` with the algorithm `ED25519`. Claimed of
/// it: it succeeds exactly where the named predicate holds, and never for a
/// public key that is not 32 bytes or a signature that is not 64 bytes.
#[verifier::external_body]
fn ring_verify(public_key: &[u8], message: &[u8], signature: &[u8]) -> (r: Result<
    (),
    ring::error::Unspecified,
>)
    ensures
        r is Ok <==> ring_ed25519_verifies(public_key@, message@, signature@),
        r is Ok ==> public_key@.len() == PUBLIC_KEY_LENGTH && signature@.len()
            == SIGNATURE_LENGTH,
{
    ring::signature::UnparsedPublicKey::new(&ring::signature::ED25519, public_key).verify(
        message,
        signature,
    )
}

// ---------------------------------------------------------------------------
// Key pairs
// ---------------------------------------------------------------------------

/// A private signing key in its PKCS#8 container, with its public key.
pub struct KeyPair {
    document: Vec<u8>,
    public_key: [u8; 32],
}

impl KeyPair {
    /// The PKCS#8 document.
    pub closed spec fn document(&self) -> Seq<u8> {
        self.document@
    }

    /// The public key.
    pub closed spec fn public(&self) -> Seq<u8> {
        self.public_key@
    }

    /// The document is one that `ring` accepts, and the public key is the
    /// one that belongs to it.
    #[verifier::type_invariant]
    pub closed spec fn wf(&self) -> bool {
        ring_pkcs8_public_key(self.document@) == Some(self.public_key@)
    }

    /// The public key.
    pub fn public_key(&self) -> (public_key: &[u8; 32])
        ensures
            public_key@ == self.public(),
            self.wf(),
    {
        proof {
            use_type_invariant(self);
        }
        &self.public_key
    }

    /// The PKCS#8 document that the pair was loaded from.
    pub fn as_bytes(&self) -> (document: &[u8])
        ensures
            document@ == self.document(),
            self.wf(),
    {
        proof {
            use_type_invariant(self);
        }
        self.document.as_slice()
    }

    /// Signs a message. The signature depends on the key and the message
    /// alone, and [`verify`] accepts it under this pair's public key.
    pub fn sign(&self, message: &[u8]) -> (signature: [u8; 64])
        ensures
            is_signature_by(self.document(), message@, signature@),
            verification(self.public(), message@, signature@) is Ok,
            self.wf(),
    {
        proof {
            use_type_invariant(self);
        }
        ring_sign(self.document.as_slice(), message)
    }
}

/// `signature` is what signing `message` with the key in `document` gives.
pub open spec fn is_signature_by(document: Seq<u8>, message: Seq<u8>, signature: Seq<u8>) -> bool {
    &&& signature.len() == SIGNATURE_LENGTH
    &&& ring_pkcs8_public_key(document) is Some
    &&& signature == ring_ed25519_signature(document, message)
    &&& ring_ed25519_verifies(ring_pkcs8_public_key(document).unwrap(), message, signature)
}

/// What [`verify`] returns.
pub open spec fn verification(public_key: Seq<u8>, message: Seq<u8>, signature: Seq<u8>) -> Result<
    (),
    Ed25519Error,
> {
    if ring_ed25519_verifies(public_key, message, signature) {
        Ok(())
    } else {
        Err(Ed25519Error::SignatureInvalid)
    }
}

/// Generates a fresh key pair and returns it as a PKCS#8 v2 document, which
/// [`keypair_from_bytes`] loads.
pub fn generate() -> (r: Result<Vec<u8>, Ed25519Error>)
    ensures
        r matches Ok(document) ==> ring_pkcs8_public_key(document@) is Some,
        r matches Err(e) ==> e == Ed25519Error::KeyGenerationFailed,
{
    match ring_generate_pkcs8() {
        Ok(document) => Ok(document),
        Err(_) => Err(Ed25519Error::KeyGenerationFailed),
    }
}

/// Loads a key pair from a PKCS#8 v2 document.
pub fn keypair_from_bytes(key_bytes: &[u8]) -> (r: Result<KeyPair, Ed25519Error>)
    ensures
        match r {
            Ok(pair) => {
                &&& pair.wf()
                &&& pair.document() == key_bytes@
                &&& ring_pkcs8_public_key(key_bytes@) == Some(pair.public())
            },
            Err(e) => e == Ed25519Error::KeyRejected && ring_pkcs8_public_key(key_bytes@) is None,
        },
{
    match ring_pkcs8_to_public_key(key_bytes) {
        Ok(public_key) => Ok(KeyPair { document: slice_to_vec(key_bytes), public_key }),
        Err(_) => Err(Ed25519Error::KeyRejected),
    }
}

/// Signs a message with the private key in a PKCS#8 v2 document. The
/// signature depends on the key and the message alone. The only failure is a
/// document that is rejected.
pub fn sign(private_key: &[u8], message: &[u8]) -> (r: Result<[u8; 64], Ed25519Error>)
    ensures
        match r {
            Ok(signature) => is_signature_by(private_key@, message@, signature@),
            Err(e) => e == Ed25519Error::KeyRejected && ring_pkcs8_public_key(private_key@)
                is None,
        },
{
    match keypair_from_bytes(private_key) {
        Ok(pair) => Ok(pair.sign(message)),
        Err(e) => Err(e),
    }
}

/// Verifies a signature over a message under a public key.
///
/// Every failure is [`Ed25519Error::SignatureInvalid`]: a signature that
/// does not match, a public key that is not 32 bytes or not a point of the
/// curve, a signature that is not 64 bytes.
pub fn verify(pubkey_bytes: &[u8], msg: &[u8], signature: &[u8]) -> (r: Result<(), Ed25519Error>)
    ensures
        r == verification(pubkey_bytes@, msg@, signature@),
        pubkey_bytes@.len() != PUBLIC_KEY_LENGTH ==> r == Err::<(), Ed25519Error>(
            Ed25519Error::SignatureInvalid,
        ),
        signature@.len() != SIGNATURE_LENGTH ==> r == Err::<(), Ed25519Error>(
            Ed25519Error::SignatureInvalid,
        ),
{
    match ring_verify(pubkey_bytes, msg, signature) {
        Ok(()) => Ok(()),
        Err(_) => Err(Ed25519Error::SignatureInvalid),
    }
}

// ---------------------------------------------------------------------------
// Laws
// ---------------------------------------------------------------------------

/// A signature verifies under the signer's public key: whatever [`sign`]
/// returns for a private key and a message, [`verify`] accepts over the same
/// message under the public key that belongs to the private key.
pub proof fn lemma_own_signature_verifies(
    private_key: Seq<u8>,
    message: Seq<u8>,
    signature: Seq<u8>,
)
    requires
        is_signature_by(private_key, message, signature),
    ensures
        verification(ring_pkcs8_public_key(private_key).unwrap(), message, signature) == Ok::<
            (),
            Ed25519Error,
        >(()),
{
}

/// The same of a loaded pair: whatever [`KeyPair::sign`] returns for a
/// message, [`verify`] accepts over the same message under
/// [`KeyPair::public_key`].
pub proof fn lemma_pair_signature_verifies(pair: KeyPair, message: Seq<u8>, signature: Seq<u8>)
    requires
        pair.wf(),
        is_signature_by(pair.document(), message, signature),
    ensures
        verification(pair.public(), message, signature) == Ok::<(), Ed25519Error>(()),
{
}

} // verus!
