//! AES-256-GCM envelopes, keyed directly or through PBKDF2-HMAC-SHA256.
//!
//! Two byte layouts are produced and consumed:
//!
//! - raw key: `nonce (12) || ciphertext || tag (16)`
//! - passphrase: `salt (16) || nonce (12) || ciphertext || tag (16)`
//!
//! The block cipher, the key derivation and the randomness come from the
//! `aes-gcm`, `pbkdf2` and `sha2` crates. What is proved here is the framing:
//! where the nonce and the salt stand, which inputs are turned away before
//! any cryptographic work, and that opening undoes sealing.

use aes_gcm::aead::rand_core::RngCore;
use aes_gcm::aead::{Aead, AeadCore, KeyInit, OsRng};
use aes_gcm::{Aes256Gcm, Key, Nonce};
use vstd::prelude::*;

verus! {

/// Length of a symmetric key in bytes.
pub const KEY_LENGTH: usize = 32;

/// Length of the random salt of a passphrase envelope in bytes.
pub const SALT_LENGTH: usize = 16;

/// Length of the GCM nonce in bytes.
pub const NONCE_LENGTH: usize = 12;

/// Length of the GCM authentication tag in bytes.
pub const TAG_LENGTH: usize = 16;

/// PBKDF2 rounds used by [`encrypt_with_passphrase`] and
/// [`decrypt_with_passphrase`].
pub const PBKDF2_ITERATIONS: u32 = 100_000;

/// Longest plaintext, in bytes, that AES-GCM seals under one nonce (2^36).
pub const MAX_PLAINTEXT_LENGTH: u64 = 0x10_0000_0000;

/// Why sealing or opening an envelope failed.
#[derive(Clone, Copy, Debug, PartialEq, Eq, Structural)]
pub enum CipherError {
    /// The input is shorter than the envelope's fixed header.
    InputTooShort,
    /// The tag did not verify: wrong key, wrong passphrase, or altered bytes.
    /// The causes are not told apart.
    AuthenticationFailure,
    /// The plaintext is longer than [`MAX_PLAINTEXT_LENGTH`].
    PlaintextTooLong,
}

impl CipherError {
    /// A short description of the failure.
    pub fn message(&self) -> (text: &'static str)
        ensures
            text@ == match *self {
                CipherError::InputTooShort => "Ciphertext too short"@,
                CipherError::AuthenticationFailure => "Authentication failed"@,
                CipherError::PlaintextTooLong => "Plaintext too long"@,
            },
    {
        match self {
            CipherError::InputTooShort => "Ciphertext too short",
            CipherError::AuthenticationFailure => "Authentication failed",
            CipherError::PlaintextTooLong => "Plaintext too long",
        }
    }
}

// ---------------------------------------------------------------------------
// The outside primitives
// ---------------------------------------------------------------------------

/// The error of the `aead` traits, as `aes_gcm` exports it. It carries no
/// information.
#[verifier::external_type_specification]
#[verifier::external_body]
pub struct ExAeadError(aes_gcm::Error);

/// The 32 bytes that PBKDF2-HMAC-SHA256 yields for a password, a salt and a
/// round count, as `pbkdf2::pbkdf2_hmac_array::<Sha256, 32>` computes them.
pub uninterp spec fn pbkdf2_hmac_sha256(password: Seq<u8>, salt: Seq<u8>, rounds: u32) -> Seq<u8>;

/// The ciphertext with its tag appended that `Aes256Gcm::encrypt` returns for
/// a key, a nonce and a plaintext, with no associated data.
pub uninterp spec fn aes256_gcm_sealed(key: Seq<u8>, nonce: Seq<u8>, plaintext: Seq<u8>) -> Seq<u8>;

/// What `Aes256Gcm::decrypt` returns for a key, a nonce and a ciphertext with
/// its tag, with no associated data: the plaintext, or `None` where it
/// returns an error.
pub uninterp spec fn aes256_gcm_opened(key: Seq<u8>, nonce: Seq<u8>, sealed: Seq<u8>) -> Option<
    Seq<u8>,
>;

/// What holds of a successful `Aes256Gcm::encrypt`: its result is the named
/// one, it is the plaintext's length plus the tag, and `Aes256Gcm::decrypt`
/// with the same key and nonce gives the plaintext back.
pub open spec fn is_sealing(
    key: Seq<u8>,
    nonce: Seq<u8>,
    plaintext: Seq<u8>,
    sealed: Seq<u8>,
) -> bool {
    &&& sealed == aes256_gcm_sealed(key, nonce, plaintext)
    &&& sealed.len() == plaintext.len() + TAG_LENGTH
    &&& aes256_gcm_opened(key, nonce, sealed) == Some(plaintext)
}

/// Calls `pbkdf2::pbkdf2_hmac_array::<Sha256, 32>`. The result depends on
/// the three arguments alone; the contract names it and claims nothing more.
/// The call accepts every password, salt and round count.
#[verifier::external_body]
fn pbkdf2_sha256_key(password: &[u8], salt: &[u8], rounds: u32) -> (key: [u8; 32])
    ensures
        key@ == pbkdf2_hmac_sha256(password@, salt@, rounds),
{
    pbkdf2::pbkdf2_hmac_array::<sha2::Sha256, 32>(password, salt, rounds)
}

/// Calls `Aes256Gcm::encrypt` with no associated data. Claimed of it: it
/// fails exactly on a plaintext longer than 2^36 bytes (the only test the
/// crate makes before sealing); a success is the named result, as long as the
/// plaintext plus the 16-byte tag; and `Aes256Gcm::decrypt` with the same key
/// and nonce recomputes the same tag over it and gives the plaintext back.
#[verifier::external_body]
fn aes256_gcm_seal(key: &[u8; 32], nonce: &[u8; 12], plaintext: &[u8]) -> (r: Result<
    Vec<u8>,
    aes_gcm::Error,
>)
    ensures
        r is Ok <==> plaintext@.len() <= MAX_PLAINTEXT_LENGTH,
        r matches Ok(sealed) ==> sealed@ == aes256_gcm_sealed(key@, nonce@, plaintext@),
        r matches Ok(sealed) ==> sealed@.len() == plaintext@.len() + TAG_LENGTH,
        r matches Ok(sealed) ==> aes256_gcm_opened(key@, nonce@, sealed@) == Some(plaintext@),
{
    let cipher = Aes256Gcm::new(Key::<Aes256Gcm>::from_slice(key));
    cipher.encrypt(Nonce::from_slice(nonce), plaintext)
}

/// Calls `Aes256Gcm::decrypt` with no associated data. The nonce must be 12
/// bytes long, else `Nonce::from_slice` panics. Claimed of it: the outcome is
/// the named one, and a plaintext is shorter than the input by the tag.
#[verifier::external_body]
fn aes256_gcm_open(key: &[u8; 32], nonce: &[u8], sealed: &[u8]) -> (r: Result<
    Vec<u8>,
    aes_gcm::Error,
>)
    requires
        nonce@.len() == NONCE_LENGTH,
    ensures
        match r {
            Ok(plaintext) => aes256_gcm_opened(key@, nonce@, sealed@) == Some(plaintext@),
            Err(_) => aes256_gcm_opened(key@, nonce@, sealed@) is None,
        },
        r matches Ok(plaintext) ==> plaintext@.len() + TAG_LENGTH == sealed@.len(),
{
    let cipher = Aes256Gcm::new(Key::<Aes256Gcm>::from_slice(key));
    cipher.decrypt(Nonce::from_slice(nonce), sealed)
}

/// Calls `Aes256Gcm::generate_key` on the operating system's random number
/// generator. Nothing is claimed of the bytes. The generator panics where the
/// operating system cannot supply randomness.
#[verifier::external_body]
fn random_key() -> (key: [u8; 32]) {
    Aes256Gcm::generate_key(&mut OsRng).into()
}

/// Calls `Aes256Gcm::generate_nonce` on the operating system's random number
/// generator. Nothing is claimed of the bytes. The generator panics where the
/// operating system cannot supply randomness.
#[verifier::external_body]
fn random_nonce() -> (nonce: [u8; 12]) {
    Aes256Gcm::generate_nonce(&mut OsRng).into()
}

/// Calls `OsRng::fill_bytes` on sixteen bytes. Nothing is claimed of the
/// bytes. The generator panics where the operating system cannot supply
/// randomness.
#[verifier::external_body]
fn random_salt() -> (salt: [u8; 16]) {
    let mut salt = [0u8; 16];
    OsRng.fill_bytes(&mut salt);
    salt
}

// ---------------------------------------------------------------------------
// The envelopes, as mathematics
// ---------------------------------------------------------------------------

/// The raw-key envelope for a given nonce: the nonce, then the sealed bytes.
pub open spec fn sealed_envelope(key: Seq<u8>, nonce: Seq<u8>, plaintext: Seq<u8>) -> Seq<u8> {
    nonce + aes256_gcm_sealed(key, nonce, plaintext)
}

/// `envelope` is what sealing `plaintext` under `key` with `nonce` gives.
pub open spec fn is_envelope_with(
    key: Seq<u8>,
    nonce: Seq<u8>,
    plaintext: Seq<u8>,
    envelope: Seq<u8>,
) -> bool {
    &&& nonce.len() == NONCE_LENGTH
    &&& envelope == sealed_envelope(key, nonce, plaintext)
    &&& is_sealing(key, nonce, plaintext, aes256_gcm_sealed(key, nonce, plaintext))
}

/// `envelope` is a possible result of [`encrypt`] for `key` and `plaintext`:
/// it is the envelope for some nonce.
pub open spec fn is_envelope(key: Seq<u8>, plaintext: Seq<u8>, envelope: Seq<u8>) -> bool {
    exists|nonce: Seq<u8>| #[trigger] is_envelope_with(key, nonce, plaintext, envelope)
}

/// What opening a raw-key envelope gives.
pub open spec fn opened_envelope(key: Seq<u8>, data: Seq<u8>) -> Result<Seq<u8>, CipherError> {
    if data.len() < NONCE_LENGTH {
        Err(CipherError::InputTooShort)
    } else {
        match aes256_gcm_opened(
            key,
            data.subrange(0, NONCE_LENGTH as int),
            data.subrange(NONCE_LENGTH as int, data.len() as int),
        ) {
            Some(plaintext) => Ok(plaintext),
            None => Err(CipherError::AuthenticationFailure),
        }
    }
}

/// AES-GCM under `key` rejects the bytes of `envelope` after its first
/// twelve, with those twelve as the nonce: the tag does not match.
pub open spec fn tag_rejected(key: Seq<u8>, envelope: Seq<u8>) -> bool {
    aes256_gcm_opened(
        key,
        envelope.subrange(0, NONCE_LENGTH as int),
        envelope.subrange(NONCE_LENGTH as int, envelope.len() as int),
    ) is None
}

/// The key that a passphrase and a salt give at the fixed round count.
pub open spec fn passphrase_key(passphrase: Seq<u8>, salt: Seq<u8>) -> Seq<u8> {
    pbkdf2_hmac_sha256(passphrase, salt, PBKDF2_ITERATIONS)
}

/// The passphrase envelope for a given salt and nonce: the salt, then the
/// raw-key envelope under the derived key.
pub open spec fn sealed_passphrase_envelope(
    passphrase: Seq<u8>,
    salt: Seq<u8>,
    nonce: Seq<u8>,
    plaintext: Seq<u8>,
) -> Seq<u8> {
    salt + sealed_envelope(passphrase_key(passphrase, salt), nonce, plaintext)
}

/// `envelope` is what sealing `plaintext` under `passphrase` with `salt` and
/// `nonce` gives.
pub open spec fn is_passphrase_envelope_with(
    passphrase: Seq<u8>,
    salt: Seq<u8>,
    nonce: Seq<u8>,
    plaintext: Seq<u8>,
    envelope: Seq<u8>,
) -> bool {
    &&& salt.len() == SALT_LENGTH
    &&& envelope == sealed_passphrase_envelope(passphrase, salt, nonce, plaintext)
    &&& is_envelope_with(
        passphrase_key(passphrase, salt),
        nonce,
        plaintext,
        sealed_envelope(passphrase_key(passphrase, salt), nonce, plaintext),
    )
}

/// `envelope` is a possible result of [`encrypt_with_passphrase`] for
/// `passphrase` and `plaintext`: it is the envelope for some salt and nonce.
pub open spec fn is_passphrase_envelope(
    passphrase: Seq<u8>,
    plaintext: Seq<u8>,
    envelope: Seq<u8>,
) -> bool {
    exists|salt: Seq<u8>, nonce: Seq<u8>| #[trigger]
        is_passphrase_envelope_with(passphrase, salt, nonce, plaintext, envelope)
}

/// What opening a passphrase envelope gives.
pub open spec fn opened_passphrase_envelope(passphrase: Seq<u8>, data: Seq<u8>) -> Result<
    Seq<u8>,
    CipherError,
> {
    if data.len() < SALT_LENGTH + NONCE_LENGTH {
        Err(CipherError::InputTooShort)
    } else {
        opened_envelope(
            passphrase_key(passphrase, data.subrange(0, SALT_LENGTH as int)),
            data.subrange(SALT_LENGTH as int, data.len() as int),
        )
    }
}

/// An executable result agrees with a mathematical one.
pub open spec fn agrees(
    r: Result<Vec<u8>, CipherError>,
    expected: Result<Seq<u8>, CipherError>,
) -> bool {
    match (r, expected) {
        (Ok(bytes), Ok(seq)) => bytes@ == seq,
        (Err(e), Err(f)) => e == f,
        _ => false,
    }
}

// ---------------------------------------------------------------------------
// Raw-key encryption
// ---------------------------------------------------------------------------

/// Generates a random 256-bit key.
pub fn generate_key() -> (key: [u8; 32])
    ensures
        key@.len() == KEY_LENGTH,
{
    random_key()
}

/// Seals `plaintext` under `key` with the given nonce and returns
/// `nonce || ciphertext || tag`.
///
/// A nonce must never be used twice with one key; [`encrypt`] draws a fresh
/// one and is the function to call unless the nonce is managed elsewhere.
pub fn encrypt_with_nonce(key: &[u8; 32], nonce: &[u8; 12], plaintext: &[u8]) -> (r: Result<
    Vec<u8>,
    CipherError,
>)
    ensures
        plaintext@.len() <= MAX_PLAINTEXT_LENGTH ==> r is Ok,
        plaintext@.len() > MAX_PLAINTEXT_LENGTH ==> r == Err::<Vec<u8>, CipherError>(
            CipherError::PlaintextTooLong,
        ),
        r matches Ok(envelope) ==> {
            &&& envelope@ == sealed_envelope(key@, nonce@, plaintext@)
            &&& envelope@.len() == NONCE_LENGTH + plaintext@.len() + TAG_LENGTH
            &&& is_envelope_with(key@, nonce@, plaintext@, envelope@)
        },
{
    match aes256_gcm_seal(key, nonce, plaintext) {
        Ok(sealed) => {
            let mut envelope: Vec<u8> = Vec::with_capacity(
                NONCE_LENGTH.saturating_add(sealed.len()),
            );
            envelope.extend_from_slice(nonce.as_slice());
            envelope.extend_from_slice(sealed.as_slice());
            Ok(envelope)
        },
        Err(_) => Err(CipherError::PlaintextTooLong),
    }
}

/// Encrypts `plaintext` under `key` with a fresh random nonce and returns
/// `nonce || ciphertext || tag`.
pub fn encrypt(key: &[u8; 32], plaintext: &[u8]) -> (r: Result<Vec<u8>, CipherError>)
    ensures
        plaintext@.len() <= MAX_PLAINTEXT_LENGTH ==> r is Ok,
        plaintext@.len() > MAX_PLAINTEXT_LENGTH ==> r == Err::<Vec<u8>, CipherError>(
            CipherError::PlaintextTooLong,
        ),
        r matches Ok(envelope) ==> {
            &&& is_envelope(key@, plaintext@, envelope@)
            &&& envelope@.len() == NONCE_LENGTH + plaintext@.len() + TAG_LENGTH
            &&& opened_envelope(key@, envelope@) == Ok::<Seq<u8>, CipherError>(plaintext@)
        },
{
    let nonce = random_nonce();
    let r = encrypt_with_nonce(key, &nonce, plaintext);
    proof {
        if let Ok(envelope) = &r {
            lemma_decrypt_inverts_encrypt(key@, plaintext@, envelope@);
        }
    }
    r
}

/// Opens an envelope of the layout `nonce || ciphertext || tag`.
///
/// Fewer than 12 bytes are turned away as [`CipherError::InputTooShort`]
/// before any cryptographic work. Every other failure is
/// [`CipherError::AuthenticationFailure`].
pub fn decrypt(key: &[u8; 32], data: &[u8]) -> (r: Result<Vec<u8>, CipherError>)
    ensures
        agrees(r, opened_envelope(key@, data@)),
        data@.len() < NONCE_LENGTH ==> r == Err::<Vec<u8>, CipherError>(
            CipherError::InputTooShort,
        ),
        r matches Ok(plaintext) ==> plaintext@.len() + NONCE_LENGTH + TAG_LENGTH == data@.len(),
{
    if data.len() < NONCE_LENGTH {
        return Err(CipherError::InputTooShort);
    }
    let (nonce, sealed) = data.split_at(NONCE_LENGTH);
    match aes256_gcm_open(key, nonce, sealed) {
        Ok(plaintext) => Ok(plaintext),
        Err(_) => Err(CipherError::AuthenticationFailure),
    }
}

// ---------------------------------------------------------------------------
// Passphrase encryption
// ---------------------------------------------------------------------------

/// Derives a 256-bit key from a passphrase and a salt with
/// PBKDF2-HMAC-SHA256. Equal inputs give equal keys; no randomness enters.
pub fn derive_key(passphrase: &[u8], salt: &[u8], iterations: u32) -> (key: [u8; 32])
    ensures
        key@ == pbkdf2_hmac_sha256(passphrase@, salt@, iterations),
        key@.len() == KEY_LENGTH,
{
    pbkdf2_sha256_key(passphrase, salt, iterations)
}

/// Seals `plaintext` under the key that `passphrase` and `salt` give at
/// [`PBKDF2_ITERATIONS`] rounds, with the given nonce, and returns
/// `salt || nonce || ciphertext || tag`.
///
/// A nonce must never be used twice with one key, and a salt should be
/// fresh; [`encrypt_with_passphrase`] draws both and is the function to call
/// unless they are managed elsewhere.
pub fn encrypt_with_salt_and_nonce(
    passphrase: &[u8],
    salt: &[u8; 16],
    nonce: &[u8; 12],
    plaintext: &[u8],
) -> (r: Result<Vec<u8>, CipherError>)
    ensures
        plaintext@.len() <= MAX_PLAINTEXT_LENGTH ==> r is Ok,
        plaintext@.len() > MAX_PLAINTEXT_LENGTH ==> r == Err::<Vec<u8>, CipherError>(
            CipherError::PlaintextTooLong,
        ),
        r matches Ok(envelope) ==> {
            &&& envelope@ == sealed_passphrase_envelope(passphrase@, salt@, nonce@, plaintext@)
            &&& envelope@.len() == SALT_LENGTH + NONCE_LENGTH + plaintext@.len() + TAG_LENGTH
            &&& is_passphrase_envelope_with(passphrase@, salt@, nonce@, plaintext@, envelope@)
        },
{
    let key = derive_key(passphrase, salt.as_slice(), PBKDF2_ITERATIONS);
    match encrypt_with_nonce(&key, nonce, plaintext) {
        Ok(inner) => {
            let mut envelope: Vec<u8> = Vec::with_capacity(
                SALT_LENGTH.saturating_add(inner.len()),
            );
            envelope.extend_from_slice(salt.as_slice());
            envelope.extend_from_slice(inner.as_slice());
            Ok(envelope)
        },
        Err(e) => Err(e),
    }
}

/// Encrypts `plaintext` under a passphrase with a fresh random salt and a
/// fresh random nonce, and returns `salt || nonce || ciphertext || tag`.
pub fn encrypt_with_passphrase(passphrase: &[u8], plaintext: &[u8]) -> (r: Result<
    Vec<u8>,
    CipherError,
>)
    ensures
        plaintext@.len() <= MAX_PLAINTEXT_LENGTH ==> r is Ok,
        plaintext@.len() > MAX_PLAINTEXT_LENGTH ==> r == Err::<Vec<u8>, CipherError>(
            CipherError::PlaintextTooLong,
        ),
        r matches Ok(envelope) ==> {
            &&& is_passphrase_envelope(passphrase@, plaintext@, envelope@)
            &&& envelope@.len() == SALT_LENGTH + NONCE_LENGTH + plaintext@.len() + TAG_LENGTH
            &&& opened_passphrase_envelope(passphrase@, envelope@) == Ok::<Seq<u8>, CipherError>(
                plaintext@,
            )
        },
{
    let salt = random_salt();
    let nonce = random_nonce();
    let r = encrypt_with_salt_and_nonce(passphrase, &salt, &nonce, plaintext);
    proof {
        if let Ok(envelope) = &r {
            lemma_passphrase_decrypt_inverts_encrypt(passphrase@, plaintext@, envelope@);
        }
    }
    r
}

/// Opens an envelope of the layout `salt || nonce || ciphertext || tag`.
///
/// Fewer than 28 bytes are turned away as [`CipherError::InputTooShort`]
/// before any cryptographic work. A wrong passphrase and altered bytes both
/// give [`CipherError::AuthenticationFailure`].
pub fn decrypt_with_passphrase(passphrase: &[u8], data: &[u8]) -> (r: Result<
    Vec<u8>,
    CipherError,
>)
    ensures
        agrees(r, opened_passphrase_envelope(passphrase@, data@)),
        data@.len() < SALT_LENGTH + NONCE_LENGTH ==> r == Err::<Vec<u8>, CipherError>(
            CipherError::InputTooShort,
        ),
        data@.len() >= SALT_LENGTH + NONCE_LENGTH ==> r != Err::<Vec<u8>, CipherError>(
            CipherError::InputTooShort,
        ),
        r matches Ok(plaintext) ==> plaintext@.len() + SALT_LENGTH + NONCE_LENGTH + TAG_LENGTH
            == data@.len(),
{
    if data.len() < SALT_LENGTH + NONCE_LENGTH {
        return Err(CipherError::InputTooShort);
    }
    let (salt, rest) = data.split_at(SALT_LENGTH);
    let key = derive_key(passphrase, salt, PBKDF2_ITERATIONS);
    decrypt(&key, rest)
}

// ---------------------------------------------------------------------------
// Laws
// ---------------------------------------------------------------------------

/// Opening undoes sealing: whatever [`encrypt`] returns for a key and a
/// plaintext, [`decrypt`] with the same key maps back to that plaintext.
pub proof fn lemma_decrypt_inverts_encrypt(key: Seq<u8>, plaintext: Seq<u8>, envelope: Seq<u8>)
    requires
        is_envelope(key, plaintext, envelope),
    ensures
        opened_envelope(key, envelope) == Ok::<Seq<u8>, CipherError>(plaintext),
{
    let nonce = choose|nonce: Seq<u8>| #[trigger] is_envelope_with(key, nonce, plaintext, envelope);
    let sealed = aes256_gcm_sealed(key, nonce, plaintext);
    assert(envelope.subrange(0, NONCE_LENGTH as int) =~= nonce);
    assert(envelope.subrange(NONCE_LENGTH as int, envelope.len() as int) =~= sealed);
}

/// Opening undoes sealing under a passphrase: whatever
/// [`encrypt_with_passphrase`] returns for a passphrase and a plaintext,
/// [`decrypt_with_passphrase`] with the same passphrase maps back to that
/// plaintext.
pub proof fn lemma_passphrase_decrypt_inverts_encrypt(
    passphrase: Seq<u8>,
    plaintext: Seq<u8>,
    envelope: Seq<u8>,
)
    requires
        is_passphrase_envelope(passphrase, plaintext, envelope),
    ensures
        opened_passphrase_envelope(passphrase, envelope) == Ok::<Seq<u8>, CipherError>(plaintext),
{
    let (salt, nonce) = choose|salt: Seq<u8>, nonce: Seq<u8>| #[trigger]
        is_passphrase_envelope_with(passphrase, salt, nonce, plaintext, envelope);
    let key = passphrase_key(passphrase, salt);
    let inner = sealed_envelope(key, nonce, plaintext);
    assert(envelope.subrange(0, SALT_LENGTH as int) =~= salt);
    assert(envelope.subrange(SALT_LENGTH as int, envelope.len() as int) =~= inner);
    lemma_decrypt_inverts_encrypt(key, plaintext, inner);
}

/// Under another key decryption fails: [`decrypt`] reports
/// [`CipherError::AuthenticationFailure`] for a result of [`encrypt`] under
/// every other key whose tag over the same bytes does not match. Which keys
/// those are is for AES-GCM to say; a key whose tag matches would open the
/// envelope.
pub proof fn lemma_other_key_fails(
    key: Seq<u8>,
    other_key: Seq<u8>,
    plaintext: Seq<u8>,
    envelope: Seq<u8>,
)
    requires
        is_envelope(key, plaintext, envelope),
        key != other_key,
        tag_rejected(other_key, envelope),
    ensures
        opened_envelope(other_key, envelope) == Err::<Seq<u8>, CipherError>(
            CipherError::AuthenticationFailure,
        ),
{
}

/// A result of [`encrypt`] never fails as too short: under whatever key,
/// [`decrypt`] opens it or reports [`CipherError::AuthenticationFailure`].
pub proof fn lemma_envelope_fails_only_authentication(
    key: Seq<u8>,
    other_key: Seq<u8>,
    plaintext: Seq<u8>,
    envelope: Seq<u8>,
)
    requires
        is_envelope(key, plaintext, envelope),
    ensures
        opened_envelope(other_key, envelope) is Err <==> tag_rejected(other_key, envelope),
        opened_envelope(other_key, envelope) is Err ==> opened_envelope(other_key, envelope)
            == Err::<Seq<u8>, CipherError>(CipherError::AuthenticationFailure),
{
}

/// A result of [`encrypt_with_passphrase`] never fails as too short: where
/// [`decrypt_with_passphrase`] fails on it under whatever passphrase, it
/// reports [`CipherError::AuthenticationFailure`], as it does for altered
/// bytes.
pub proof fn lemma_passphrase_envelope_fails_only_authentication(
    passphrase: Seq<u8>,
    other_passphrase: Seq<u8>,
    plaintext: Seq<u8>,
    envelope: Seq<u8>,
)
    requires
        is_passphrase_envelope(passphrase, plaintext, envelope),
    ensures
        opened_passphrase_envelope(other_passphrase, envelope) is Err
            ==> opened_passphrase_envelope(other_passphrase, envelope) == Err::<
            Seq<u8>,
            CipherError,
        >(CipherError::AuthenticationFailure),
{
}

/// Key derivation is a function: equal passphrases, salts and round counts
/// give equal keys.
pub proof fn lemma_derive_key_deterministic(
    passphrase_a: Seq<u8>,
    salt_a: Seq<u8>,
    iterations_a: u32,
    passphrase_b: Seq<u8>,
    salt_b: Seq<u8>,
    iterations_b: u32,
)
    requires
        passphrase_a =~= passphrase_b,
        salt_a =~= salt_b,
        iterations_a == iterations_b,
    ensures
        pbkdf2_hmac_sha256(passphrase_a, salt_a, iterations_a) == pbkdf2_hmac_sha256(
            passphrase_b,
            salt_b,
            iterations_b,
        ),
{
}

/// Too short an input is turned away whatever the key or passphrase: under
/// 12 bytes by [`decrypt`], under 28 bytes by [`decrypt_with_passphrase`].
pub proof fn lemma_short_input_rejected(key: Seq<u8>, passphrase: Seq<u8>, data: Seq<u8>)
    ensures
        data.len() < NONCE_LENGTH ==> opened_envelope(key, data) == Err::<Seq<u8>, CipherError>(
            CipherError::InputTooShort,
        ),
        data.len() < SALT_LENGTH + NONCE_LENGTH ==> opened_passphrase_envelope(passphrase, data)
            == Err::<Seq<u8>, CipherError>(CipherError::InputTooShort),
{
}

} // verus!
