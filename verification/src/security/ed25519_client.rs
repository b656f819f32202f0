//! Ed25519 authentication of RPC traffic.
//!
//! A [`SigningInterceptor`] signs the serialised payload of an outgoing
//! request and names the two binary metadata entries that carry the
//! signature and the sender's public key. A [`ResponseVerifier`] checks the
//! signature entry of an incoming response against a known public key.
//!
//! The module is independent of the RPC framework: it is handed the outcome
//! of serialising a payload and the outcome of looking a header up, and hands
//! back plain bytes. The curve arithmetic is `ed25519-dalek`'s. What is
//! proved here is which bytes are signed and verified, in which order the
//! checks on a response are made, and which failure each of them reports.

use ed25519_dalek::{Signer, Verifier};
use vstd::prelude::*;
use vstd::slice::slice_to_vec;

verus! {

/// Length of an Ed25519 secret key in bytes.
pub const SECRET_KEY_LENGTH: usize = 32;

/// Length of an Ed25519 public key in bytes.
pub const PUBLIC_KEY_LENGTH: usize = 32;

/// Length of an Ed25519 signature in bytes.
pub const SIGNATURE_LENGTH: usize = 64;

/// Why signing a request or verifying a response failed.
#[derive(Clone, Copy, Debug, PartialEq, Eq, Structural)]
pub enum Ed25519ClientError {
    /// The payload could not be serialised.
    EncodingFailure,
    /// The response carries no signature entry.
    MissingSignature,
    /// The signature entry does not hold exactly 64 bytes.
    MalformedSignature,
    /// The signature does not verify under the known public key.
    AuthenticationFailure,
}

/// The class of RPC status under which a failure is reported.
#[derive(Clone, Copy, Debug, PartialEq, Eq, Structural)]
pub enum StatusCode {
    /// The fault lies with this side.
    Internal,
    /// The other side has not shown who it is.
    Unauthenticated,
}

impl Ed25519ClientError {
    /// The status that the failure maps to at the RPC boundary: every
    /// failure to verify is unauthenticated; a payload that does not
    /// serialise is an internal error.
    pub fn status_code(&self) -> (code: StatusCode)
        ensures
            code == match *self {
                Ed25519ClientError::EncodingFailure => StatusCode::Internal,
                Ed25519ClientError::MissingSignature => StatusCode::Unauthenticated,
                Ed25519ClientError::MalformedSignature => StatusCode::Unauthenticated,
                Ed25519ClientError::AuthenticationFailure => StatusCode::Unauthenticated,
            },
    {
        match self {
            Ed25519ClientError::EncodingFailure => StatusCode::Internal,
            _ => StatusCode::Unauthenticated,
        }
    }

    /// A short description of the failure.
    pub fn message(&self) -> (text: &'static str)
        ensures
            text@ == match *self {
                Ed25519ClientError::EncodingFailure => "Protobuf encoding error"@,
                Ed25519ClientError::MissingSignature => "Missing signature header"@,
                Ed25519ClientError::MalformedSignature => "Invalid signature"@,
                Ed25519ClientError::AuthenticationFailure => "Signature verification failed"@,
            },
    {
        match self {
            Ed25519ClientError::EncodingFailure => "Protobuf encoding error",
            Ed25519ClientError::MissingSignature => "Missing signature header",
            Ed25519ClientError::MalformedSignature => "Invalid signature",
            Ed25519ClientError::AuthenticationFailure => "Signature verification failed",
        }
    }
}

// ---------------------------------------------------------------------------
// The outside primitives
// ---------------------------------------------------------------------------

/// The error of `ed25519-dalek`.
#[verifier::external_type_specification]
#[verifier::external_body]
pub struct ExSignatureError(ed25519_dalek::SignatureError);

/// The error of `prost` for a buffer too small to encode into.
#[verifier::external_type_specification]
#[verifier::external_body]
pub struct ExEncodeError(prost::EncodeError);

/// The bytes of the verifying key of the `SigningKey` that
/// `SigningKey::from_bytes` builds from a secret key.
pub uninterp spec fn dalek_public_key(secret_key: Seq<u8>) -> Seq<u8>;

/// The bytes of the signature that `Signer::sign` gives for a message, made
/// with the `SigningKey` that `SigningKey::from_bytes` builds from a secret
/// key.
pub uninterp spec fn dalek_signature(secret_key: Seq<u8>, message: Seq<u8>) -> Seq<u8>;

/// Whether `VerifyingKey::from_bytes` accepts a public key and
/// `Verifier::verify` on it then accepts a signature over a message.
pub uninterp spec fn dalek_verifies(
    public_key: Seq<u8>,
    message: Seq<u8>,
    signature: Seq<u8>,
) -> bool;

/// Calls `SigningKey::from_bytes`, `SigningKey::verifying_key` and
/// `VerifyingKey::to_bytes`. The result depends on the secret key alone; the
/// contract names it and claims nothing more.
#[verifier::external_body]
fn dalek_verifying_key(secret_key: &[u8; 32]) -> (public_key: [u8; 32])
    ensures
        public_key@ == dalek_public_key(secret_key@),
{
    ed25519_dalek::SigningKey::from_bytes(secret_key).verifying_key().to_bytes()
}

/// Calls `SigningKey::from_bytes`, `Signer::sign` and `Signature::to_bytes`.
/// Claimed of it: the signature is the named one, and `ed25519-dalek`
/// verifies it over the same message under the key's verifying key.
#[verifier::external_body]
fn dalek_sign(secret_key: &[u8; 32], message: &[u8]) -> (signature: [u8; 64])
    ensures
        signature@ == dalek_signature(secret_key@, message@),
        dalek_verifies(dalek_public_key(secret_key@), message@, signature@),
{
    ed25519_dalek::SigningKey::from_bytes(secret_key).sign(message).to_bytes()
}

/// Calls `VerifyingKey::from_bytes`, `Signature::from_bytes` and
/// `Verifier::verify`. Claimed of it: it succeeds exactly where the named
/// predicate holds.
#[verifier::external_body]
fn dalek_verify(public_key: &[u8; 32], message: &[u8], signature: &[u8; 64]) -> (r: Result<
    (),
    ed25519_dalek::SignatureError,
>)
    ensures
        r is Ok <==> dalek_verifies(public_key@, message@, signature@),
{
    let key = ed25519_dalek::VerifyingKey::from_bytes(public_key)?;
    key.verify(message, &ed25519_dalek::Signature::from_bytes(signature))
}

/// Calls `prost::Message::encode` on the empty message `()` into a new
/// buffer. Claimed of it: it succeeds and writes nothing. The empty message
/// has the encoded length 0, which no buffer is too small for, and its
/// `encode_raw` does nothing.
#[verifier::external_body]
fn prost_encode_empty() -> (r: Result<Vec<u8>, prost::EncodeError>)
    ensures
        r is Ok,
        r matches Ok(bytes) ==> bytes@ == Seq::<u8>::empty(),
{
    let mut buffer = Vec::new();
    prost::Message::encode(&(), &mut buffer)?;
    Ok(buffer)
}

// ---------------------------------------------------------------------------
// Signing and verifying bytes
// ---------------------------------------------------------------------------

/// `signature` is what signing `message` with `secret_key` gives.
pub open spec fn is_signature_by(secret_key: Seq<u8>, message: Seq<u8>, signature: Seq<u8>) -> bool {
    &&& signature.len() == SIGNATURE_LENGTH
    &&& signature == dalek_signature(secret_key, message)
    &&& dalek_verifies(dalek_public_key(secret_key), message, signature)
}

/// What [`verify_bytes`] returns.
pub open spec fn verification(public_key: Seq<u8>, message: Seq<u8>, signature: Seq<u8>) -> Result<
    (),
    Ed25519ClientError,
> {
    if dalek_verifies(public_key, message, signature) {
        Ok(())
    } else {
        Err(Ed25519ClientError::AuthenticationFailure)
    }
}

/// The public key that belongs to a secret key.
pub fn verifying_key(key: &[u8; 32]) -> (public_key: [u8; 32])
    ensures
        public_key@ == dalek_public_key(key@),
{
    dalek_verifying_key(key)
}

/// Signs a slice of bytes. The signature depends on the key and the bytes
/// alone.
pub fn sign_bytes(key: &[u8; 32], data: &[u8]) -> (signature: [u8; 64])
    ensures
        is_signature_by(key@, data@, signature@),
        verification(dalek_public_key(key@), data@, signature@) is Ok,
{
    dalek_sign(key, data)
}

/// Verifies a signature over a slice of bytes under a public key. A public
/// key that is no point of the curve fails like a signature that does not
/// match.
pub fn verify_bytes(key: &[u8; 32], data: &[u8], signature: &[u8; 64]) -> (r: Result<
    (),
    Ed25519ClientError,
>)
    ensures
        r == verification(key@, data@, signature@),
{
    match dalek_verify(key, data, signature) {
        Ok(()) => Ok(()),
        Err(_) => Err(Ed25519ClientError::AuthenticationFailure),
    }
}

/// Signs a message, given the outcome of serialising it.
pub fn sign_message(key: &[u8; 32], encoded: &Result<Vec<u8>, prost::EncodeError>) -> (r: Result<
    [u8; 64],
    Ed25519ClientError,
>)
    ensures
        match *encoded {
            Ok(bytes) => r matches Ok(signature) && is_signature_by(key@, bytes@, signature@),
            Err(_) => r == Err::<[u8; 64], Ed25519ClientError>(
                Ed25519ClientError::EncodingFailure,
            ),
        },
{
    match encoded {
        Ok(bytes) => Ok(sign_bytes(key, bytes.as_slice())),
        Err(_) => Err(Ed25519ClientError::EncodingFailure),
    }
}

/// Verifies a signature over a message, given the outcome of serialising it.
/// The message must have been serialised.
pub fn verify_message(
    key: &[u8; 32],
    encoded: &Result<Vec<u8>, prost::EncodeError>,
    signature: &[u8; 64],
) -> (r: Result<(), Ed25519ClientError>)
    requires
        encoded is Ok,
    ensures
        r == verification(key@, encoded->Ok_0@, signature@),
{
    match encoded {
        Ok(bytes) => verify_bytes(key, bytes.as_slice(), signature),
        Err(_) => Err(Ed25519ClientError::EncodingFailure),
    }
}

// ---------------------------------------------------------------------------
// Outgoing requests
// ---------------------------------------------------------------------------

/// One binary metadata entry: the header's name and the raw bytes of its
/// value.
#[derive(Debug, PartialEq, Eq)]
pub struct BinaryHeader {
    pub name: String,
    pub value: Vec<u8>,
}

/// The two entries that a signed request carries.
#[derive(Debug, PartialEq, Eq)]
pub struct SignedMetadata {
    /// The signature over the serialised payload.
    pub signature: BinaryHeader,
    /// The sender's public key.
    pub public_key: BinaryHeader,
}

/// Signs outgoing requests.
pub struct SigningInterceptor {
    signing_key: [u8; 32],
    sig_header: String,
    pubkey_header: String,
}

impl SigningInterceptor {
    /// The secret key.
    pub closed spec fn signing_key(&self) -> Seq<u8> {
        self.signing_key@
    }

    /// The name of the signature header.
    pub closed spec fn sig_header(&self) -> Seq<char> {
        self.sig_header@
    }

    /// The name of the public-key header.
    pub closed spec fn pubkey_header(&self) -> Seq<char> {
        self.pubkey_header@
    }

    /// `metadata` is what this interceptor attaches to a request whose
    /// payload serialises to `payload`.
    pub open spec fn attaches(&self, payload: Seq<u8>, metadata: SignedMetadata) -> bool {
        &&& metadata.signature.name@ == self.sig_header()
        &&& is_signature_by(self.signing_key(), payload, metadata.signature.value@)
        &&& metadata.public_key.name@ == self.pubkey_header()
        &&& metadata.public_key.value@.len() == PUBLIC_KEY_LENGTH
        &&& metadata.public_key.value@ == dalek_public_key(self.signing_key())
    }

    /// Builds an interceptor from a secret key and the names of the two
    /// binary headers.
    pub fn new(signing_key: [u8; 32], sig_header: String, pubkey_header: String) -> (interceptor:
        Self)
        ensures
            interceptor.signing_key() == signing_key@,
            interceptor.sig_header() == sig_header@,
            interceptor.pubkey_header() == pubkey_header@,
    {
        SigningInterceptor { signing_key, sig_header, pubkey_header }
    }

    /// The name of the signature header.
    pub fn signature_header_name(&self) -> (name: &String)
        ensures
            name@ == self.sig_header(),
    {
        &self.sig_header
    }

    /// The name of the public-key header.
    pub fn public_key_header_name(&self) -> (name: &String)
        ensures
            name@ == self.pubkey_header(),
    {
        &self.pubkey_header
    }

    /// Signs a request, given the outcome of serialising its payload, and
    /// returns the signature and the public key under the configured
    /// headers. It fails only where the payload was not serialised.
    pub fn sign_request(&self, encoded: &Result<Vec<u8>, prost::EncodeError>) -> (r: Result<
        SignedMetadata,
        Ed25519ClientError,
    >)
        ensures
            match *encoded {
                Ok(payload) => r matches Ok(metadata) && self.attaches(payload@, metadata),
                Err(_) => r matches Err(e) && e == Ed25519ClientError::EncodingFailure,
            },
    {
        match encoded {
            Ok(payload) => {
                let signature = sign_bytes(&self.signing_key, payload.as_slice());
                let public_key = verifying_key(&self.signing_key);
                Ok(
                    SignedMetadata {
                        signature: BinaryHeader {
                            name: self.sig_header.clone(),
                            value: slice_to_vec(signature.as_slice()),
                        },
                        public_key: BinaryHeader {
                            name: self.pubkey_header.clone(),
                            value: slice_to_vec(public_key.as_slice()),
                        },
                    },
                )
            },
            Err(_) => Err(Ed25519ClientError::EncodingFailure),
        }
    }

    /// Signs a request without a payload, as an interceptor sees every
    /// request: it serialises the empty message and signs the result. This
    /// always succeeds.
    pub fn call(&self) -> (r: Result<SignedMetadata, Ed25519ClientError>)
        ensures
            r matches Ok(metadata) && self.attaches(Seq::<u8>::empty(), metadata),
    {
        let encoded = prost_encode_empty();
        self.sign_request(&encoded)
    }
}

// ---------------------------------------------------------------------------
// Incoming responses
// ---------------------------------------------------------------------------

/// What looking the signature header up in a response's metadata gave.
#[derive(Debug, PartialEq, Eq)]
pub enum SignatureHeader {
    /// The metadata has no entry under the header's name.
    Missing,
    /// The entry's value could not be decoded to bytes.
    Undecodable,
    /// The decoded bytes of the entry's value.
    Present(Vec<u8>),
}

/// What [`ResponseVerifier::verify`] returns for a public key, the outcome of
/// the header lookup and the outcome of serialising the payload. The checks
/// come in this order: the header is there; it holds 64 bytes; the payload
/// was serialised; the signature verifies.
pub open spec fn response_verification(
    server_pubkey: Seq<u8>,
    header: SignatureHeader,
    encoded: Result<Vec<u8>, prost::EncodeError>,
) -> Result<(), Ed25519ClientError> {
    match header {
        SignatureHeader::Missing => Err(Ed25519ClientError::MissingSignature),
        SignatureHeader::Undecodable => Err(Ed25519ClientError::MalformedSignature),
        SignatureHeader::Present(signature) => {
            if signature@.len() != SIGNATURE_LENGTH {
                Err(Ed25519ClientError::MalformedSignature)
            } else {
                match encoded {
                    Err(_) => Err(Ed25519ClientError::EncodingFailure),
                    Ok(payload) => verification(server_pubkey, payload@, signature@),
                }
            }
        },
    }
}

/// Copies a slice of 64 bytes into an array.
fn signature_from_slice(bytes: &[u8]) -> (signature: [u8; 64])
    requires
        bytes@.len() == SIGNATURE_LENGTH,
    ensures
        signature@ == bytes@,
{
    let mut signature = [0u8; 64];
    let mut i: usize = 0;
    while i < SIGNATURE_LENGTH
        invariant
            i <= SIGNATURE_LENGTH,
            bytes@.len() == SIGNATURE_LENGTH,
            forall|j: int| 0 <= j < i ==> signature@[j] == bytes@[j],
        decreases SIGNATURE_LENGTH - i,
    {
        signature[i] = bytes[i];
        i += 1;
    }
    signature
}

/// Verifies the signature entry of incoming responses against the public key
/// of the remote party. It keeps no state between calls.
pub struct ResponseVerifier {
    server_pubkey: [u8; 32],
    sig_header: String,
}

impl ResponseVerifier {
    /// The public key of the remote party.
    pub closed spec fn server_pubkey(&self) -> Seq<u8> {
        self.server_pubkey@
    }

    /// The name of the signature header.
    pub closed spec fn sig_header(&self) -> Seq<char> {
        self.sig_header@
    }

    /// Builds a verifier from the remote party's public key and the name of
    /// the binary header that carries the signature.
    pub fn new(server_pubkey: [u8; 32], sig_header: String) -> (verifier: Self)
        ensures
            verifier.server_pubkey() == server_pubkey@,
            verifier.sig_header() == sig_header@,
    {
        ResponseVerifier { server_pubkey, sig_header }
    }

    /// The name of the signature header.
    pub fn signature_header_name(&self) -> (name: &String)
        ensures
            name@ == self.sig_header(),
    {
        &self.sig_header
    }

    /// Verifies a response, given what the lookup of the signature header
    /// gave and the outcome of serialising the payload.
    pub fn verify(
        &self,
        header: &SignatureHeader,
        encoded: &Result<Vec<u8>, prost::EncodeError>,
    ) -> (r: Result<(), Ed25519ClientError>)
        ensures
            r == response_verification(self.server_pubkey(), *header, *encoded),
    {
        let bytes = match header {
            SignatureHeader::Missing => {
                return Err(Ed25519ClientError::MissingSignature);
            },
            SignatureHeader::Undecodable => {
                return Err(Ed25519ClientError::MalformedSignature);
            },
            SignatureHeader::Present(bytes) => bytes,
        };
        if bytes.len() != SIGNATURE_LENGTH {
            return Err(Ed25519ClientError::MalformedSignature);
        }
        let signature = signature_from_slice(bytes.as_slice());
        match encoded {
            Ok(payload) => verify_bytes(&self.server_pubkey, payload.as_slice(), &signature),
            Err(_) => Err(Ed25519ClientError::EncodingFailure),
        }
    }
}

// ---------------------------------------------------------------------------
// Laws
// ---------------------------------------------------------------------------

/// A signature verifies under the signer's public key: whatever
/// [`sign_bytes`] returns for a key and a message, [`verify_bytes`] accepts
/// over the same message under the key's public key.
pub proof fn lemma_own_signature_verifies(
    secret_key: Seq<u8>,
    message: Seq<u8>,
    signature: Seq<u8>,
)
    requires
        is_signature_by(secret_key, message, signature),
    ensures
        verification(dalek_public_key(secret_key), message, signature) == Ok::<
            (),
            Ed25519ClientError,
        >(()),
{
}

/// A verifier that knows the sender's public key accepts what the sender's
/// interceptor attached: where a response carries the signature that the
/// interceptor made over a payload, and serialises to the same payload, the
/// verification succeeds.
pub proof fn lemma_verifier_accepts_interceptor(
    interceptor: SigningInterceptor,
    verifier: ResponseVerifier,
    payload: Vec<u8>,
    metadata: SignedMetadata,
)
    requires
        interceptor.attaches(payload@, metadata),
        verifier.server_pubkey() == dalek_public_key(interceptor.signing_key()),
    ensures
        response_verification(
            verifier.server_pubkey(),
            SignatureHeader::Present(metadata.signature.value),
            Ok(payload),
        ) == Ok::<(), Ed25519ClientError>(()),
        response_verification(
            verifier.server_pubkey(),
            SignatureHeader::Missing,
            Ok(payload),
        ) == Err::<(), Ed25519ClientError>(Ed25519ClientError::MissingSignature),
{
}

} // verus!
