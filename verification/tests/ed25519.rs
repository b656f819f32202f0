use yacen_core::security::ed25519::{
    generate, keypair_from_bytes, sign, verify, Ed25519Error, PUBLIC_KEY_LENGTH,
    SIGNATURE_LENGTH,
};

fn hex(text: &str) -> Vec<u8> {
    let digits: Vec<u8> = text
        .bytes()
        .map(|c| match c {
            b'0'..=b'9' => c - b'0',
            b'a'..=b'f' => c - b'a' + 10,
            _ => panic!("not a hex digit"),
        })
        .collect();
    digits.chunks(2).map(|pair| pair[0] * 16 + pair[1]).collect()
}

/// The PKCS#8 v2 document of a seed and its public key.
fn pkcs8(seed: &[u8], public_key: &[u8]) -> Vec<u8> {
    let mut document = hex("3051020101300506032b657004220420");
    document.extend_from_slice(seed);
    document.extend(hex("812100"));
    document.extend_from_slice(public_key);
    document
}

const SEED_1: &str = "9d61b19deffd5a60ba844af492ec2cc44449c5697b326919703bac031cae7f60";
const PUBLIC_1: &str = "d75a980182b10ab7d54bfed3c964073a0ee172f3daa62325af021a68f707511a";
const SIGNATURE_1: &str = "e5564300c360ac729086e2cc806e828a84877f1eb8e5d974d873e06522490155\
5fb8821590a33bacc61e39701cf9b46bd25bf5f0595bbe24655141438e7a100b";

const SEED_2: &str = "4ccd089b28ff96da9db6c346ec114e0f5b8a319f35aba624da8cf6ed4fb8a6fb";
const PUBLIC_2: &str = "3d4017c3e843895a92b70aa74d1b7ebc9c982ccf2ec4968cc0cd55f12af4660c";
const SIGNATURE_2: &str = "92a009a9f0d4cab8720e820b5f642540a2b27b5416503f8fb3762223ebdb69da\
085ac1e43e15996e458f3613d0f11d8c387b2eaeb4302aeeb00d291612bb0c00";

/// Test that generate() produces valid PKCS#8 bytes and can be loaded.
#[test]
fn test_generate_and_parse() {
    let pkcs8 = generate().expect("Failed to generate PKCS#8 bytes");
    let kp = keypair_from_bytes(&pkcs8).expect("Failed to parse PKCS#8 bytes");
    // Ensure public key loads
    let pubkey: &[u8] = kp.public_key().as_ref();
    assert_eq!(pubkey.len(), 32);
}

/// Test signing and verifying with generated key pair.
#[test]
fn test_sign_verify_flow() {
    let pkcs8 = generate().unwrap();
    let kp = keypair_from_bytes(&pkcs8).unwrap();
    let msg = b"flow test";
    let sig = kp.sign(msg);
    assert!(ring::signature::UnparsedPublicKey::new(
        &ring::signature::ED25519,
        kp.public_key().as_ref() as &[u8]
    )
    .verify(msg, sig.as_ref())
    .is_ok());
}

/// Test the verify() helper for valid, tampered message, and tampered signature.
#[test]
fn test_verify_helper() {
    let pkcs8 = generate().unwrap();
    let kp = keypair_from_bytes(&pkcs8).unwrap();
    let msg = b"verify helper";
    let sig = kp.sign(msg);

    // Valid
    verify(kp.public_key().as_ref(), msg, sig.as_ref()).expect("Valid signature failed");

    // Tampered message
    let badmsg = b"bad message";
    assert!(verify(kp.public_key().as_ref(), badmsg, sig.as_ref()).is_err());

    // Tampered signature
    let mut badsig = sig.to_vec();
    badsig[0] = !badsig[0];
    assert!(verify(kp.public_key().as_ref(), msg, &badsig).is_err());
}

#[test]
fn signed_flow_verifies_and_bad_message_is_rejected() {
    let document = generate().expect("key generation failed");
    let pair = keypair_from_bytes(&document).expect("key rejected");
    let signature = pair.sign(b"flow test");
    assert_eq!(verify(pair.public_key(), b"flow test", &signature), Ok(()));
    assert_eq!(
        verify(pair.public_key(), b"bad message", &signature),
        Err(Ed25519Error::SignatureInvalid)
    );
}

#[test]
fn generated_documents_differ_and_keep_their_bytes() {
    let a = generate().expect("key generation failed");
    let b = generate().expect("key generation failed");
    assert_ne!(a, b);
    assert_eq!(a.len(), yacen_core::models::KEYPAIR_BYTES_LENGTH);
    let pair = keypair_from_bytes(&a).expect("key rejected");
    assert_eq!(pair.as_bytes(), &a[..]);
}

#[test]
fn loading_gives_the_public_key_of_the_document() {
    let pair = keypair_from_bytes(&pkcs8(&hex(SEED_1), &hex(PUBLIC_1))).expect("key rejected");
    assert_eq!(pair.public_key().to_vec(), hex(PUBLIC_1));
    assert_eq!(pair.public_key().len(), PUBLIC_KEY_LENGTH);
    let pair = keypair_from_bytes(&pkcs8(&hex(SEED_2), &hex(PUBLIC_2))).expect("key rejected");
    assert_eq!(pair.public_key().to_vec(), hex(PUBLIC_2));
}

#[test]
fn key_pair_signing_matches_the_rfc_8032_test_vectors() {
    let pair = keypair_from_bytes(&pkcs8(&hex(SEED_1), &hex(PUBLIC_1))).expect("key rejected");
    let signature = pair.sign(b"");
    assert_eq!(signature.len(), SIGNATURE_LENGTH);
    assert_eq!(signature.to_vec(), hex(SIGNATURE_1));

    let pair = keypair_from_bytes(&pkcs8(&hex(SEED_2), &hex(PUBLIC_2))).expect("key rejected");
    assert_eq!(pair.sign(&[0x72]).to_vec(), hex(SIGNATURE_2));
}

#[test]
fn sign_matches_the_rfc_8032_test_vectors() {
    let document = pkcs8(&hex(SEED_1), &hex(PUBLIC_1));
    assert_eq!(sign(&document, b"").map(|s| s.to_vec()), Ok(hex(SIGNATURE_1)));
    let document = pkcs8(&hex(SEED_2), &hex(PUBLIC_2));
    assert_eq!(sign(&document, &[0x72]).map(|s| s.to_vec()), Ok(hex(SIGNATURE_2)));
}

#[test]
fn sign_verifies_under_the_public_key_of_the_document() {
    let document = generate().expect("key generation failed");
    let pair = keypair_from_bytes(&document).expect("key rejected");
    let signature = sign(&document, b"flow test").expect("key rejected");
    assert_eq!(signature, pair.sign(b"flow test"));
    assert_eq!(verify(pair.public_key(), b"flow test", &signature), Ok(()));
}

#[test]
fn sign_rejects_what_is_no_key() {
    assert_eq!(sign(b"", b"message"), Err(Ed25519Error::KeyRejected));
    assert_eq!(
        sign(&pkcs8(&hex(SEED_1), &hex(PUBLIC_2)), b"message"),
        Err(Ed25519Error::KeyRejected)
    );
}

#[test]
fn signing_is_deterministic() {
    let document = generate().expect("key generation failed");
    let pair = keypair_from_bytes(&document).expect("key rejected");
    assert_eq!(pair.sign(b"twice"), pair.sign(b"twice"));
    assert_ne!(pair.sign(b"twice"), pair.sign(b"thrice"));
}

#[test]
fn verify_matches_the_rfc_8032_test_vectors() {
    assert_eq!(verify(&hex(PUBLIC_1), b"", &hex(SIGNATURE_1)), Ok(()));
    assert_eq!(verify(&hex(PUBLIC_2), &[0x72], &hex(SIGNATURE_2)), Ok(()));
    assert_eq!(
        verify(&hex(PUBLIC_2), b"", &hex(SIGNATURE_1)),
        Err(Ed25519Error::SignatureInvalid)
    );
    assert_eq!(
        verify(&hex(PUBLIC_1), &[0x72], &hex(SIGNATURE_1)),
        Err(Ed25519Error::SignatureInvalid)
    );
}

#[test]
fn flipping_any_byte_of_a_signature_fails_verification() {
    let public_key = hex(PUBLIC_1);
    let signature = hex(SIGNATURE_1);
    for i in 0..signature.len() {
        let mut altered = signature.clone();
        altered[i] ^= 0x04;
        assert_eq!(
            verify(&public_key, b"", &altered),
            Err(Ed25519Error::SignatureInvalid)
        );
    }
}

#[test]
fn malformed_key_or_signature_is_invalid() {
    let public_key = hex(PUBLIC_1);
    let signature = hex(SIGNATURE_1);
    assert_eq!(
        verify(&public_key[..31], b"", &signature),
        Err(Ed25519Error::SignatureInvalid)
    );
    assert_eq!(verify(b"", b"", &signature), Err(Ed25519Error::SignatureInvalid));
    assert_eq!(
        verify(&public_key, b"", &signature[..63]),
        Err(Ed25519Error::SignatureInvalid)
    );
    let mut long = signature.clone();
    long.push(0);
    assert_eq!(verify(&public_key, b"", &long), Err(Ed25519Error::SignatureInvalid));
    assert_eq!(verify(&public_key, b"", b""), Err(Ed25519Error::SignatureInvalid));
}

#[test]
fn rejected_documents() {
    assert!(matches!(keypair_from_bytes(b""), Err(Ed25519Error::KeyRejected)));
    assert!(matches!(
        keypair_from_bytes(b"not a key"),
        Err(Ed25519Error::KeyRejected)
    ));
    // A public key that does not belong to the seed.
    assert!(matches!(
        keypair_from_bytes(&pkcs8(&hex(SEED_1), &hex(PUBLIC_2))),
        Err(Ed25519Error::KeyRejected)
    ));
    // A truncated document.
    let document = pkcs8(&hex(SEED_1), &hex(PUBLIC_1));
    assert!(matches!(
        keypair_from_bytes(&document[..document.len() - 1]),
        Err(Ed25519Error::KeyRejected)
    ));
}

#[test]
fn ed25519_error_messages() {
    assert_eq!(Ed25519Error::KeyGenerationFailed.message(), "key generation failed");
    assert_eq!(Ed25519Error::KeyRejected.message(), "key rejected");
    assert_eq!(
        Ed25519Error::SignatureInvalid.message(),
        "signature verification failed"
    );
}
