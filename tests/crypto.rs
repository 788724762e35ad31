use roselite::crypto::CryptoManager;
use roselite::error::{CryptoError, RoseliteError};

#[test]
fn test_crypto_manager_new() {
    let crypto = CryptoManager::new().unwrap();
    assert!(crypto.is_initialized());
}

#[test]
fn test_generate_keypair() {
    let crypto = CryptoManager::new().unwrap();
    let (public_key, secret_key) = crypto.generate_keypair().unwrap();
    assert_eq!(public_key.len(), 64);
    assert_eq!(secret_key.len(), 64);
    hex::decode(&public_key).unwrap();
    hex::decode(&secret_key).unwrap();
}

#[test]
fn test_sign_and_verify() {
    let crypto = CryptoManager::new().unwrap();
    let (public_key, secret_key) = crypto.generate_keypair().unwrap();
    let data = b"Hello, Veilid!";
    let signature = crypto.sign(data, &secret_key).unwrap();
    assert_eq!(signature.len(), 128);
    let is_valid = crypto.verify(data, &signature, &public_key).unwrap();
    assert!(is_valid);
    let wrong_data = b"Wrong data";
    let is_valid = crypto.verify(wrong_data, &signature, &public_key).unwrap();
    assert!(!is_valid);
}

#[test]
fn test_hash() {
    let crypto = CryptoManager::new().unwrap();
    let data = b"Hello, BLAKE3!";
    let hash = crypto.hash(data).unwrap();
    assert_eq!(hash.len(), 64);
    let hash2 = crypto.hash(data).unwrap();
    assert_eq!(hash, hash2);
    let different_data = b"Different data";
    let hash3 = crypto.hash(different_data).unwrap();
    assert_ne!(hash, hash3);
}

#[test]
fn test_veilid_hash() {
    let crypto = CryptoManager::new().unwrap();
    let data = b"Test data";
    let hash1 = crypto.hash(data).unwrap();
    let hash2 = crypto.veilid_hash(data).unwrap();
    assert_eq!(hash1, hash2);
}

#[test]
fn test_generate_nonce() {
    let crypto = CryptoManager::new().unwrap();
    let nonce1 = crypto.generate_nonce().unwrap();
    let nonce2 = crypto.generate_nonce().unwrap();
    assert_eq!(nonce1.len(), 64);
    assert_eq!(nonce2.len(), 64);
    assert_ne!(nonce1, nonce2);
    hex::decode(&nonce1).unwrap();
    hex::decode(&nonce2).unwrap();
}

#[test]
fn test_generate_x25519_keypair() {
    let crypto = CryptoManager::new().unwrap();
    let (public_key, secret_key) = crypto.generate_x25519_keypair().unwrap();
    assert_eq!(public_key.len(), 64);
    assert_eq!(secret_key.len(), 64);
    hex::decode(&public_key).unwrap();
    hex::decode(&secret_key).unwrap();
}

#[test]
fn test_derive_shared_secret() {
    let crypto = CryptoManager::new().unwrap();
    let (alice_public, alice_secret) = crypto.generate_x25519_keypair().unwrap();
    let (bob_public, bob_secret) = crypto.generate_x25519_keypair().unwrap();
    let alice_shared = crypto.derive_shared_secret(&alice_secret, &bob_public).unwrap();
    let bob_shared = crypto.derive_shared_secret(&bob_secret, &alice_public).unwrap();
    assert_eq!(alice_shared, bob_shared);
    assert_eq!(alice_shared.len(), 64);
    hex::decode(&alice_shared).unwrap();
}

// BLAKE3 of the empty input, from the BLAKE3 specification's test vectors.
#[test]
fn hash_of_empty_input_is_the_known_digest() {
    let crypto = CryptoManager::new().unwrap();
    assert_eq!(
        crypto.hash(b"").unwrap(),
        "af1349b9f5f9a1a6a0404dea36dcc9499bcb25c9adc112b7cc9a93cae41f3262"
    );
}

// RFC 8032, test 1: the public key and signature of the empty message.
#[test]
fn ed25519_signature_matches_rfc8032_vector() {
    let crypto = CryptoManager::new().unwrap();
    let secret = "9d61b19deffd5a60ba844af492ec2cc44449c5697b326919703bac031cae7f60";
    let public = "d75a980182b10ab7d54bfed3c964073a0ee172f3daa62325af021a68f707511a";
    let sig = crypto.sign(b"", secret).unwrap();
    assert_eq!(
        sig,
        "e5564300c360ac729086e2cc806e828a84877f1eb8e5d974d873e065224901555fb8821590a33bacc61e39701cf9b46bd25bf5f0595bbe24655141438e7a100b"
    );
    assert!(crypto.verify(b"", &sig, public).unwrap());
}

#[test]
fn signature_over_other_message_is_refused() {
    let crypto = CryptoManager::new().unwrap();
    let (public_key, secret_key) = crypto.generate_keypair().unwrap();
    let sig = crypto.sign(b"message one", &secret_key).unwrap();
    assert!(!crypto.verify(b"message two", &sig, &public_key).unwrap());
    assert!(crypto.verify(b"message one", &sig, &public_key).unwrap());
}

#[test]
fn uppercase_hex_key_is_accepted() {
    let crypto = CryptoManager::new().unwrap();
    let secret = "9D61B19DEFFD5A60BA844AF492EC2CC44449C5697B326919703BAC031CAE7F60";
    let sig = crypto.sign(b"", secret).unwrap();
    assert!(sig.starts_with("e5564300"));
}

#[test]
fn malformed_keys_give_invalid_key() {
    let crypto = CryptoManager::new().unwrap();
    let (public_key, secret_key) = crypto.generate_keypair().unwrap();
    let sig = crypto.sign(b"x", &secret_key).unwrap();
    let bad = |r: Result<bool, RoseliteError>| matches!(r, Err(RoseliteError::Crypto(CryptoError::InvalidKey(_))));
    assert!(bad(crypto.verify(b"x", &sig, "zz")));
    assert!(bad(crypto.verify(b"x", &sig, "abcd")));
    assert!(bad(crypto.verify(b"x", "abcd", &public_key)));
    assert!(bad(crypto.verify(b"x", "0g", &public_key)));
    assert!(matches!(crypto.sign(b"x", "abc"), Err(RoseliteError::Crypto(CryptoError::InvalidKey(_)))));
    assert!(matches!(crypto.sign(b"x", "ab"), Err(RoseliteError::Crypto(CryptoError::InvalidKey(_)))));
    assert!(matches!(
        crypto.derive_shared_secret(&secret_key, "00"),
        Err(RoseliteError::Crypto(CryptoError::InvalidKey(_)))
    ));
}

// RFC 7748, section 6.1: Alice's and Bob's keys and their shared secret.
#[test]
fn x25519_matches_rfc7748_vector() {
    let crypto = CryptoManager::new().unwrap();
    let alice_secret = "77076d0a7318a57d3c16c17251b26645df4c2f87ebc0992ab177fba51db92c2a";
    let bob_public = "de9edb7d7b7dc1b4d35b61c2ece435373f8343c85b78674dadfc7e146f882b4f";
    let shared = crypto.derive_shared_secret(alice_secret, bob_public).unwrap();
    assert_eq!(shared, "4a5d9d5ba4ce2de1728e3bf480350f25e07e21c947d19e3376f09b3c1e161742");
}
