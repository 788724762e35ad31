//! Signing, key agreement, hashing and random material, as hex text.
use vstd::prelude::*;
use vstd::string::*;
use crate::error::{CryptoError, Result, RoseliteError};
use crate::hexcode::{hex_decode, hex_decoded, hex_encode, hex_of, hex_valid};

verus! {

/// The Ed25519 public key of a 32-byte secret key.
pub uninterp spec fn ed25519_public(secret: Seq<u8>) -> Seq<u8>;

/// The Ed25519 signature of `msg` under a 32-byte secret key.
pub uninterp spec fn ed25519_signature(secret: Seq<u8>, msg: Seq<u8>) -> Seq<u8>;

/// Whether 32 bytes decode to an Ed25519 public key.
pub uninterp spec fn ed25519_key_decodes(public: Seq<u8>) -> bool;

/// Whether Ed25519 verification accepts `sig` over `msg` under `public`.
pub uninterp spec fn ed25519_accepts(public: Seq<u8>, msg: Seq<u8>, sig: Seq<u8>) -> bool;

/// The 32-byte BLAKE3 digest of `data`.
pub uninterp spec fn blake3_digest(data: Seq<u8>) -> Seq<u8>;

/// The X25519 public key of a 32-byte secret.
pub uninterp spec fn x25519_public(secret: Seq<u8>) -> Seq<u8>;

/// The X25519 shared secret of a secret and a peer's public key.
pub uninterp spec fn x25519_shared(secret: Seq<u8>, public: Seq<u8>) -> Seq<u8>;

/// Relies on rand's `OsRng::try_fill_bytes`: 32 bytes from the operating
/// system's secure source, or `None` where that source fails.
#[verifier::external_body]
fn os_random_32() -> (r: Option<Vec<u8>>)
    ensures
        r matches Some(b) ==> b@.len() == 32,
{
    let mut b = [0u8; 32];
    rand::RngCore::try_fill_bytes(&mut rand::rngs::OsRng, &mut b).ok().map(|_| b.to_vec())
}

/// Relies on ed25519_dalek's `SigningKey::verifying_key`: the public key of
/// a secret key, a function of its 32 bytes.
#[verifier::external_body]
fn ed25519_public_key(secret: &Vec<u8>) -> (r: Vec<u8>)
    requires
        secret@.len() == 32,
    ensures
        r@ == ed25519_public(secret@),
        r@.len() == 32,
{
    let sk: [u8; 32] = secret.as_slice().try_into().unwrap();
    ed25519_dalek::SigningKey::from_bytes(&sk).verifying_key().to_bytes().to_vec()
}

/// Relies on ed25519_dalek's `Signer::sign` for `SigningKey`: a 64-byte
/// signature, a function of the key and the message (Ed25519 signing is
/// deterministic).
#[verifier::external_body]
fn ed25519_sign(secret: &Vec<u8>, msg: &[u8]) -> (r: Vec<u8>)
    requires
        secret@.len() == 32,
    ensures
        r@ == ed25519_signature(secret@, msg@),
        r@.len() == 64,
{
    let sk: [u8; 32] = secret.as_slice().try_into().unwrap();
    ed25519_dalek::Signer::sign(&ed25519_dalek::SigningKey::from_bytes(&sk), msg).to_bytes().to_vec()
}

/// Relies on ed25519_dalek's `VerifyingKey::from_bytes`, which refuses bytes
/// that are no public key, and on `Verifier::verify` of the key it returns.
#[verifier::external_body]
fn ed25519_check(public: &Vec<u8>, msg: &[u8], sig: &Vec<u8>) -> (r: Option<bool>)
    requires
        public@.len() == 32,
        sig@.len() == 64,
    ensures
        r is Some <==> ed25519_key_decodes(public@),
        r matches Some(ok) ==> ok == ed25519_accepts(public@, msg@, sig@),
{
    let pk: [u8; 32] = public.as_slice().try_into().unwrap();
    let sb: [u8; 64] = sig.as_slice().try_into().unwrap();
    let signature = ed25519_dalek::Signature::from_bytes(&sb);
    ed25519_dalek::VerifyingKey::from_bytes(&pk).ok().map(
        |k| ed25519_dalek::Verifier::verify(&k, msg, &signature).is_ok(),
    )
}

/// Relies on `blake3::hash`: the 32-byte digest of the input.
#[verifier::external_body]
fn blake3_hash(data: &[u8]) -> (r: Vec<u8>)
    ensures
        r@ == blake3_digest(data@),
        r@.len() == 32,
{
    blake3::hash(data).as_bytes().to_vec()
}

/// Relies on x25519_dalek's `PublicKey::from(&StaticSecret)`: the public key
/// of a secret, a function of its 32 bytes.
#[verifier::external_body]
fn x25519_public_key(secret: &Vec<u8>) -> (r: Vec<u8>)
    requires
        secret@.len() == 32,
    ensures
        r@ == x25519_public(secret@),
        r@.len() == 32,
{
    let sk: [u8; 32] = secret.as_slice().try_into().unwrap();
    x25519_dalek::PublicKey::from(&x25519_dalek::StaticSecret::from(sk)).to_bytes().to_vec()
}

/// Relies on x25519_dalek's `StaticSecret::diffie_hellman`: the 32-byte
/// shared secret, a function of the secret and the peer's public key.
#[verifier::external_body]
fn x25519_agree(secret: &Vec<u8>, public: &Vec<u8>) -> (r: Vec<u8>)
    requires
        secret@.len() == 32,
        public@.len() == 32,
    ensures
        r@ == x25519_shared(secret@, public@),
        r@.len() == 32,
{
    let sk: [u8; 32] = secret.as_slice().try_into().unwrap();
    let pk: [u8; 32] = public.as_slice().try_into().unwrap();
    x25519_dalek::StaticSecret::from(sk).diffie_hellman(&x25519_dalek::PublicKey::from(pk)).to_bytes().to_vec()
}

/// Hex text of a 32-byte key.
pub open spec fn is_key_hex(s: Seq<char>) -> bool {
    hex_valid(s) && s.len() == 64
}

/// Hex text of a 64-byte signature.
pub open spec fn is_signature_hex(s: Seq<char>) -> bool {
    hex_valid(s) && s.len() == 128
}

/// `(public, secret)` are the hex text of an Ed25519 key pair with a
/// 32-byte secret.
pub open spec fn is_ed25519_pair(pair: (String, String)) -> bool {
    &&& pair.0@.len() == 64
    &&& pair.1@.len() == 64
    &&& exists|sk: Seq<u8>| sk.len() == 32 && #[trigger] hex_of(sk) == pair.1@ && pair.0@ == hex_of(ed25519_public(sk))
}

/// `(public, secret)` are the hex text of an X25519 key pair with a 32-byte
/// secret.
pub open spec fn is_x25519_pair(pair: (String, String)) -> bool {
    &&& pair.0@.len() == 64
    &&& pair.1@.len() == 64
    &&& exists|sk: Seq<u8>| sk.len() == 32 && #[trigger] hex_of(sk) == pair.1@ && pair.0@ == hex_of(x25519_public(sk))
}

/// The hex Ed25519 key pair `(public_hex, secret_hex)` of a 32-byte secret.
pub fn ed25519_pair_of(secret: &Vec<u8>) -> (r: (String, String))
    requires
        secret@.len() == 32,
    ensures
        r.0@ == hex_of(ed25519_public(secret@)),
        r.1@ == hex_of(secret@),
        r.0@.len() == 64,
        r.1@.len() == 64,
        is_ed25519_pair(r),
{
    let pk = ed25519_public_key(secret);
    let pair = (hex_encode(pk.as_slice()), hex_encode(secret.as_slice()));
    assert(hex_of(secret@) == pair.1@);
    pair
}

/// The hex X25519 key pair `(public_hex, secret_hex)` of a 32-byte secret.
pub fn x25519_pair_of(secret: &Vec<u8>) -> (r: (String, String))
    requires
        secret@.len() == 32,
    ensures
        r.0@ == hex_of(x25519_public(secret@)),
        r.1@ == hex_of(secret@),
        r.0@.len() == 64,
        r.1@.len() == 64,
        is_x25519_pair(r),
{
    let pk = x25519_public_key(secret);
    let pair = (hex_encode(pk.as_slice()), hex_encode(secret.as_slice()));
    assert(hex_of(secret@) == pair.1@);
    pair
}

fn not_initialized() -> (e: RoseliteError)
    ensures
        e is Crypto && e->Crypto_0 is InitializationFailed,
{
    RoseliteError::Crypto(CryptoError::InitializationFailed(String::from_str("Crypto not initialized")))
}

fn entropy_failed() -> (e: RoseliteError)
    ensures
        e is Crypto && e->Crypto_0 is InitializationFailed,
{
    RoseliteError::Crypto(CryptoError::InitializationFailed(String::from_str("Secure random source unavailable")))
}

fn invalid_key(reason: &str) -> (e: RoseliteError)
    ensures
        e is Crypto && e->Crypto_0 is InvalidKey,
{
    RoseliteError::Crypto(CryptoError::InvalidKey(String::from_str(reason)))
}

/// Decodes hex key material of `n` bytes.
fn decode_exact(s: &str, n: usize, reason_hex: &str, reason_len: &str) -> (r: Result<Vec<u8>>)
    ensures
        r is Ok <==> hex_valid(s@) && s@.len() == 2 * n,
        r matches Ok(b) ==> b@ == hex_decoded(s@) && b@.len() == n,
        r matches Err(e) ==> e is Crypto && e->Crypto_0 is InvalidKey,
{
    match hex_decode(s) {
        Err(_) => Err(invalid_key(reason_hex)),
        Ok(b) => {
            if b.len() != n {
                Err(invalid_key(reason_len))
            } else {
                Ok(b)
            }
        },
    }
}

/// Signing, verification, key agreement and hashing over hex-encoded keys.
pub struct CryptoManager {
    initialized: bool,
}

impl CryptoManager {
    /// Whether the manager is ready for use.
    pub closed spec fn ready(&self) -> bool {
        self.initialized
    }

    /// A ready manager.
    pub fn new() -> (r: Result<CryptoManager>)
        ensures
            r matches Ok(c) && c.ready(),
    {
        Ok(CryptoManager { initialized: true })
    }

    /// Whether the manager is ready for use.
    pub fn is_initialized(&self) -> (r: bool)
        ensures
            r == self.ready(),
    {
        self.initialized
    }

    /// A fresh Ed25519 key pair `(public_hex, secret_hex)`, each 32 bytes.
    pub fn generate_keypair(&self) -> (r: Result<(String, String)>)
        ensures
            !self.ready() ==> r is Err,
            r matches Ok(pair) ==> is_ed25519_pair(pair),
            r matches Err(e) ==> e is Crypto && e->Crypto_0 is InitializationFailed,
    {
        if !self.initialized {
            return Err(not_initialized());
        }
        match os_random_32() {
            None => Err(entropy_failed()),
            Some(sk) => Ok(ed25519_pair_of(&sk)),
        }
    }

    /// A fresh X25519 key pair `(public_hex, secret_hex)`, each 32 bytes.
    pub fn generate_x25519_keypair(&self) -> (r: Result<(String, String)>)
        ensures
            !self.ready() ==> r is Err,
            r matches Ok(pair) ==> is_x25519_pair(pair),
            r matches Err(e) ==> e is Crypto && e->Crypto_0 is InitializationFailed,
    {
        if !self.initialized {
            return Err(not_initialized());
        }
        match os_random_32() {
            None => Err(entropy_failed()),
            Some(sk) => Ok(x25519_pair_of(&sk)),
        }
    }

    /// The hex Ed25519 signature of `data` under the hex secret key
    /// `private_key`. Fails with `InvalidKey` unless the key is 64 hex digits.
    pub fn sign(&self, data: &[u8], private_key: &str) -> (r: Result<String>)
        ensures
            r is Ok <==> self.ready() && is_key_hex(private_key@),
            r matches Ok(sig) ==> sig@ == hex_of(ed25519_signature(hex_decoded(private_key@), data@))
                && sig@.len() == 128,
            r matches Err(e) ==> e is Crypto && (if self.ready() {
                e->Crypto_0 is InvalidKey
            } else {
                e->Crypto_0 is InitializationFailed
            }),
    {
        if !self.initialized {
            return Err(not_initialized());
        }
        let sk = decode_exact(private_key, 32, "Invalid secret key hex", "Secret key must be 32 bytes")?;
        let sig = ed25519_sign(&sk, data);
        Ok(hex_encode(sig.as_slice()))
    }

    /// Whether the hex `signature` is a valid Ed25519 signature of `data`
    /// under the hex `public_key`. Fails with `InvalidKey` where either is
    /// not hex of the right length, or the key bytes are no public key.
    pub fn verify(&self, data: &[u8], signature: &str, public_key: &str) -> (r: Result<bool>)
        ensures
            r is Ok <==> self.ready() && is_key_hex(public_key@) && is_signature_hex(signature@)
                && ed25519_key_decodes(hex_decoded(public_key@)),
            r matches Ok(ok) ==> ok == ed25519_accepts(hex_decoded(public_key@), data@, hex_decoded(signature@)),
            r matches Err(e) ==> e is Crypto && (if self.ready() {
                e->Crypto_0 is InvalidKey
            } else {
                e->Crypto_0 is InitializationFailed
            }),
    {
        if !self.initialized {
            return Err(not_initialized());
        }
        let public_bytes = match hex_decode(public_key) {
            Ok(b) => b,
            Err(_) => { return Err(invalid_key("Invalid public key hex")); },
        };
        let signature_bytes = match hex_decode(signature) {
            Ok(b) => b,
            Err(_) => { return Err(invalid_key("Invalid signature hex")); },
        };
        if public_bytes.len() != 32 {
            return Err(invalid_key("Public key must be 32 bytes"));
        }
        if signature_bytes.len() != 64 {
            return Err(invalid_key("Signature must be 64 bytes"));
        }
        match ed25519_check(&public_bytes, data, &signature_bytes) {
            None => Err(invalid_key("Invalid public key")),
            Some(ok) => Ok(ok),
        }
    }

    /// The hex BLAKE3 digest of `data`.
    pub fn hash(&self, data: &[u8]) -> (r: Result<String>)
        ensures
            r matches Ok(h) && h@ == hex_of(blake3_digest(data@)) && h@.len() == 64,
    {
        let digest = blake3_hash(data);
        Ok(hex_encode(digest.as_slice()))
    }

    /// The hex BLAKE3 digest of `data`, as the overlay computes it.
    pub fn veilid_hash(&self, data: &[u8]) -> (r: Result<String>)
        ensures
            r matches Ok(h) && h@ == hex_of(blake3_digest(data@)) && h@.len() == 64,
    {
        self.hash(data)
    }

    /// 32 fresh random bytes, as hex.
    pub fn generate_nonce(&self) -> (r: Result<String>)
        ensures
            r matches Ok(n) ==> exists|b: Seq<u8>| b.len() == 32 && #[trigger] hex_of(b) == n@,
            r matches Err(e) ==> e is Crypto && e->Crypto_0 is InitializationFailed,
    {
        match os_random_32() {
            None => Err(entropy_failed()),
            Some(b) => {
                let n = hex_encode(b.as_slice());
                assert(hex_of(b@) == n@);
                Ok(n)
            },
        }
    }

    /// The hex X25519 shared secret of our hex secret and their hex public
    /// key. Fails with `InvalidKey` unless both are 64 hex digits.
    pub fn derive_shared_secret(&self, our_secret: &str, their_public: &str) -> (r: Result<String>)
        ensures
            r is Ok <==> self.ready() && is_key_hex(our_secret@) && is_key_hex(their_public@),
            r matches Ok(s) ==> s@ == hex_of(x25519_shared(hex_decoded(our_secret@), hex_decoded(their_public@)))
                && s@.len() == 64,
            r matches Err(e) ==> e is Crypto && (if self.ready() {
                e->Crypto_0 is InvalidKey
            } else {
                e->Crypto_0 is InitializationFailed
            }),
    {
        if !self.initialized {
            return Err(not_initialized());
        }
        let sk = decode_exact(our_secret, 32, "Invalid secret key hex", "Secret key must be 32 bytes")?;
        let pk = decode_exact(their_public, 32, "Invalid public key hex", "Public key must be 32 bytes")?;
        let shared = x25519_agree(&sk, &pk);
        Ok(hex_encode(shared.as_slice()))
    }
}

} // verus!
