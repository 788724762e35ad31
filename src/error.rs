//! Errors of the library, as tagged variants.
use vstd::prelude::*;

verus! {

/// Errors of package handling.
#[derive(Debug, Clone, PartialEq, Eq)]
pub enum PackageError {
    InvalidFormat,
    MissingManifest,
    InvalidManifest { reason: String },
    InvalidSignature,
    UnsupportedVersion { version: String },
    AlreadyExists { name: String },
}

/// Errors of the overlay client.
#[derive(Debug, Clone, PartialEq, Eq)]
pub enum VeilidError {
    ConnectionFailed,
    DhtOperationFailed { operation: String },
    AppNotFound { app_id: String },
    InvalidUri { uri: String },
}

/// Errors of key handling, signing and hashing.
#[derive(Debug, Clone, PartialEq, Eq)]
pub enum CryptoError {
    InvalidKeyFormat,
    InvalidKey(String),
    KeyGenerationFailed(String),
    SignatureGenerationFailed,
    SignatureVerificationFailed,
    HashComputationFailed,
    InitializationFailed(String),
}

/// Any error of the library.
#[derive(Debug, Clone, PartialEq, Eq)]
pub enum RoseliteError {
    Package(PackageError),
    Veilid(VeilidError),
    Crypto(CryptoError),
    Io(String),
    Serialization(String),
    NetworkError(String),
    ValidationError(String),
    AppNotFound(String),
    InvalidUri(String),
    PermissionDenied(String),
    VersionMismatch(String),
    SerializationError(String),
}

/// Result of the library's fallible operations.
pub type Result<T> = core::result::Result<T, RoseliteError>;

} // verus!
