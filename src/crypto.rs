//! Shared types of the encryption subsystem: scheme tags, key-derivation
//! hardness parameters, per-scheme metadata and the error taxonomy.
use vstd::prelude::*;

verus! {

/// Identifies which envelope scheme protects a container.
#[derive(Debug, Clone, Copy, PartialEq, Eq, Structural)]
pub enum EncryptionType {
    /// Password-based encryption (tag byte 0x01).
    Password,
    /// RSA key wrapping (tag byte 0x02).
    Rsa,
}

impl EncryptionType {
    /// The tag byte that stands for this scheme on the wire.
    pub open spec fn spec_to_u8(self) -> u8 {
        match self {
            EncryptionType::Password => 0x01,
            EncryptionType::Rsa => 0x02,
        }
    }

    /// The scheme that a tag byte stands for, if any.
    pub open spec fn spec_from_u8(value: u8) -> Option<EncryptionType> {
        if value == 0x01 {
            Some(EncryptionType::Password)
        } else if value == 0x02 {
            Some(EncryptionType::Rsa)
        } else {
            None
        }
    }

    /// Convert from byte value.
    pub fn from_u8(value: u8) -> (r: Option<EncryptionType>)
        ensures
            r == Self::spec_from_u8(value),
    {
        match value {
            0x01 => Some(EncryptionType::Password),
            0x02 => Some(EncryptionType::Rsa),
            _ => None,
        }
    }

    /// Convert to byte value.
    pub fn to_u8(self) -> (r: u8)
        ensures
            r == self.spec_to_u8(),
            Self::spec_from_u8(r) == Some(self),
    {
        match self {
            EncryptionType::Password => 0x01,
            EncryptionType::Rsa => 0x02,
        }
    }
}

/// Hardness parameters of the Argon2id key derivation.
#[derive(Debug, Clone, Copy, PartialEq, Eq, Structural)]
pub struct Argon2Params {
    /// Memory cost in KiB.
    pub memory_cost: u32,
    /// Number of iterations.
    pub time_cost: u32,
    /// Number of lanes.
    pub parallelism: u32,
}

/// Default memory cost: 64 MiB.
pub const DEFAULT_MEMORY_COST: u32 = 65536;

/// Default number of iterations.
pub const DEFAULT_TIME_COST: u32 = 3;

/// Default number of lanes.
pub const DEFAULT_PARALLELISM: u32 = 4;

impl Default for Argon2Params {
    fn default() -> (r: Self)
        ensures
            r.memory_cost == DEFAULT_MEMORY_COST,
            r.time_cost == DEFAULT_TIME_COST,
            r.parallelism == DEFAULT_PARALLELISM,
    {
        Argon2Params {
            memory_cost: DEFAULT_MEMORY_COST,
            time_cost: DEFAULT_TIME_COST,
            parallelism: DEFAULT_PARALLELISM,
        }
    }
}

/// Public parameters that a container carries for its scheme: everything a
/// decryptor needs except the password or the private key.
#[derive(Debug, Clone, PartialEq, Eq)]
pub enum EncryptionMetadata {
    /// Password-based encryption metadata.
    Password { salt: [u8; 32], nonce: [u8; 12], argon2_params: Argon2Params },
    /// RSA encryption metadata.
    Rsa { encrypted_key: Vec<u8>, nonce: [u8; 12] },
}

/// Mathematical model of [`EncryptionMetadata`].
pub enum MetadataView {
    Password { salt: Seq<u8>, nonce: Seq<u8>, params: Argon2Params },
    Rsa { encrypted_key: Seq<u8>, nonce: Seq<u8> },
}

impl View for EncryptionMetadata {
    type V = MetadataView;

    open spec fn view(&self) -> MetadataView {
        match self {
            EncryptionMetadata::Password { salt, nonce, argon2_params } => MetadataView::Password {
                salt: salt@,
                nonce: nonce@,
                params: *argon2_params,
            },
            EncryptionMetadata::Rsa { encrypted_key, nonce } => MetadataView::Rsa {
                encrypted_key: encrypted_key@,
                nonce: nonce@,
            },
        }
    }
}

impl MetadataView {
    /// The scheme that this metadata belongs to.
    pub open spec fn kind(self) -> EncryptionType {
        match self {
            MetadataView::Password { .. } => EncryptionType::Password,
            MetadataView::Rsa { .. } => EncryptionType::Rsa,
        }
    }
}

/// Failures of the encryption subsystem.
#[derive(Debug)]
pub enum CryptoError {
    /// Invalid or empty password.
    InvalidPassword,
    /// Invalid key.
    InvalidKey,
    /// Key derivation failed.
    KeyDerivationFailed(String),
    /// Encryption operation failed.
    EncryptionFailed(String),
    /// Decryption operation failed.
    DecryptionFailed(String),
    /// Authentication failed: wrong password or key, or corrupted data.
    AuthenticationFailed,
    /// Malformed container framing, with a reason.
    InvalidContainer(String),
    /// Unsupported container version.
    UnsupportedVersion(u8),
    /// Failure reported by the RSA engine.
    RsaError(String),
    /// Key file not found.
    KeyFileNotFound(String),
    /// Key file not readable.
    KeyFileNotReadable(String),
    /// Malformed textual key encoding.
    InvalidPemFormat(String),
    /// Asymmetric key below the minimum strength, in bits.
    KeySizeTooSmall { actual: usize, minimum: usize },
}

/// Result type for crypto operations.
pub type CryptoResult<T> = Result<T, CryptoError>;

} // verus!
