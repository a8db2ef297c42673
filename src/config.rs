//! Configuration of compression, decompression and collection runs,
//! including the encryption and decryption method selectors.
use vstd::prelude::*;

verus! {

/// How a timestamp is added to output file names.
#[derive(Debug, Clone, Copy, PartialEq, Eq, Structural)]
pub enum TimestampOption {
    /// No timestamp (0).
    NoTimestamp,
    /// YYYYMMDD (1).
    Date,
    /// YYYYMMDD_HHMMSS (2).
    DateTime,
    /// Nanoseconds only (3).
    Nanoseconds,
}

impl TimestampOption {
    /// The option that a command-line number selects, if any.
    pub open spec fn spec_from_u8(value: u8) -> Option<TimestampOption> {
        if value == 0 {
            Some(TimestampOption::NoTimestamp)
        } else if value == 1 {
            Some(TimestampOption::Date)
        } else if value == 2 {
            Some(TimestampOption::DateTime)
        } else if value == 3 {
            Some(TimestampOption::Nanoseconds)
        } else {
            Option::None
        }
    }

    /// Converts a command-line number (0 to 3) to an option.
    pub fn from_u8(value: u8) -> (r: Option<TimestampOption>)
        ensures
            r == Self::spec_from_u8(value),
            r is Some <==> value <= 3,
    {
        match value {
            0 => Some(TimestampOption::NoTimestamp),
            1 => Some(TimestampOption::Date),
            2 => Some(TimestampOption::DateTime),
            3 => Some(TimestampOption::Nanoseconds),
            _ => Option::None,
        }
    }
}

/// Encryption method for compression.
#[derive(Debug, Clone, PartialEq, Eq)]
pub enum EncryptionMethod {
    /// Password-based encryption.
    Password,
    /// RSA encryption with the recipient's public key file.
    Rsa { public_key_path: String },
}

/// Configuration for compression operations.
#[derive(Debug, Clone)]
pub struct CompressionConfig {
    /// Compression level (meaning varies by algorithm).
    pub level: u8,
    /// Timestamp option for output file names.
    pub timestamp: TimestampOption,
    /// Destination directory for output files.
    pub move_to: Option<String>,
    /// Show output file size.
    pub show_output_size: bool,
    /// Overwrite without prompting.
    pub force: bool,
    /// Encryption method, if any.
    pub encryption: Option<EncryptionMethod>,
}

/// Default compression level.
pub const DEFAULT_LEVEL: u8 = 6;

impl CompressionConfig {
    /// The default configuration: level 6, no timestamp, no destination, no
    /// forcing, no encryption.
    pub open spec fn is_default(self) -> bool {
        &&& self.level == DEFAULT_LEVEL
        &&& self.timestamp == TimestampOption::NoTimestamp
        &&& self.move_to is None
        &&& !self.show_output_size
        &&& !self.force
        &&& self.encryption is None
    }
}

impl Default for CompressionConfig {
    fn default() -> (r: Self)
        ensures
            r.is_default(),
    {
        CompressionConfig {
            level: DEFAULT_LEVEL,
            timestamp: TimestampOption::NoTimestamp,
            move_to: Option::None,
            show_output_size: false,
            force: false,
            encryption: Option::None,
        }
    }
}

impl CompressionConfig {
    /// Creates the default configuration.
    pub fn new() -> (r: Self)
        ensures
            r.is_default(),
    {
        Self::default()
    }

    /// Sets the compression level.
    pub fn with_level(self, level: u8) -> (r: Self)
        ensures
            r == (CompressionConfig { level, ..self }),
    {
        CompressionConfig { level, ..self }
    }

    /// Sets the timestamp option.
    pub fn with_timestamp(self, timestamp: TimestampOption) -> (r: Self)
        ensures
            r == (CompressionConfig { timestamp, ..self }),
    {
        CompressionConfig { timestamp, ..self }
    }

    /// Sets the destination directory.
    pub fn with_move_to(self, path: String) -> (r: Self)
        ensures
            r == (CompressionConfig { move_to: Some(path), ..self }),
    {
        CompressionConfig { move_to: Some(path), ..self }
    }

    /// Sets whether to overwrite without prompting.
    pub fn with_force(self, force: bool) -> (r: Self)
        ensures
            r == (CompressionConfig { force, ..self }),
    {
        CompressionConfig { force, ..self }
    }

    /// Sets the encryption method.
    pub fn with_encryption(self, encryption: Option<EncryptionMethod>) -> (r: Self)
        ensures
            r == (CompressionConfig { encryption, ..self }),
    {
        CompressionConfig { encryption, ..self }
    }
}

/// Collection operation mode.
#[derive(Debug, Clone, Copy, PartialEq, Eq, Structural)]
pub enum CollectionMode {
    /// Include the parent directory in the archive.
    WithParent,
    /// Archive the files without a parent directory.
    Flat,
}

/// Decryption method for decompression.
#[derive(Debug, Clone, PartialEq, Eq)]
pub enum DecryptionMethod {
    /// Password-based decryption.
    Password,
    /// RSA decryption with the private key file.
    Rsa { private_key_path: String },
}

/// Configuration for decompression operations.
#[derive(Debug, Clone)]
pub struct DecompressionConfig {
    /// Destination directory for output files.
    pub move_to: Option<String>,
    /// Overwrite without prompting.
    pub force: bool,
    /// Decryption method, if any.
    pub decryption: Option<DecryptionMethod>,
    /// Remove the encrypted file after successful decryption.
    pub remove_encrypted: bool,
}

impl DecompressionConfig {
    /// The default configuration: no destination, no forcing, no
    /// decryption method, encrypted files kept.
    pub open spec fn is_default(self) -> bool {
        &&& self.move_to is None
        &&& !self.force
        &&& self.decryption is None
        &&& !self.remove_encrypted
    }
}

impl Default for DecompressionConfig {
    fn default() -> (r: Self)
        ensures
            r.is_default(),
    {
        DecompressionConfig {
            move_to: Option::None,
            force: false,
            decryption: Option::None,
            remove_encrypted: false,
        }
    }
}

impl DecompressionConfig {
    /// Creates the default configuration.
    pub fn new() -> (r: Self)
        ensures
            r.is_default(),
    {
        Self::default()
    }

    /// Sets the destination directory.
    pub fn with_move_to(self, path: String) -> (r: Self)
        ensures
            r == (DecompressionConfig { move_to: Some(path), ..self }),
    {
        DecompressionConfig { move_to: Some(path), ..self }
    }

    /// Sets whether to overwrite without prompting.
    pub fn with_force(self, force: bool) -> (r: Self)
        ensures
            r == (DecompressionConfig { force, ..self }),
    {
        DecompressionConfig { force, ..self }
    }

    /// Sets the decryption method.
    pub fn with_decryption(self, decryption: Option<DecryptionMethod>) -> (r: Self)
        ensures
            r == (DecompressionConfig { decryption, ..self }),
    {
        DecompressionConfig { decryption, ..self }
    }

    /// Sets whether to remove the encrypted file after decryption.
    pub fn with_remove_encrypted(self, remove_encrypted: bool) -> (r: Self)
        ensures
            r == (DecompressionConfig { remove_encrypted, ..self }),
    {
        DecompressionConfig { remove_encrypted, ..self }
    }
}

/// Configuration for collection operations (multi-file archives).
#[derive(Debug, Clone)]
pub struct CollectionConfig {
    /// Base configuration.
    pub base: CompressionConfig,
    /// Archive name.
    pub package_name: String,
    /// Collection mode.
    pub mode: CollectionMode,
}

} // verus!
