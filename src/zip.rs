//! The ZIP compressor's fixed properties. Running the external `zip` and
//! `unzip` programs is left to the caller.
use vstd::prelude::*;

verus! {

/// ZIP compressor.
#[derive(Debug, Clone, Copy)]
pub struct ZipCompressor;

/// Highest compression level that ZIP accepts.
pub const ZIP_MAX_LEVEL: u8 = 9;

/// Default ZIP compression level.
pub const ZIP_DEFAULT_LEVEL: u8 = 6;

impl ZipCompressor {
    /// Creates the compressor.
    pub fn new() -> (r: Self) {
        ZipCompressor
    }

    /// The algorithm's name.
    pub fn name(&self) -> (r: &'static str)
        ensures
            r@ == "zip"@,
    {
        "zip"
    }

    /// The file extension of its archives.
    pub fn extension(&self) -> (r: &'static str)
        ensures
            r@ == "zip"@,
    {
        "zip"
    }

    /// ZIP takes a compression level.
    pub fn supports_levels(&self) -> (r: bool)
        ensures
            r,
    {
        true
    }

    /// Whether `level` is a ZIP level: 0 to 9.
    pub fn validate_level(&self, level: u8) -> (r: bool)
        ensures
            r == (level <= ZIP_MAX_LEVEL),
    {
        level <= ZIP_MAX_LEVEL
    }

    /// The default level.
    pub fn default_level(&self) -> (r: u8)
        ensures
            r == ZIP_DEFAULT_LEVEL,
    {
        ZIP_DEFAULT_LEVEL
    }
}

} // verus!
