//! Encrypted container subsystem of the `jcz` archive utility.
//!
//! The library holds the versioned container codec, the password and RSA
//! envelope schemes, and the configuration types of the command line tool.
pub mod aead;
pub mod args;
pub mod config;
pub mod container;
pub mod crypto;
pub mod envelope;
pub mod formats;
pub mod keywrap;
pub mod password;
pub mod text;
pub mod zip;
