//! AEAD cipher engine: AES-256-GCM without associated data, and the
//! system's secure random source for salts, nonces and keys.
use vstd::prelude::*;
use ring::aead::{Aad, LessSafeKey, Nonce, UnboundKey, AES_256_GCM};
use ring::rand::{SecureRandom, SystemRandom};
use crate::container::read_array;
use crate::crypto::{CryptoError, CryptoResult};

verus! {

/// ring's opaque error type, returned by its AEAD and random-source calls.
#[verifier::external_type_specification]
#[verifier::external_body]
pub struct ExUnspecified(ring::error::Unspecified);

/// Length of a symmetric key.
pub const KEY_LEN: usize = 32;

/// Length of the authentication tag that trails every ciphertext.
pub const TAG_LEN: usize = 16;

/// Longest plaintext that AES-256-GCM seals under one nonce: (2^32 - 2)
/// blocks of 16 bytes.
pub const MAX_PLAINTEXT_LEN: u64 = 68719476704;

/// The AES-256-GCM sealing (ciphertext followed by tag, no associated
/// data) of `plaintext` under `key` and `nonce`.
pub uninterp spec fn aes_gcm_sealed(key: Seq<u8>, nonce: Seq<u8>, plaintext: Seq<u8>) -> Seq<u8>;

/// Relies on ring's `LessSafeKey::seal_in_place_append_tag` with
/// `AES_256_GCM` and `Aad::empty()`: the output is the plaintext's
/// encryption, as long as the plaintext, followed by the 16-byte tag; ring
/// refuses only inputs longer than `MAX_PLAINTEXT_LEN`.
#[verifier::external_body]
fn aes_gcm_seal(key: &[u8; 32], nonce: &[u8; 12], data: &[u8]) -> (r: Result<
    Vec<u8>,
    ring::error::Unspecified,
>)
    ensures
        r is Ok <==> data@.len() <= MAX_PLAINTEXT_LEN,
        r is Ok ==> r->Ok_0@ == aes_gcm_sealed(key@, nonce@, data@),
        r is Ok ==> r->Ok_0@.len() == data@.len() + TAG_LEN,
{
    let sealing = LessSafeKey::new(UnboundKey::new(&AES_256_GCM, key)?);
    let mut in_out = data.to_vec();
    sealing.seal_in_place_append_tag(Nonce::assume_unique_for_key(*nonce), Aad::empty(), &mut in_out)
        .map(|()| in_out)
}

/// Relies on ring's `LessSafeKey::open_in_place` with `AES_256_GCM` and
/// `Aad::empty()`: it returns a plaintext only when the tag verifies, which
/// is exactly when the input is the sealing of that plaintext under the
/// same key and nonce.
#[verifier::external_body]
fn aes_gcm_open(key: &[u8; 32], nonce: &[u8; 12], sealed: &[u8]) -> (r: Result<
    Vec<u8>,
    ring::error::Unspecified,
>)
    ensures
        r is Ok ==> aes_gcm_sealed(key@, nonce@, r->Ok_0@) == sealed@,
        r is Ok ==> r->Ok_0@.len() + TAG_LEN == sealed@.len(),
        forall|p: Seq<u8>|
            p.len() <= MAX_PLAINTEXT_LEN && #[trigger] aes_gcm_sealed(key@, nonce@, p) == sealed@
                ==> r is Ok && r->Ok_0@ == p,
{
    let opening = LessSafeKey::new(UnboundKey::new(&AES_256_GCM, key)?);
    let mut in_out = sealed.to_vec();
    opening.open_in_place(Nonce::assume_unique_for_key(*nonce), Aad::empty(), &mut in_out)
        .map(|plain| plain.to_vec())
}

/// Relies on ring's `SystemRandom::fill`: on success every byte of the
/// buffer of length `len` comes from the operating system's secure source.
#[verifier::external_body]
fn random_bytes(len: usize) -> (r: Result<Vec<u8>, ring::error::Unspecified>)
    ensures
        r is Ok ==> r->Ok_0@.len() == len,
{
    let mut buf = vec![0u8; len];
    SystemRandom::new().fill(&mut buf).map(|()| buf)
}

/// Draws 32 fresh random bytes (a salt or a symmetric key).
pub(crate) fn random_32() -> (r: Result<[u8; 32], ring::error::Unspecified>) {
    match random_bytes(32) {
        Ok(v) => Ok(read_array(v.as_slice(), 0)),
        Err(e) => Err(e),
    }
}

/// Draws a fresh random 12-byte nonce.
pub(crate) fn random_12() -> (r: Result<[u8; 12], ring::error::Unspecified>) {
    match random_bytes(12) {
        Ok(v) => Ok(read_array(v.as_slice(), 0)),
        Err(e) => Err(e),
    }
}

/// Encrypts and authenticates `data` under `key` and `nonce`.
///
/// Succeeds exactly when the plaintext is within AES-GCM's limit; the
/// output is the ciphertext followed by the tag.
pub fn encrypt(data: &[u8], key: &[u8; 32], nonce: &[u8; 12]) -> (r: CryptoResult<Vec<u8>>)
    ensures
        r is Ok <==> data@.len() <= MAX_PLAINTEXT_LEN,
        r is Ok ==> r->Ok_0@ == aes_gcm_sealed(key@, nonce@, data@),
        r is Ok ==> r->Ok_0@.len() == data@.len() + TAG_LEN,
        r is Err ==> r->Err_0 is EncryptionFailed,
{
    match aes_gcm_seal(key, nonce, data) {
        Ok(sealed) => Ok(sealed),
        Err(_) => Err(CryptoError::EncryptionFailed("Encryption failed".to_owned())),
    }
}

/// Verifies and decrypts `encrypted_data` under `key` and `nonce`.
///
/// Every failure (wrong key, wrong nonce, tampering, truncation) is the one
/// generic `AuthenticationFailed`. A plaintext comes back only when the
/// input is its sealing under this key and nonce, and for such an input it
/// always does.
pub fn decrypt(encrypted_data: &[u8], key: &[u8; 32], nonce: &[u8; 12]) -> (r: CryptoResult<
    Vec<u8>,
>)
    ensures
        r is Ok ==> aes_gcm_sealed(key@, nonce@, r->Ok_0@) == encrypted_data@,
        r is Ok ==> r->Ok_0@.len() + TAG_LEN == encrypted_data@.len(),
        r is Err ==> r->Err_0 is AuthenticationFailed,
        forall|p: Seq<u8>|
            p.len() <= MAX_PLAINTEXT_LEN && #[trigger] aes_gcm_sealed(key@, nonce@, p)
                == encrypted_data@ ==> r is Ok && r->Ok_0@ == p,
{
    match aes_gcm_open(key, nonce, encrypted_data) {
        Ok(plain) => Ok(plain),
        Err(_) => Err(CryptoError::AuthenticationFailed),
    }
}

} // verus!
