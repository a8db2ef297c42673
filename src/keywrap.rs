//! Key-wrap engine: RSA-OAEP (SHA-256) wrapping of fresh symmetric keys,
//! loading of keys from their PEM text, and the minimum key strength.
use vstd::prelude::*;
use rsa::pkcs8::{DecodePrivateKey, DecodePublicKey};
use rsa::traits::PublicKeyParts;
use rsa::{Oaep, RsaPrivateKey, RsaPublicKey};
use sha2::Sha256;
use crate::aead::{self, aes_gcm_sealed, random_12, random_32, MAX_PLAINTEXT_LEN, TAG_LEN};
use crate::container::read_array;
use crate::crypto::{CryptoError, CryptoResult};

verus! {

/// rsa's public key, carried opaquely from loading to wrapping.
#[verifier::external_type_specification]
#[verifier::external_body]
pub struct ExRsaPublicKey(rsa::RsaPublicKey);

/// rsa's private key, carried opaquely from loading to unwrapping.
#[verifier::external_type_specification]
#[verifier::external_body]
pub struct ExRsaPrivateKey(rsa::RsaPrivateKey);

/// rsa's error type, returned by OAEP encryption and decryption.
#[verifier::external_type_specification]
#[verifier::external_body]
pub struct ExRsaError(rsa::Error);

/// The PKCS#8 decoding error of `DecodePrivateKey::from_pkcs8_pem`.
#[verifier::external_type_specification]
#[verifier::external_body]
pub struct ExPkcs8Error(rsa::pkcs8::Error);

/// The SubjectPublicKeyInfo decoding error of `DecodePublicKey::from_public_key_pem`.
#[verifier::external_type_specification]
#[verifier::external_body]
pub struct ExSpkiError(rsa::pkcs8::spki::Error);

/// Minimum accepted RSA modulus size in bits.
pub const MIN_KEY_SIZE: usize = 2048;

/// The RSA-OAEP (SHA-256) decryption of `ciphertext` under `key`: the
/// message, or `None` where decryption fails.
pub uninterp spec fn oaep_unwrapped(key: RsaPrivateKey, ciphertext: Seq<u8>) -> Option<Seq<u8>>;

/// The public key that a SubjectPublicKeyInfo PEM text decodes to, if any.
pub uninterp spec fn spki_decoded(pem: Seq<char>) -> Option<RsaPublicKey>;

/// The private key that a PKCS#8 PEM text decodes to, if any.
pub uninterp spec fn pkcs8_decoded(pem: Seq<char>) -> Option<RsaPrivateKey>;

/// The number of bits of a public key's modulus.
pub uninterp spec fn public_modulus_bits(key: RsaPublicKey) -> nat;

/// The number of bits of a private key's modulus.
pub uninterp spec fn private_modulus_bits(key: RsaPrivateKey) -> nat;

/// Relies on rsa's `RsaPublicKey::encrypt` with `Oaep::new::<Sha256>()` and
/// the operating system's random source: the output is randomized and
/// padded to the modulus size, which OAEP requires to exceed the message by
/// at least 66 bytes (`2 + 2 * 32`).
#[verifier::external_body]
fn oaep_encrypt(public_key: &RsaPublicKey, message: &[u8]) -> (r: Result<Vec<u8>, rsa::Error>)
    ensures
        r is Ok ==> r->Ok_0@.len() >= message@.len() + 66,
{
    public_key.encrypt(&mut rand::rngs::OsRng, Oaep::new::<Sha256>(), message)
}

/// Relies on rsa's `RsaPrivateKey::decrypt` with `Oaep::new::<Sha256>()`,
/// which uses no blinding: the outcome depends on key and ciphertext alone.
#[verifier::external_body]
fn oaep_decrypt(private_key: &RsaPrivateKey, ciphertext: &[u8]) -> (r: Result<
    Vec<u8>,
    rsa::Error,
>)
    ensures
        r is Ok <==> oaep_unwrapped(*private_key, ciphertext@) is Some,
        r is Ok ==> r->Ok_0@ == oaep_unwrapped(*private_key, ciphertext@)->Some_0,
{
    private_key.decrypt(Oaep::new::<Sha256>(), ciphertext)
}

/// Relies on `DecodePublicKey::from_public_key_pem` for `RsaPublicKey`
/// (SubjectPublicKeyInfo in PEM), a function of the text.
#[verifier::external_body]
fn public_key_from_pem(pem: &str) -> (r: Result<RsaPublicKey, rsa::pkcs8::spki::Error>)
    ensures
        r is Ok <==> spki_decoded(pem@) is Some,
        r is Ok ==> r->Ok_0 == spki_decoded(pem@)->Some_0,
{
    RsaPublicKey::from_public_key_pem(pem)
}

/// Relies on `DecodePrivateKey::from_pkcs8_pem` for `RsaPrivateKey`
/// (PKCS#8 in PEM), a function of the text.
#[verifier::external_body]
fn private_key_from_pem(pem: &str) -> (r: Result<RsaPrivateKey, rsa::pkcs8::Error>)
    ensures
        r is Ok <==> pkcs8_decoded(pem@) is Some,
        r is Ok ==> r->Ok_0 == pkcs8_decoded(pem@)->Some_0,
{
    RsaPrivateKey::from_pkcs8_pem(pem)
}

/// Relies on `PublicKeyParts::n` for `RsaPublicKey` and `BigUint::bits`:
/// the modulus size in bits.
#[verifier::external_body]
fn public_key_bits(key: &RsaPublicKey) -> (r: usize)
    ensures
        r as nat == public_modulus_bits(*key),
{
    key.n().bits()
}

/// Relies on `PublicKeyParts::n` for `RsaPrivateKey` and `BigUint::bits`:
/// the modulus size in bits.
#[verifier::external_body]
fn private_key_bits(key: &RsaPrivateKey) -> (r: usize)
    ensures
        r as nat == private_modulus_bits(*key),
{
    key.n().bits()
}

/// Whether `e` reports a key of `bits` bits as too small.
pub open spec fn reports_small_key(e: CryptoError, bits: int) -> bool {
    match e {
        CryptoError::KeySizeTooSmall { actual, minimum } => actual == bits && minimum
            == MIN_KEY_SIZE,
        _ => false,
    }
}

/// Rejects RSA keys below 2048 bits.
pub fn validate_key_size(key_bits: usize) -> (r: CryptoResult<()>)
    ensures
        r is Ok <==> key_bits >= MIN_KEY_SIZE,
        r is Err ==> reports_small_key(r->Err_0, key_bits as int),
{
    if key_bits < MIN_KEY_SIZE {
        return Err(CryptoError::KeySizeTooSmall { actual: key_bits, minimum: MIN_KEY_SIZE });
    }
    Ok(())
}

/// Decodes an RSA public key from PEM text and checks its strength before
/// any cryptographic use: text that decodes to no key is `InvalidPemFormat`,
/// a key under 2048 bits is `KeySizeTooSmall`.
pub fn parse_public_key_pem(pem: &str) -> (r: CryptoResult<RsaPublicKey>)
    ensures
        match spki_decoded(pem@) {
            None => r is Err && r->Err_0 is InvalidPemFormat,
            Some(k) => (r is Ok <==> public_modulus_bits(k) >= MIN_KEY_SIZE) && (r is Ok
                ==> r->Ok_0 == k) && (r is Err ==> reports_small_key(
                r->Err_0,
                public_modulus_bits(k) as int,
            )),
        },
{
    let key = match public_key_from_pem(pem) {
        Ok(k) => k,
        Err(_) => {
            return Err(CryptoError::InvalidPemFormat("Failed to decode public key".to_owned()));
        },
    };
    validate_key_size(public_key_bits(&key))?;
    Ok(key)
}

/// Decodes an RSA private key from PKCS#8 PEM text and checks its strength
/// before any cryptographic use: text that decodes to no key is
/// `InvalidPemFormat`, a key under 2048 bits is `KeySizeTooSmall`.
pub fn parse_private_key_pem(pem: &str) -> (r: CryptoResult<RsaPrivateKey>)
    ensures
        match pkcs8_decoded(pem@) {
            None => r is Err && r->Err_0 is InvalidPemFormat,
            Some(k) => (r is Ok <==> private_modulus_bits(k) >= MIN_KEY_SIZE) && (r is Ok
                ==> r->Ok_0 == k) && (r is Err ==> reports_small_key(
                r->Err_0,
                private_modulus_bits(k) as int,
            )),
        },
{
    let key = match private_key_from_pem(pem) {
        Ok(k) => k,
        Err(_) => {
            return Err(CryptoError::InvalidPemFormat("Failed to decode private key".to_owned()));
        },
    };
    validate_key_size(private_key_bits(&key))?;
    Ok(key)
}

/// Whether `wrapped` can stand for an RSA-OAEP wrap of `key`: it is longer
/// than the key by at least the OAEP overhead, so it is never the key
/// itself.
pub open spec fn wraps_key(wrapped: Seq<u8>, key: Seq<u8>) -> bool {
    wrapped.len() >= key.len() + 66
}

/// RSA envelope operations.
pub struct RsaEncryption;

impl RsaEncryption {
    /// Draws a fresh random symmetric key.
    pub fn generate_symmetric_key() -> (r: CryptoResult<[u8; 32]>)
        ensures
            r is Err ==> r->Err_0 is EncryptionFailed,
    {
        match random_32() {
            Ok(key) => Ok(key),
            Err(_) => Err(
                CryptoError::EncryptionFailed("Failed to generate symmetric key".to_owned()),
            ),
        }
    }

    /// Draws a fresh random nonce.
    pub fn generate_nonce() -> (r: CryptoResult<[u8; 12]>)
        ensures
            r is Err ==> r->Err_0 is EncryptionFailed,
    {
        match random_12() {
            Ok(nonce) => Ok(nonce),
            Err(_) => Err(CryptoError::EncryptionFailed("Failed to generate nonce".to_owned())),
        }
    }

    /// Wraps a symmetric key under the recipient's public key (RSA-OAEP).
    pub fn encrypt_symmetric_key(symmetric_key: &[u8; 32], public_key: &RsaPublicKey) -> (r:
        CryptoResult<Vec<u8>>)
        ensures
            r is Ok ==> wraps_key(r->Ok_0@, symmetric_key@),
            r is Err ==> r->Err_0 is RsaError,
    {
        match oaep_encrypt(public_key, symmetric_key.as_slice()) {
            Ok(wrapped) => Ok(wrapped),
            Err(_) => Err(CryptoError::RsaError("Failed to encrypt symmetric key".to_owned())),
        }
    }

    /// Checks that an unwrapped key has exactly 32 bytes: any other length
    /// is a decryption-format error, never truncated or padded.
    pub fn symmetric_key_from_unwrapped(unwrapped: &[u8]) -> (r: CryptoResult<[u8; 32]>)
        ensures
            r is Ok <==> unwrapped@.len() == 32,
            r is Ok ==> r->Ok_0@ == unwrapped@,
            r is Err ==> r->Err_0 is DecryptionFailed,
    {
        if unwrapped.len() != 32 {
            return Err(CryptoError::DecryptionFailed("Expected 32 bytes".to_owned()));
        }
        let key: [u8; 32] = read_array(unwrapped, 0);
        assert(unwrapped@.subrange(0, 32) =~= unwrapped@);
        Ok(key)
    }

    /// Unwraps a symmetric key with the private key (RSA-OAEP) and checks
    /// its length.
    pub fn decrypt_symmetric_key(encrypted_key: &[u8], private_key: &RsaPrivateKey) -> (r:
        CryptoResult<[u8; 32]>)
        ensures
            match oaep_unwrapped(*private_key, encrypted_key@) {
                Some(m) => (r is Ok <==> m.len() == 32) && (r is Ok ==> r->Ok_0@ == m) && (r is Err
                    ==> r->Err_0 is DecryptionFailed),
                None => r is Err && r->Err_0 is RsaError,
            },
    {
        match oaep_decrypt(private_key, encrypted_key) {
            Ok(unwrapped) => Self::symmetric_key_from_unwrapped(unwrapped.as_slice()),
            Err(_) => Err(CryptoError::RsaError("Failed to decrypt symmetric key".to_owned())),
        }
    }

    /// Encrypts `data` with AES-256-GCM under a fresh symmetric key.
    pub fn encrypt_data(data: &[u8], key: &[u8; 32], nonce: &[u8; 12]) -> (r: CryptoResult<
        Vec<u8>,
    >)
        ensures
            r is Ok <==> data@.len() <= MAX_PLAINTEXT_LEN,
            r is Ok ==> r->Ok_0@ == aes_gcm_sealed(key@, nonce@, data@),
            r is Ok ==> r->Ok_0@.len() == data@.len() + TAG_LEN,
            r is Err ==> r->Err_0 is EncryptionFailed,
    {
        aead::encrypt(data, key, nonce)
    }

    /// Verifies and decrypts AES-256-GCM output under an unwrapped key;
    /// every failure is `AuthenticationFailed`.
    pub fn decrypt_data(encrypted_data: &[u8], key: &[u8; 32], nonce: &[u8; 12]) -> (r:
        CryptoResult<Vec<u8>>)
        ensures
            r is Ok ==> aes_gcm_sealed(key@, nonce@, r->Ok_0@) == encrypted_data@,
            r is Ok ==> r->Ok_0@.len() + TAG_LEN == encrypted_data@.len(),
            r is Err ==> r->Err_0 is AuthenticationFailed,
            forall|p: Seq<u8>|
                p.len() <= MAX_PLAINTEXT_LEN && #[trigger] aes_gcm_sealed(key@, nonce@, p)
                    == encrypted_data@ ==> r is Ok && r->Ok_0@ == p,
    {
        aead::decrypt(encrypted_data, key, nonce)
    }
}

} // verus!
