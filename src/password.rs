//! Password-based scheme: Argon2id key derivation from a passphrase and a
//! salt, then AES-256-GCM under the derived key.
use vstd::prelude::*;
use vstd::string::StringSliceAdditionalSpecFns;
use argon2::Argon2;
use crate::aead::{self, aes_gcm_sealed, random_12, random_32, MAX_PLAINTEXT_LEN, TAG_LEN};
use crate::crypto::{Argon2Params, CryptoError, CryptoResult};

verus! {

/// argon2's error type, returned by `Params::new` and `hash_password_into`.
#[verifier::external_type_specification]
#[verifier::external_body]
pub struct ExArgon2Error(argon2::Error);

/// The 32-byte Argon2id (version 0x13) output for a password's bytes, a
/// salt and the three cost parameters.
pub uninterp spec fn argon2id_key(
    password: Seq<u8>,
    salt: Seq<u8>,
    memory_cost: u32,
    time_cost: u32,
    parallelism: u32,
) -> Seq<u8>;

/// Largest number of lanes that Argon2 accepts.
pub const MAX_PARALLELISM: u32 = 0xFF_FFFF;

/// The cost parameters that Argon2 accepts: at least 8 KiB of memory per
/// lane, at least one iteration, between 1 and 2^24 - 1 lanes.
pub open spec fn argon2_params_valid(p: Argon2Params) -> bool {
    &&& p.memory_cost >= 8
    &&& p.memory_cost as int >= 8 * p.parallelism as int
    &&& p.time_cost >= 1
    &&& 1 <= p.parallelism <= MAX_PARALLELISM
}

/// The key that a password, a salt and parameters derive.
pub open spec fn derived_key(password: &str, salt: Seq<u8>, params: Argon2Params) -> Seq<u8> {
    argon2id_key(
        password.spec_bytes(),
        salt,
        params.memory_cost,
        params.time_cost,
        params.parallelism,
    )
}

/// Relies on argon2's `Params::new` (32-byte output) and
/// `Argon2::hash_password_into` with Argon2id and version 0x13: the first
/// accepts exactly the parameters of `argon2_params_valid`, the second then
/// fails only on a password longer than 2^32 - 1 bytes, and the output
/// depends on password, salt and parameters alone. `Params::new` computes
/// `8 * parallelism` in `u32`, hence the bound on `parallelism`.
#[verifier::external_body]
fn argon2id_hash(password: &[u8], salt: &[u8; 32], params: &Argon2Params) -> (r: Result<
    [u8; 32],
    argon2::Error,
>)
    requires
        params.parallelism <= MAX_PARALLELISM,
    ensures
        r is Ok <==> (argon2_params_valid(*params) && password@.len() <= u32::MAX),
        r is Ok ==> r->Ok_0@ == argon2id_key(password@, salt@, params.memory_cost, params.time_cost, params.parallelism),
{
    let p = argon2::Params::new(params.memory_cost, params.time_cost, params.parallelism, Some(32))?;
    let mut key = [0u8; 32];
    Argon2::new(argon2::Algorithm::Argon2id, argon2::Version::V0x13, p)
        .hash_password_into(password, salt, &mut key)
        .map(|()| key)
}

/// Password-based encryption operations.
pub struct PasswordEncryption;

impl PasswordEncryption {
    /// Rejects the empty password.
    pub fn validate_password(password: &str) -> (r: CryptoResult<()>)
        ensures
            r is Ok <==> password@.len() > 0,
            r is Err ==> r->Err_0 is InvalidPassword,
    {
        if password.is_empty() {
            return Err(CryptoError::InvalidPassword);
        }
        Ok(())
    }

    /// Derives the 32-byte key for `password` and `salt` under `params`.
    ///
    /// The empty password is refused before any derivation. Otherwise the
    /// derivation succeeds exactly when Argon2 accepts the parameters and
    /// the password's length, and the key is a function of the inputs alone.
    pub fn derive_key(password: &str, salt: &[u8; 32], params: &Argon2Params) -> (r: CryptoResult<
        [u8; 32],
    >)
        ensures
            password@.len() == 0 ==> r is Err && r->Err_0 is InvalidPassword,
            password@.len() > 0 ==> (r is Ok <==> argon2_params_valid(*params)
                && password.spec_bytes().len() <= u32::MAX),
            password@.len() > 0 && r is Err ==> r->Err_0 is KeyDerivationFailed,
            r is Ok ==> r->Ok_0@ == derived_key(password, salt@, *params),
    {
        Self::validate_password(password)?;
        if params.parallelism > MAX_PARALLELISM {
            return Err(CryptoError::KeyDerivationFailed("Invalid params".to_owned()));
        }
        match argon2id_hash(password.as_bytes(), salt, params) {
            Ok(key) => Ok(key),
            Err(_) => Err(CryptoError::KeyDerivationFailed("Key derivation failed".to_owned())),
        }
    }

    /// Draws a fresh random salt.
    pub fn generate_salt() -> (r: CryptoResult<[u8; 32]>)
        ensures
            r is Err ==> r->Err_0 is KeyDerivationFailed,
    {
        match random_32() {
            Ok(salt) => Ok(salt),
            Err(_) => Err(CryptoError::KeyDerivationFailed("Failed to generate salt".to_owned())),
        }
    }

    /// Draws a fresh random nonce.
    pub fn generate_nonce() -> (r: CryptoResult<[u8; 12]>)
        ensures
            r is Err ==> r->Err_0 is EncryptionFailed,
    {
        match random_12() {
            Ok(nonce) => Ok(nonce),
            Err(_) => Err(CryptoError::EncryptionFailed("Failed to generate nonce".to_owned())),
        }
    }

    /// Encrypts `data` with AES-256-GCM under a derived key.
    pub fn encrypt(data: &[u8], key: &[u8; 32], nonce: &[u8; 12]) -> (r: CryptoResult<Vec<u8>>)
        ensures
            r is Ok <==> data@.len() <= MAX_PLAINTEXT_LEN,
            r is Ok ==> r->Ok_0@ == aes_gcm_sealed(key@, nonce@, data@),
            r is Ok ==> r->Ok_0@.len() == data@.len() + TAG_LEN,
            r is Err ==> r->Err_0 is EncryptionFailed,
    {
        aead::encrypt(data, key, nonce)
    }

    /// Verifies and decrypts AES-256-GCM output under a derived key; every
    /// failure is `AuthenticationFailed`.
    pub fn decrypt(encrypted_data: &[u8], key: &[u8; 32], nonce: &[u8; 12]) -> (r: CryptoResult<
        Vec<u8>,
    >)
        ensures
            r is Ok ==> aes_gcm_sealed(key@, nonce@, r->Ok_0@) == encrypted_data@,
            r is Ok ==> r->Ok_0@.len() + TAG_LEN == encrypted_data@.len(),
            r is Err ==> r->Err_0 is AuthenticationFailed,
            forall|p: Seq<u8>|
                p.len() <= MAX_PLAINTEXT_LEN && #[trigger] aes_gcm_sealed(key@, nonce@, p)
                    == encrypted_data@ ==> r is Ok && r->Ok_0@ == p,
    {
        aead::decrypt(encrypted_data, key, nonce)
    }
}

} // verus!
