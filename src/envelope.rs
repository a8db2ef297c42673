//! Envelope orchestration: turning a payload into a serialized container
//! and back, for both schemes. File staging and prompting stay with the
//! caller, which hands in bytes and secrets.
use vstd::prelude::*;
use rsa::{RsaPrivateKey, RsaPublicKey};
use crate::aead::{aes_gcm_sealed, MAX_PLAINTEXT_LEN};
use crate::container::{
    container_bytes, decode, le32, lemma_decode_encode, metadata_bytes, reports, ContainerView,
    DecodeFault, EncryptedContainer, CONTAINER_VERSION,
};
use crate::crypto::{
    Argon2Params, CryptoError, CryptoResult, EncryptionMetadata, EncryptionType, MetadataView,
};
use crate::keywrap::{oaep_unwrapped, wraps_key, RsaEncryption};
use crate::password::{argon2_params_valid, derived_key, PasswordEncryption};
use vstd::string::{StringExecFns, StringSliceAdditionalSpecFns};
use crate::text::{
    component_end, extension_of, is_extension_dot, lemma_extension_dot_unique, path_extension,
    path_without_extension, str_eq, strip_extension, trimmed,
};

verus! {

/// Whether `password` opens container `c` to `payload`: `c` is a password
/// container whose parameters Argon2 accepts, and its ciphertext is the
/// sealing of `payload` under the key derived from `password` and the
/// container's salt, with the container's nonce.
pub open spec fn password_opens(c: ContainerView, password: &str, payload: Seq<u8>) -> bool {
    match c.metadata {
        MetadataView::Password { salt, nonce, params } => {
            &&& password@.len() > 0
            &&& password.spec_bytes().len() <= u32::MAX
            &&& argon2_params_valid(params)
            &&& payload.len() <= MAX_PLAINTEXT_LEN
            &&& c.encrypted_data == aes_gcm_sealed(derived_key(password, salt, params), nonce, payload)
        },
        MetadataView::Rsa { .. } => false,
    }
}

/// Whether symmetric key `key` opens RSA container `c` to `payload`.
pub open spec fn key_opens(c: ContainerView, key: Seq<u8>, payload: Seq<u8>) -> bool {
    match c.metadata {
        MetadataView::Rsa { nonce, .. } => {
            &&& payload.len() <= MAX_PLAINTEXT_LEN
            &&& c.encrypted_data == aes_gcm_sealed(key, nonce, payload)
        },
        MetadataView::Password { .. } => false,
    }
}

/// Whether `payload` authenticates as the content of password container
/// `c` under `password`.
pub open spec fn password_authenticates(c: ContainerView, password: &str, payload: Seq<u8>) -> bool {
    match c.metadata {
        MetadataView::Password { salt, nonce, params } => aes_gcm_sealed(
            derived_key(password, salt, params),
            nonce,
            payload,
        ) == c.encrypted_data,
        MetadataView::Rsa { .. } => false,
    }
}

/// Whether `payload` authenticates as the content of RSA container `c`
/// under symmetric key `key`.
pub open spec fn key_authenticates(c: ContainerView, key: Seq<u8>, payload: Seq<u8>) -> bool {
    match c.metadata {
        MetadataView::Rsa { nonce, .. } => aes_gcm_sealed(key, nonce, payload) == c.encrypted_data,
        MetadataView::Password { .. } => false,
    }
}

/// Whether password container `c` carries hardness parameters `params`.
pub open spec fn carries_params(c: ContainerView, params: Argon2Params) -> bool {
    match c.metadata {
        MetadataView::Password { params: p, .. } => p == params,
        MetadataView::Rsa { .. } => false,
    }
}

/// Whether RSA container `c` carries, as its wrapped key, a wrap of `key`
/// (never the key itself).
pub open spec fn carries_wrapped_key(c: ContainerView, key: Seq<u8>) -> bool {
    match c.metadata {
        MetadataView::Rsa { encrypted_key, .. } => wraps_key(encrypted_key, key),
        MetadataView::Password { .. } => false,
    }
}

/// What `private_key` unwraps from the wrapped key of RSA container `c`.
pub open spec fn unwrapped_key(c: ContainerView, private_key: RsaPrivateKey) -> Option<Seq<u8>> {
    match c.metadata {
        MetadataView::Rsa { encrypted_key, .. } => oaep_unwrapped(private_key, encrypted_key),
        MetadataView::Password { .. } => None,
    }
}

/// Whether `e` may come out of opening a container with a password.
pub open spec fn is_password_open_error(e: CryptoError) -> bool {
    ||| e is InvalidPassword
    ||| e is KeyDerivationFailed
    ||| e is AuthenticationFailed
    ||| e is InvalidKey
}

/// Builds the password container for `data` with the given salt, nonce and
/// parameters; the parameters travel in the container.
pub fn seal_with_password(
    data: &[u8],
    password: &str,
    salt: &[u8; 32],
    nonce: &[u8; 12],
    params: &Argon2Params,
) -> (r: CryptoResult<EncryptedContainer>)
    ensures
        password@.len() == 0 ==> r is Err && r->Err_0 is InvalidPassword,
        r is Ok <==> (password@.len() > 0 && password.spec_bytes().len() <= u32::MAX
            && argon2_params_valid(*params) && data@.len() <= MAX_PLAINTEXT_LEN),
        password@.len() > 0 && !(password.spec_bytes().len() <= u32::MAX && argon2_params_valid(
            *params,
        )) ==> r is Err && r->Err_0 is KeyDerivationFailed,
        password@.len() > 0 && password.spec_bytes().len() <= u32::MAX && argon2_params_valid(
            *params,
        ) && data@.len() > MAX_PLAINTEXT_LEN ==> r is Err && r->Err_0 is EncryptionFailed,
        r is Ok ==> r->Ok_0@.wf() && r->Ok_0@.metadata == (MetadataView::Password {
            salt: salt@,
            nonce: nonce@,
            params: *params,
        }) && password_opens(r->Ok_0@, password, data@),
{
    let key = PasswordEncryption::derive_key(password, salt, params)?;
    let encrypted = PasswordEncryption::encrypt(data, &key, nonce)?;
    let metadata = EncryptionMetadata::Password { salt: *salt, nonce: *nonce, argon2_params: *params };
    Ok(EncryptedContainer::new(EncryptionType::Password, metadata, encrypted))
}

/// Recovers the payload of a password container.
///
/// An RSA container is refused with `InvalidKey`. A payload comes back only
/// if the ciphertext authenticates under the derived key, and whenever the
/// password opens the container it does come back.
pub fn open_with_password(container: &EncryptedContainer, password: &str) -> (r: CryptoResult<
    Vec<u8>,
>)
    ensures
        container@.metadata is Rsa ==> r is Err && r->Err_0 is InvalidKey,
        r is Err ==> is_password_open_error(r->Err_0),
        r is Ok ==> match container@.metadata {
            MetadataView::Password { salt, nonce, params } => aes_gcm_sealed(
                derived_key(password, salt, params),
                nonce,
                r->Ok_0@,
            ) == container@.encrypted_data,
            MetadataView::Rsa { .. } => false,
        },
        forall|p: Seq<u8>| #[trigger] password_opens(container@, password, p) ==> r is Ok && r->Ok_0@ == p,
{
    match &container.metadata {
        EncryptionMetadata::Password { salt, nonce, argon2_params } => {
            let key = PasswordEncryption::derive_key(password, salt, argon2_params)?;
            PasswordEncryption::decrypt(container.encrypted_data.as_slice(), &key, nonce)
        },
        EncryptionMetadata::Rsa { .. } => Err(CryptoError::InvalidKey),
    }
}

/// Builds the RSA container for `data` from a symmetric key, its nonce and
/// the key wrapped under the recipient's public key.
pub fn seal_with_wrapped_key(data: &[u8], key: &[u8; 32], nonce: &[u8; 12], wrapped_key: Vec<u8>) -> (r: CryptoResult<EncryptedContainer>)
    ensures
        r is Ok <==> data@.len() <= MAX_PLAINTEXT_LEN,
        r is Ok ==> r->Ok_0@.metadata == (MetadataView::Rsa { encrypted_key: wrapped_key@, nonce: nonce@ })
            && r->Ok_0@.version == CONTAINER_VERSION && r->Ok_0@.encryption_type == EncryptionType::Rsa
            && key_opens(r->Ok_0@, key@, data@),
        r is Err ==> r->Err_0 is EncryptionFailed,
{
    let encrypted = RsaEncryption::encrypt_data(data, key, nonce)?;
    let metadata = EncryptionMetadata::Rsa { encrypted_key: wrapped_key, nonce: *nonce };
    Ok(EncryptedContainer::new(EncryptionType::Rsa, metadata, encrypted))
}

/// Recovers the payload of an RSA container with its unwrapped symmetric
/// key. A password container is refused with `InvalidKey`.
pub fn open_with_symmetric_key(container: &EncryptedContainer, key: &[u8; 32]) -> (r: CryptoResult<Vec<u8>>)
    ensures
        container@.metadata is Password ==> r is Err && r->Err_0 is InvalidKey,
        r is Err ==> (r->Err_0 is InvalidKey || r->Err_0 is AuthenticationFailed),
        r is Ok ==> match container@.metadata {
            MetadataView::Rsa { nonce, .. } => aes_gcm_sealed(key@, nonce, r->Ok_0@) == container@.encrypted_data,
            MetadataView::Password { .. } => false,
        },
        forall|p: Seq<u8>| #[trigger] key_opens(container@, key@, p) ==> r is Ok && r->Ok_0@ == p,
{
    match &container.metadata {
        EncryptionMetadata::Rsa { nonce, .. } => {
            RsaEncryption::decrypt_data(container.encrypted_data.as_slice(), key, nonce)
        },
        EncryptionMetadata::Password { .. } => Err(CryptoError::InvalidKey),
    }
}

/// Encrypts a payload under a password with a fresh random salt and nonce
/// and the given hardness parameters, and serializes the container.
///
/// Success is owed whenever the password is non-empty, Argon2 accepts the
/// parameters and the lengths are within limits, unless the random source
/// fails.
pub fn encrypt_with_password(data: &[u8], password: &str, params: &Argon2Params) -> (r: CryptoResult<Vec<u8>>)
    ensures
        password@.len() == 0 ==> r is Err && r->Err_0 is InvalidPassword,
        r is Ok ==> password@.len() > 0 && password.spec_bytes().len() <= u32::MAX
            && argon2_params_valid(*params) && data@.len() <= MAX_PLAINTEXT_LEN,
        r is Err ==> (r->Err_0 is InvalidPassword || r->Err_0 is KeyDerivationFailed
            || r->Err_0 is EncryptionFailed),
        r is Ok ==> exists|c: ContainerView|
            #![trigger container_bytes(c)]
            c.wf() && r->Ok_0@ == container_bytes(c) && carries_params(c, *params)
                && password_opens(c, password, data@),
        r is Err && password@.len() > 0 && password.spec_bytes().len() <= u32::MAX
            && argon2_params_valid(*params) && data@.len() <= MAX_PLAINTEXT_LEN
            ==> (r->Err_0 is KeyDerivationFailed || r->Err_0 is EncryptionFailed),
{
    PasswordEncryption::validate_password(password)?;
    let salt = PasswordEncryption::generate_salt()?;
    let nonce = PasswordEncryption::generate_nonce()?;
    let container = match seal_with_password(data, password, &salt, &nonce, params) {
        Ok(c) => c,
        Err(e) => {
            return Err(e);
        },
    };
    let bytes = container.to_bytes();
    assert(bytes is Ok ==> bytes->Ok_0@ == container_bytes(container@));
    bytes
}

/// Parses a serialized container and recovers its payload with a password.
///
/// Framing is validated before any cryptographic work; an RSA container is
/// refused with `InvalidKey`.
pub fn decrypt_with_password(bytes: &[u8], password: &str) -> (r: CryptoResult<Vec<u8>>)
    ensures
        decode(bytes@) is Err ==> r is Err && reports(r->Err_0, decode(bytes@)->Err_0),
        decode(bytes@) is Ok && decode(bytes@)->Ok_0.metadata is Rsa ==> r is Err && r->Err_0 is InvalidKey,
        decode(bytes@) is Ok && r is Err ==> is_password_open_error(r->Err_0),
        r is Ok ==> decode(bytes@) is Ok && password_authenticates(decode(bytes@)->Ok_0, password, r->Ok_0@),
        forall|p: Seq<u8>|
            decode(bytes@) is Ok && #[trigger] password_opens(decode(bytes@)->Ok_0, password, p)
                ==> r is Ok && r->Ok_0@ == p,
{
    let container = EncryptedContainer::from_bytes(bytes)?;
    open_with_password(&container, password)
}

/// Encrypts a payload for the holder of the private key matching
/// `public_key`: a fresh symmetric key and nonce encrypt the payload, and
/// the key travels wrapped under `public_key`, never in the clear.
pub fn encrypt_with_public_key(data: &[u8], public_key: &RsaPublicKey) -> (r: CryptoResult<Vec<u8>>)
    ensures
        r is Ok ==> exists|c: ContainerView, k: Seq<u8>|
            #![trigger container_bytes(c), key_opens(c, k, data@)]
            c.wf() && r->Ok_0@ == container_bytes(c) && k.len() == 32 && key_opens(c, k, data@)
                && carries_wrapped_key(c, k),
        r is Err ==> (r->Err_0 is EncryptionFailed || r->Err_0 is RsaError
            || r->Err_0 is InvalidContainer),
{
    let key = RsaEncryption::generate_symmetric_key()?;
    let nonce = RsaEncryption::generate_nonce()?;
    let wrapped_key = RsaEncryption::encrypt_symmetric_key(&key, public_key)?;
    let container = seal_with_wrapped_key(data, &key, &nonce, wrapped_key)?;
    let bytes = container.to_bytes();
    assert(bytes is Ok ==> container@.wf() && bytes->Ok_0@ == container_bytes(container@)
        && key_opens(container@, key@, data@) && carries_wrapped_key(container@, key@));
    bytes
}

/// Parses a serialized RSA container and recovers its payload with the
/// already unwrapped symmetric key.
pub fn decrypt_with_symmetric_key(bytes: &[u8], key: &[u8; 32]) -> (r: CryptoResult<Vec<u8>>)
    ensures
        decode(bytes@) is Err ==> r is Err && reports(r->Err_0, decode(bytes@)->Err_0),
        decode(bytes@) is Ok && decode(bytes@)->Ok_0.metadata is Password ==> r is Err && r->Err_0 is InvalidKey,
        decode(bytes@) is Ok && r is Err ==> (r->Err_0 is InvalidKey || r->Err_0 is AuthenticationFailed),
        r is Ok ==> decode(bytes@) is Ok && key_authenticates(decode(bytes@)->Ok_0, key@, r->Ok_0@),
        forall|p: Seq<u8>|
            decode(bytes@) is Ok && #[trigger] key_opens(decode(bytes@)->Ok_0, key@, p) ==> r is Ok
                && r->Ok_0@ == p,
{
    let container = EncryptedContainer::from_bytes(bytes)?;
    open_with_symmetric_key(&container, key)
}

/// Parses a serialized RSA container, unwraps its symmetric key with
/// `private_key` and recovers the payload.
///
/// A wrapped key that does not unwrap under this private key (a wrong key
/// pair) is `AuthenticationFailed`, as is a ciphertext that does not
/// authenticate; an unwrapped key of the wrong length is `DecryptionFailed`.
pub fn decrypt_with_private_key(bytes: &[u8], private_key: &RsaPrivateKey) -> (r: CryptoResult<Vec<u8>>)
    ensures
        decode(bytes@) is Err ==> r is Err && reports(r->Err_0, decode(bytes@)->Err_0),
        decode(bytes@) is Ok && decode(bytes@)->Ok_0.metadata is Password ==> r is Err && r->Err_0 is InvalidKey,
        decode(bytes@) is Ok && decode(bytes@)->Ok_0.metadata is Rsa && unwrapped_key(decode(bytes@)->Ok_0, *private_key) is None
            ==> r is Err && r->Err_0 is AuthenticationFailed,
        decode(bytes@) is Ok && unwrapped_key(decode(bytes@)->Ok_0, *private_key) is Some
            && unwrapped_key(decode(bytes@)->Ok_0, *private_key)->Some_0.len() != 32
            ==> r is Err && r->Err_0 is DecryptionFailed,
        r is Ok ==> decode(bytes@) is Ok && unwrapped_key(decode(bytes@)->Ok_0, *private_key) is Some
            && key_authenticates(decode(bytes@)->Ok_0, unwrapped_key(decode(bytes@)->Ok_0, *private_key)->Some_0, r->Ok_0@),
        decode(bytes@) is Ok && r is Err ==> (r->Err_0 is InvalidKey || r->Err_0 is DecryptionFailed
            || r->Err_0 is AuthenticationFailed),
        forall|p: Seq<u8>|
            decode(bytes@) is Ok && unwrapped_key(decode(bytes@)->Ok_0, *private_key) is Some
                && unwrapped_key(decode(bytes@)->Ok_0, *private_key)->Some_0.len() == 32
                && #[trigger] key_opens(decode(bytes@)->Ok_0, unwrapped_key(decode(bytes@)->Ok_0, *private_key)->Some_0, p)
                ==> r is Ok && r->Ok_0@ == p,
{
    let container = EncryptedContainer::from_bytes(bytes)?;
    match &container.metadata {
        EncryptionMetadata::Rsa { encrypted_key, .. } => {
            let key = match RsaEncryption::decrypt_symmetric_key(encrypted_key.as_slice(), private_key) {
                Ok(k) => k,
                Err(CryptoError::DecryptionFailed(msg)) => {
                    return Err(CryptoError::DecryptionFailed(msg));
                },
                Err(_) => {
                    return Err(CryptoError::AuthenticationFailed);
                },
            };
            open_with_symmetric_key(&container, &key)
        },
        EncryptionMetadata::Password { .. } => Err(CryptoError::InvalidKey),
    }
}

/// Whether a buffer is a valid container that needs a password to open;
/// a batch asks for the password once if any of its files does.
pub fn requires_password(bytes: &[u8]) -> (r: bool)
    ensures
        r == (decode(bytes@) is Ok && decode(bytes@)->Ok_0.metadata is Password),
{
    match EncryptedContainer::from_bytes(bytes) {
        Ok(c) => match c.metadata {
            EncryptionMetadata::Password { .. } => true,
            EncryptionMetadata::Rsa { .. } => false,
        },
        Err(_) => false,
    }
}

/// Whether a container buffer is a valid password container.
pub open spec fn is_password_container(b: Seq<u8>) -> bool {
    decode(b) is Ok && decode(b)->Ok_0.metadata is Password
}

/// Whether any buffer of a batch is a valid password container: the batch
/// then asks for the password once, before its files are processed.
pub fn any_requires_password(files: &[Vec<u8>]) -> (r: bool)
    ensures
        r == exists|i: int| 0 <= i < files@.len() && #[trigger] is_password_container(files@[i]@),
{
    let mut i: usize = 0;
    while i < files.len()
        invariant
            i <= files@.len(),
            forall|j: int| 0 <= j < i ==> !#[trigger] is_password_container(files@[j]@),
        decreases files@.len() - i,
    {
        if requires_password(files[i].as_slice()) {
            assert(is_password_container(files@[i as int]@));
            return true;
        }
        i = i + 1;
    }
    false
}

/// Password round trip: the bytes that password encryption produces decode
/// to their container, which the same password opens to the payload, so
/// decryption with that password returns the payload.
pub proof fn lemma_password_round_trip(c: ContainerView, password: &str, payload: Seq<u8>)
    requires
        c.wf(),
        password_opens(c, password, payload),
    ensures
        decode(container_bytes(c)) == Ok::<ContainerView, DecodeFault>(c),
        password_opens(decode(container_bytes(c))->Ok_0, password, payload),
{
    lemma_decode_encode(c);
}

/// RSA round trip: the bytes that public-key encryption produces decode to
/// their container; when the private key unwraps the container's wrapped
/// key to the 32-byte symmetric key that encrypted the payload, that key
/// opens the container to the payload, so decryption with the private key
/// returns the payload.
pub proof fn lemma_rsa_round_trip(
    c: ContainerView,
    key: Seq<u8>,
    payload: Seq<u8>,
    private_key: RsaPrivateKey,
)
    requires
        c.wf(),
        key.len() == 32,
        key_opens(c, key, payload),
        unwrapped_key(c, private_key) == Some(key),
    ensures
        decode(container_bytes(c)) == Ok::<ContainerView, DecodeFault>(c),
        unwrapped_key(decode(container_bytes(c))->Ok_0, private_key) == Some(key),
        key_opens(decode(container_bytes(c))->Ok_0, key, payload),
{
    lemma_decode_encode(c);
}

/// Metadata non-leakage for RSA containers: the wrapped key that the
/// metadata holds is longer than the symmetric key, so the symmetric key
/// is not what the metadata stores.
pub proof fn lemma_rsa_metadata_holds_no_key(c: ContainerView, key: Seq<u8>)
    requires
        carries_wrapped_key(c, key),
    ensures
        match c.metadata {
            MetadataView::Rsa { encrypted_key, .. } => encrypted_key != key && encrypted_key.len()
                >= key.len() + 66,
            MetadataView::Password { .. } => false,
        },
{
}

/// Metadata non-leakage: the metadata region of a serialized container
/// holds exactly the scheme's public fields, salt, nonce and the three
/// costs for a password container, the wrapped key's length, the wrapped
/// key and the nonce for an RSA container, and nothing else.
pub proof fn lemma_metadata_is_public(c: ContainerView)
    requires
        c.wf(),
    ensures
        container_bytes(c).subrange(10, 10 + metadata_bytes(c.metadata).len() as int)
            == metadata_bytes(c.metadata),
        match c.metadata {
            MetadataView::Password { salt, nonce, params } => metadata_bytes(c.metadata) == salt
                + nonce + le32(params.memory_cost) + le32(params.time_cost) + le32(params.parallelism)
                && metadata_bytes(c.metadata).len() == 56,
            MetadataView::Rsa { encrypted_key, nonce } => metadata_bytes(c.metadata) == le32(
                encrypted_key.len() as u32,
            ) + encrypted_key + nonce,
        },
{
    let b = container_bytes(c);
    let m = metadata_bytes(c.metadata);
    assert(b.subrange(10, 10 + m.len() as int) =~= m);
}

/// Whether a path names a container file: its extension is `jcze`. Other
/// files pass through the decryption step unchanged.
pub fn is_encrypted_file(path: &str) -> (r: bool)
    ensures
        r == (path_extension(path@) == Some("jcze"@)),
{
    match extension_of(path) {
        Some(ext) => str_eq(ext, "jcze"),
        None => false,
    }
}

/// The path where the container for `path` is written: `path` followed by
/// `.jcze`.
pub fn encrypted_path(path: &str) -> (r: String)
    ensures
        r@ == path@ + ".jcze"@,
{
    path.to_owned().concat(".jcze")
}

/// The path where the payload of container file `path` is written: `path`
/// without its extension.
pub fn decrypted_path(path: &str) -> (r: String)
    ensures
        r@ == path_without_extension(path@),
{
    strip_extension(path).to_owned()
}

/// Container naming round trip: the container path of a file path that
/// names a file (non-empty, not ending in a separator) is recognised as a
/// container path, and the payload path derived from it is the file path.
pub proof fn lemma_container_path_round_trip(path: Seq<char>)
    requires
        path.len() > 0,
        path.last() != '/',
    ensures
        path_extension(path + ".jcze"@) == Some("jcze"@),
        path_without_extension(path + ".jcze"@) == path,
{
    reveal_strlit(".jcze");
    reveal_strlit("jcze");
    let s = path + ".jcze"@;
    let i = path.len() as int;
    assert(s.last() == 'e');
    assert(component_end(s) == s.len());
    assert(trimmed(s) =~= s);
    assert(is_extension_dot(s, i));
    let k = choose|k: int| is_extension_dot(s, k);
    lemma_extension_dot_unique(s, i, k);
    assert(s.subrange(i + 1, s.len() as int) =~= "jcze"@);
    assert(s.subrange(0, i) =~= path);
}

} // verus!
