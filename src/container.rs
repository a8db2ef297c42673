//! The versioned binary container that carries a scheme tag, the scheme's
//! public metadata and the AEAD ciphertext.
//!
//! Layout, all integers little-endian:
//! `[4 magic] [1 version] [1 type] [4 metadata_len] [metadata] [ciphertext]`.
use vstd::prelude::*;
use vstd::slice::{slice_subrange, slice_to_vec};
use crate::crypto::{
    Argon2Params, CryptoError, CryptoResult, EncryptionMetadata, EncryptionType, MetadataView,
};

verus! {

/// The one supported container format version.
pub const CONTAINER_VERSION: u8 = 1;

/// Length of the fixed header: magic, version, type and metadata length.
pub const HEADER_LEN: usize = 10;

/// Length of a salt.
pub const SALT_LEN: usize = 32;

/// Length of an AEAD nonce.
pub const NONCE_LEN: usize = 12;

/// Length of the serialized metadata of a password container.
pub const PASSWORD_METADATA_LEN: usize = 56;

/// The four magic bytes "JCZE" that open every container.
pub open spec fn spec_magic() -> Seq<u8> {
    seq![0x4Au8, 0x43u8, 0x5Au8, 0x45u8]
}

/// Little-endian encoding of a 32-bit integer.
pub open spec fn le32(v: u32) -> Seq<u8> {
    seq![
        (v % 256) as u8,
        ((v / 256) % 256) as u8,
        ((v / 65536) % 256) as u8,
        (v / 16777216) as u8,
    ]
}

/// The 32-bit integer stored little-endian at `at` in `b`.
pub open spec fn le32_at(b: Seq<u8>, at: int) -> int {
    b[at] as int + 256 * b[at + 1] as int + 65536 * b[at + 2] as int + 16777216 * b[at + 3] as int
}

/// Serialized form of a scheme's metadata.
pub open spec fn metadata_bytes(m: MetadataView) -> Seq<u8> {
    match m {
        MetadataView::Password { salt, nonce, params } => salt + nonce + le32(params.memory_cost)
            + le32(params.time_cost) + le32(params.parallelism),
        MetadataView::Rsa { encrypted_key, nonce } => le32(encrypted_key.len() as u32)
            + encrypted_key + nonce,
    }
}

/// Mathematical model of an [`EncryptedContainer`].
pub struct ContainerView {
    pub version: u8,
    pub encryption_type: EncryptionType,
    pub metadata: MetadataView,
    pub encrypted_data: Seq<u8>,
}

/// Whether the metadata's sizes are those of the wire format and its
/// serialized length fits the 32-bit length field.
pub open spec fn metadata_encodable(m: MetadataView) -> bool {
    match m {
        MetadataView::Password { salt, nonce, .. } => salt.len() == SALT_LEN && nonce.len()
            == NONCE_LEN,
        MetadataView::Rsa { encrypted_key, nonce } => nonce.len() == NONCE_LEN && 4
            + encrypted_key.len() + NONCE_LEN <= u32::MAX,
    }
}

impl ContainerView {
    /// A container that encodes and decodes back to itself: current version,
    /// a tag that agrees with the metadata, and encodable metadata.
    pub open spec fn wf(self) -> bool {
        &&& self.version == CONTAINER_VERSION
        &&& self.encryption_type == self.metadata.kind()
        &&& metadata_encodable(self.metadata)
    }
}

/// The serialized form of a container.
pub open spec fn container_bytes(c: ContainerView) -> Seq<u8> {
    let m = metadata_bytes(c.metadata);
    spec_magic() + seq![c.version, c.encryption_type.spec_to_u8()] + le32(m.len() as u32) + m
        + c.encrypted_data
}

/// Why a buffer is not a valid container.
pub enum DecodeFault {
    TooSmall,
    BadMagic,
    BadVersion(u8),
    BadType,
    TruncatedMetadata,
    BadPasswordMetadataSize,
    BadRsaMetadataSize,
    TruncatedRsaMetadata,
}

/// The reason text reported for each malformed-framing fault.
pub open spec fn fault_reason(f: DecodeFault) -> Seq<char> {
    match f {
        DecodeFault::TooSmall => "Container too small"@,
        DecodeFault::BadMagic => "Invalid magic bytes"@,
        DecodeFault::BadVersion(_) => "Unsupported version"@,
        DecodeFault::BadType => "Invalid encryption type"@,
        DecodeFault::TruncatedMetadata => "Truncated metadata"@,
        DecodeFault::BadPasswordMetadataSize => "Invalid password metadata size"@,
        DecodeFault::BadRsaMetadataSize => "Invalid RSA metadata size"@,
        DecodeFault::TruncatedRsaMetadata => "Truncated RSA metadata"@,
    }
}

/// Whether `e` is the error that reports fault `f`: an unsupported version
/// carries the offending byte, every other fault is `InvalidContainer`.
pub open spec fn reports(e: CryptoError, f: DecodeFault) -> bool {
    match e {
        CryptoError::UnsupportedVersion(v) => f == DecodeFault::BadVersion(v),
        CryptoError::InvalidContainer(msg) => !(f is BadVersion) && msg@ == fault_reason(f),
        _ => false,
    }
}

/// Decoding of a metadata region for the given scheme.
pub open spec fn decode_metadata(t: EncryptionType, m: Seq<u8>) -> Result<MetadataView, DecodeFault> {
    match t {
        EncryptionType::Password => if m.len() != PASSWORD_METADATA_LEN {
            Err(DecodeFault::BadPasswordMetadataSize)
        } else {
            Ok(
                MetadataView::Password {
                    salt: m.subrange(0, 32),
                    nonce: m.subrange(32, 44),
                    params: Argon2Params {
                        memory_cost: le32_at(m, 44) as u32,
                        time_cost: le32_at(m, 48) as u32,
                        parallelism: le32_at(m, 52) as u32,
                    },
                },
            )
        },
        EncryptionType::Rsa => if m.len() < 4 {
            Err(DecodeFault::BadRsaMetadataSize)
        } else if 4 + le32_at(m, 0) + NONCE_LEN != m.len() {
            Err(DecodeFault::TruncatedRsaMetadata)
        } else {
            Ok(
                MetadataView::Rsa {
                    encrypted_key: m.subrange(4, 4 + le32_at(m, 0)),
                    nonce: m.subrange(4 + le32_at(m, 0), m.len() as int),
                },
            )
        },
    }
}

/// Decoding of a whole buffer: the checks run in order magic, version,
/// type, metadata length, metadata; the first that fails decides.
pub open spec fn decode(b: Seq<u8>) -> Result<ContainerView, DecodeFault> {
    if b.len() < HEADER_LEN {
        Err(DecodeFault::TooSmall)
    } else if b.subrange(0, 4) != spec_magic() {
        Err(DecodeFault::BadMagic)
    } else if b[4] != CONTAINER_VERSION {
        Err(DecodeFault::BadVersion(b[4]))
    } else if EncryptionType::spec_from_u8(b[5]) is None {
        Err(DecodeFault::BadType)
    } else if HEADER_LEN + le32_at(b, 6) > b.len() {
        Err(DecodeFault::TruncatedMetadata)
    } else {
        let t = EncryptionType::spec_from_u8(b[5])->Some_0;
        let end = HEADER_LEN + le32_at(b, 6);
        match decode_metadata(t, b.subrange(HEADER_LEN as int, end)) {
            Err(f) => Err(f),
            Ok(m) => Ok(
                ContainerView {
                    version: b[4],
                    encryption_type: t,
                    metadata: m,
                    encrypted_data: b.subrange(end, b.len() as int),
                },
            ),
        }
    }
}

/// The persisted encrypted artifact.
#[derive(Debug, Clone)]
pub struct EncryptedContainer {
    /// Container format version.
    pub version: u8,
    /// Encryption scheme.
    pub encryption_type: EncryptionType,
    /// The scheme's public metadata.
    pub metadata: EncryptionMetadata,
    /// AEAD ciphertext with its trailing tag.
    pub encrypted_data: Vec<u8>,
}

impl View for EncryptedContainer {
    type V = ContainerView;

    open spec fn view(&self) -> ContainerView {
        ContainerView {
            version: self.version,
            encryption_type: self.encryption_type,
            metadata: self.metadata@,
            encrypted_data: self.encrypted_data@,
        }
    }
}

/// Decoding the little-endian encoding of `v` gives `v` back.
pub proof fn lemma_le32_round_trip(v: u32)
    ensures
        le32(v).len() == 4,
        le32_at(le32(v), 0) == v as int,
{
    let b = le32(v);
    let x = v as int;
    assert(b[0] as int == x % 256);
    assert(b[1] as int == (x / 256) % 256);
    assert(b[2] as int == (x / 65536) % 256);
    assert(b[3] as int == x / 16777216);
    assert(x % 256 + 256 * ((x / 256) % 256) + 65536 * ((x / 65536) % 256) + 16777216 * (x
        / 16777216) == x) by (nonlinear_arith)
        requires
            0 <= x,
    {
        assert(x == 256 * (x / 256) + x % 256);
        let y = x / 256;
        assert(y == 256 * (y / 256) + y % 256);
        assert(y / 256 == x / 65536);
        let z = x / 65536;
        assert(z == 256 * (z / 256) + z % 256);
        assert(z / 256 == x / 16777216);
    }
}

/// Appends the little-endian encoding of `v`.
fn push_le32(out: &mut Vec<u8>, v: u32)
    ensures
        final(out)@ == old(out)@ + le32(v),
{
    out.push((v % 256) as u8);
    out.push(((v / 256) % 256) as u8);
    out.push(((v / 65536) % 256) as u8);
    out.push((v / 16777216) as u8);
    assert(out@ =~= old(out)@ + le32(v));
}

/// Reads the little-endian 32-bit integer at `at`.
fn read_le32(b: &[u8], at: usize) -> (r: u32)
    requires
        at + 4 <= b@.len(),
    ensures
        r as int == le32_at(b@, at as int),
{
    (b[at] as u32) + 256 * (b[at + 1] as u32) + 65536 * (b[at + 2] as u32) + 16777216 * (b[at
        + 3] as u32)
}

/// Appends every byte of `src`.
pub(crate) fn append_bytes(out: &mut Vec<u8>, src: &[u8])
    ensures
        final(out)@ == old(out)@ + src@,
{
    let ghost start = out@;
    let mut i: usize = 0;
    while i < src.len()
        invariant
            i <= src@.len(),
            out@ == start + src@.subrange(0, i as int),
        decreases src@.len() - i,
    {
        out.push(src[i]);
        i = i + 1;
        assert(out@ =~= start + src@.subrange(0, i as int));
    }
    assert(src@.subrange(0, i as int) =~= src@);
}

/// Copies `N` bytes of `b` from `at` into an array.
pub(crate) fn read_array<const N: usize>(b: &[u8], at: usize) -> (r: [u8; N])
    requires
        at + N <= b@.len(),
    ensures
        r@ == b@.subrange(at as int, at + N),
{
    let n = b.len();
    let mut a = [0u8; N];
    let mut i: usize = 0;
    while i < N
        invariant
            i <= N,
            n == b@.len(),
            at + N <= b@.len(),
            a@.len() == N,
            forall|j: int| 0 <= j < i ==> a@[j] == b@[at + j],
        decreases N - i,
    {
        a[i] = b[at + i];
        i = i + 1;
    }
    assert(a@ =~= b@.subrange(at as int, at + N));
    a
}

impl EncryptedContainer {
    /// Creates a container of the current format version.
    pub fn new(
        encryption_type: EncryptionType,
        metadata: EncryptionMetadata,
        encrypted_data: Vec<u8>,
    ) -> (r: Self)
        ensures
            r@ == (ContainerView {
                version: CONTAINER_VERSION,
                encryption_type,
                metadata: metadata@,
                encrypted_data: encrypted_data@,
            }),
    {
        EncryptedContainer { version: CONTAINER_VERSION, encryption_type, metadata, encrypted_data }
    }

    /// The container's encryption scheme.
    pub fn get_encryption_type(&self) -> (r: EncryptionType)
        ensures
            r == self.encryption_type,
    {
        self.encryption_type
    }

    /// Serializes the metadata region: for a password container the salt,
    /// the nonce and the three costs, 56 bytes; for an RSA container the
    /// wrapped key's length, the wrapped key and the nonce.
    pub fn serialize_metadata(&self) -> (r: CryptoResult<Vec<u8>>)
        ensures
            metadata_encodable(self.metadata@) ==> r is Ok && r->Ok_0@ == metadata_bytes(
                self.metadata@,
            ),
            !metadata_encodable(self.metadata@) ==> r is Err && reports_oversize(r->Err_0),
    {
        let mut bytes: Vec<u8> = Vec::new();
        match &self.metadata {
            EncryptionMetadata::Password { salt, nonce, argon2_params } => {
                append_bytes(&mut bytes, salt.as_slice());
                append_bytes(&mut bytes, nonce.as_slice());
                push_le32(&mut bytes, argon2_params.memory_cost);
                push_le32(&mut bytes, argon2_params.time_cost);
                push_le32(&mut bytes, argon2_params.parallelism);
            },
            EncryptionMetadata::Rsa { encrypted_key, nonce } => {
                if encrypted_key.len() > 0xFFFF_FFFF - 16 {
                    return Err(CryptoError::InvalidContainer("Metadata too large".to_owned()));
                }
                push_le32(&mut bytes, encrypted_key.len() as u32);
                append_bytes(&mut bytes, encrypted_key.as_slice());
                append_bytes(&mut bytes, nonce.as_slice());
            },
        }
        Ok(bytes)
    }

    /// Serializes the whole container.
    pub fn to_bytes(&self) -> (r: CryptoResult<Vec<u8>>)
        ensures
            metadata_encodable(self.metadata@) ==> r is Ok && r->Ok_0@ == container_bytes(self@),
            !metadata_encodable(self.metadata@) ==> r is Err && reports_oversize(r->Err_0),
    {
        let metadata_bytes = self.serialize_metadata()?;
        let mut bytes: Vec<u8> = Vec::new();
        bytes.push(0x4A);
        bytes.push(0x43);
        bytes.push(0x5A);
        bytes.push(0x45);
        bytes.push(self.version);
        bytes.push(self.encryption_type.to_u8());
        push_le32(&mut bytes, metadata_bytes.len() as u32);
        append_bytes(&mut bytes, metadata_bytes.as_slice());
        append_bytes(&mut bytes, self.encrypted_data.as_slice());
        assert(bytes@ =~= container_bytes(self@));
        Ok(bytes)
    }
}

/// Whether `e` reports metadata too large for its 32-bit length field.
pub open spec fn reports_oversize(e: CryptoError) -> bool {
    match e {
        CryptoError::InvalidContainer(msg) => msg@ == "Metadata too large"@,
        _ => false,
    }
}

impl EncryptedContainer {
    /// Parses a metadata region for the given scheme.
    fn deserialize_metadata(encryption_type: EncryptionType, bytes: &[u8]) -> (r: CryptoResult<
        EncryptionMetadata,
    >)
        ensures
            match decode_metadata(encryption_type, bytes@) {
                Ok(m) => r is Ok && r->Ok_0@ == m,
                Err(f) => r is Err && reports(r->Err_0, f),
            },
    {
        match encryption_type {
            EncryptionType::Password => {
                if bytes.len() != PASSWORD_METADATA_LEN {
                    return Err(
                        CryptoError::InvalidContainer("Invalid password metadata size".to_owned()),
                    );
                }
                let salt: [u8; 32] = read_array(bytes, 0);
                let nonce: [u8; 12] = read_array(bytes, 32);
                let memory_cost = read_le32(bytes, 44);
                let time_cost = read_le32(bytes, 48);
                let parallelism = read_le32(bytes, 52);
                Ok(
                    EncryptionMetadata::Password {
                        salt,
                        nonce,
                        argon2_params: Argon2Params { memory_cost, time_cost, parallelism },
                    },
                )
            },
            EncryptionType::Rsa => {
                if bytes.len() < 4 {
                    return Err(
                        CryptoError::InvalidContainer("Invalid RSA metadata size".to_owned()),
                    );
                }
                let key_len = read_le32(bytes, 0) as usize;
                if bytes.len() - 4 < NONCE_LEN || bytes.len() - 4 - NONCE_LEN != key_len {
                    return Err(
                        CryptoError::InvalidContainer("Truncated RSA metadata".to_owned()),
                    );
                }
                let encrypted_key = slice_to_vec(slice_subrange(bytes, 4, 4 + key_len));
                let nonce: [u8; 12] = read_array(bytes, 4 + key_len);
                Ok(EncryptionMetadata::Rsa { encrypted_key, nonce })
            },
        }
    }

    /// Parses a container, validating the framing before anything else.
    /// Either a fully valid container comes back or the first fault found.
    pub fn from_bytes(bytes: &[u8]) -> (r: CryptoResult<Self>)
        ensures
            match decode(bytes@) {
                Ok(c) => r is Ok && r->Ok_0@ == c,
                Err(f) => r is Err && reports(r->Err_0, f),
            },
    {
        if bytes.len() < HEADER_LEN {
            return Err(CryptoError::InvalidContainer("Container too small".to_owned()));
        }
        if bytes[0] != 0x4A || bytes[1] != 0x43 || bytes[2] != 0x5A || bytes[3] != 0x45 {
            assert(bytes@.subrange(0, 4) != spec_magic()) by {
                if bytes@.subrange(0, 4) == spec_magic() {
                    assert(bytes@.subrange(0, 4)[0] == bytes@[0]);
                    assert(bytes@.subrange(0, 4)[1] == bytes@[1]);
                    assert(bytes@.subrange(0, 4)[2] == bytes@[2]);
                    assert(bytes@.subrange(0, 4)[3] == bytes@[3]);
                }
            }
            return Err(CryptoError::InvalidContainer("Invalid magic bytes".to_owned()));
        }
        assert(bytes@.subrange(0, 4) =~= spec_magic());
        let version = bytes[4];
        if version != CONTAINER_VERSION {
            return Err(CryptoError::UnsupportedVersion(version));
        }
        let encryption_type = match EncryptionType::from_u8(bytes[5]) {
            Some(t) => t,
            None => {
                return Err(CryptoError::InvalidContainer("Invalid encryption type".to_owned()));
            },
        };
        let metadata_len = read_le32(bytes, 6) as usize;
        if bytes.len() - HEADER_LEN < metadata_len {
            return Err(CryptoError::InvalidContainer("Truncated metadata".to_owned()));
        }
        let end = HEADER_LEN + metadata_len;
        let metadata_bytes = slice_subrange(bytes, HEADER_LEN, end);
        let metadata = Self::deserialize_metadata(encryption_type, metadata_bytes)?;
        let encrypted_data = slice_to_vec(slice_subrange(bytes, end, bytes.len()));
        Ok(EncryptedContainer { version, encryption_type, metadata, encrypted_data })
    }
}

/// Reading a 32-bit integer where its little-endian encoding stands gives it.
pub proof fn lemma_le32_at(s: Seq<u8>, at: int, v: u32)
    requires
        0 <= at,
        at + 4 <= s.len(),
        s.subrange(at, at + 4) == le32(v),
    ensures
        le32_at(s, at) == v as int,
{
    lemma_le32_round_trip(v);
    let w = s.subrange(at, at + 4);
    assert(w[0] == s[at] && w[1] == s[at + 1] && w[2] == s[at + 2] && w[3] == s[at + 3]);
}

/// Decoding the serialized metadata of a scheme gives the metadata back.
pub proof fn lemma_metadata_round_trip(m: MetadataView)
    requires
        metadata_encodable(m),
    ensures
        decode_metadata(m.kind(), metadata_bytes(m)) == Ok::<MetadataView, DecodeFault>(m),
{
    let b = metadata_bytes(m);
    match m {
        MetadataView::Password { salt, nonce, params } => {
            lemma_le32_round_trip(params.memory_cost);
            lemma_le32_round_trip(params.time_cost);
            lemma_le32_round_trip(params.parallelism);
            assert(b.len() == PASSWORD_METADATA_LEN);
            assert(b.subrange(0, 32) =~= salt);
            assert(b.subrange(32, 44) =~= nonce);
            assert(b.subrange(44, 48) =~= le32(params.memory_cost));
            assert(b.subrange(48, 52) =~= le32(params.time_cost));
            assert(b.subrange(52, 56) =~= le32(params.parallelism));
            lemma_le32_at(b, 44, params.memory_cost);
            lemma_le32_at(b, 48, params.time_cost);
            lemma_le32_at(b, 52, params.parallelism);
        },
        MetadataView::Rsa { encrypted_key, nonce } => {
            let k = encrypted_key.len() as u32;
            lemma_le32_round_trip(k);
            assert(b.subrange(0, 4) =~= le32(k));
            lemma_le32_at(b, 0, k);
            assert(b.subrange(4, 4 + le32_at(b, 0)) =~= encrypted_key);
            assert(b.subrange(4 + le32_at(b, 0), b.len() as int) =~= nonce);
        },
    }
}

/// Codec round trip: decoding the serialization of a well-formed container
/// gives that container back.
pub proof fn lemma_decode_encode(c: ContainerView)
    requires
        c.wf(),
    ensures
        decode(container_bytes(c)) == Ok::<ContainerView, DecodeFault>(c),
{
    let m = metadata_bytes(c.metadata);
    let b = container_bytes(c);
    let mlen = m.len() as u32;
    lemma_le32_round_trip(mlen);
    lemma_metadata_round_trip(c.metadata);
    assert(m.len() <= u32::MAX) by {
        match c.metadata {
            MetadataView::Password { .. } => {},
            MetadataView::Rsa { encrypted_key, .. } => {
                lemma_le32_round_trip(encrypted_key.len() as u32);
            },
        }
    }
    assert(b.subrange(0, 4) =~= spec_magic());
    assert(b[4] == c.version);
    assert(b[5] == c.encryption_type.spec_to_u8());
    assert(b.subrange(6, 10) =~= le32(mlen));
    lemma_le32_at(b, 6, mlen);
    assert(b.subrange(10, 10 + m.len() as int) =~= m);
    assert(b.subrange(10 + m.len() as int, b.len() as int) =~= c.encrypted_data);
}

/// A change to one byte of the ciphertext region of a serialized container
/// leaves the framing valid: the buffer decodes to the same container with
/// that ciphertext byte changed, so the change is left to the AEAD check.
pub proof fn lemma_ciphertext_change_keeps_framing(c: ContainerView, i: int, v: u8)
    requires
        c.wf(),
        0 <= i < c.encrypted_data.len(),
    ensures
        decode(
            container_bytes(c).update(HEADER_LEN + metadata_bytes(c.metadata).len() + i, v),
        ) == Ok::<ContainerView, DecodeFault>(
            ContainerView { encrypted_data: c.encrypted_data.update(i, v), ..c },
        ),
{
    let c2 = ContainerView { encrypted_data: c.encrypted_data.update(i, v), ..c };
    lemma_decode_encode(c2);
    let m = metadata_bytes(c.metadata);
    lemma_le32_round_trip(m.len() as u32);
    let pre = spec_magic() + seq![c.version, c.encryption_type.spec_to_u8()] + le32(m.len() as u32)
        + m;
    assert(pre.len() == HEADER_LEN + m.len());
    assert(container_bytes(c) == pre + c.encrypted_data);
    assert(container_bytes(c2) == pre + c2.encrypted_data);
    assert((pre + c.encrypted_data).update(pre.len() + i, v) =~= pre + c2.encrypted_data);
}

} // verus!
