use jcz::container::EncryptedContainer;
use jcz::crypto::{CryptoError, EncryptionMetadata, EncryptionType};
use jcz::envelope::{
    decrypt_with_private_key, decrypt_with_symmetric_key, encrypt_with_public_key,
    requires_password, seal_with_wrapped_key,
};
use jcz::keywrap::{parse_private_key_pem, parse_public_key_pem, validate_key_size, RsaEncryption};
use rsa::pkcs8::{EncodePrivateKey, EncodePublicKey, LineEnding};
use rsa::traits::PublicKeyParts;
use rsa::{BigUint, RsaPrivateKey, RsaPublicKey};

// Fixed test key pairs as (modulus, private exponent, prime, prime) in hex;
// the public exponent is 65537.
const KEY_A: [&str; 4] = [
    "aad8a9a9c6ee0bede620195a94b98dde3f03556db9805e85639c0cea9e8e67bb2738e748f8ac7fd5478b093dbe070bf25e5e653b35acfd10bee297fa9e3e83fb0d530a7ca912da7dcc98479e5cc7a58ec78cfd928e5161f2c9f1f71fc0fc3fcbcad768fcf6c3ed620c9ce4d2627fffc3cef113c2d000f869555e31f376fadaef070f06bb34205d3dd90aa96761e18e14668e7fd5a9eb054885bffb080b1d87e84c7863a54b7b58c6625d313000e465f7babd925212bc513ad50d324376e6f0bf6c9728b3fdf7e810d253062a239be7a192e64f189c0cfaf9b907e8b89b38a44be83befd069de7e2285917df7f0ff9aad1b52524fbdf0779094d81cfbb79d9daf",
    "2d42acdfef758cef7f71ad85d3b4bca2ce2ac1ed09a1ba68b814d54f2aa62b50e77929bca93479c134ecde8bded5db126071bd7bcc22820077b16bf5d70a54c8a3a50638344a6c5bbb61f4473de91e310f2888dcd49b36c9ad3a4eefb89e9b001042b4eb9f2c14ad4f0e1988aad3a21c6bac6e41c3fd1dd239ed746a3d7103a2b47205312e2fc61340c2cb853ce86e8479a1097fd7dae60682136f074dfe53154a48be3a18b5c60adc5ed10a5841cb4e7afdf08923e7595b03b09b02a23131c7407da56132084ac05e463ec766c2ed5b6c04d5a7021561bf5025839e495c21f31281baccd36126dd7eae82529a5225ea241042793fbce9f0a14783898afd0551",
    "d67bac9308f454efd1f56ed1a0d5f1b771c02e432351233ce4555942305e873b9d4a75010c0ddfd2651b0adfeed86fdf5e5452e4ed3aa38d257a856e209da8c936c6adca4bdf2ff33d3c7d5869bc9c430bca9a2f6d21d5cda247cc793c35b9dd3babd9c10d89b2d673ce0aee42500584810d7fb775d927e46d83779f79eb11d5",
    "cbeaa5a1ffed116e74393b4ad080b90b0fada09f09f77c2ad441f3091afae8e95a9a3d839e4c41885888a38245b5eab5456eb5d74d8bdd0109ab681aa64b5887441a87d8b055b13c16cddb37f93da15398a69ba3f990e137bd2607b9c4b714155f6061cf9262db6b20f35af53500160637cbfed62d66867896721816d084af73",
];
const KEY_B: [&str; 4] = [
    "b6db7e49b7d6ebe038b27e91c29c41c013574da523d9afbe14215e790798fda332c58436aaf587d84c308d66a57ca36259462530fc0f3b8a001131852867e5b5015668f4d956a18d3684cb1982997c1780535eb69e3217458a0d9006ef751f8e110816dcd730318bfbafe5c7343e09d01f31901bdfc32ffb2268037ce007f7fd66a281fdfb58035f307c5b51b3ca9975e22e41fc98798dd6a6a29e7fe961fd92af9946fbc4a8d1ca7d0e6d3e839073db684c8edd37c2fd7e88d8ee434a528a694811d6166fb57aa6f501627e55180858aac74142e2093a9bdbdbc59c57669a05700d934ba2dc8b6f7b00e8ba3408b3c96448273ead7948b4296b912c2d18ef13",
    "9da770a2ae5626d8130a120629fbfed453d899a11fdfb79df24d32deb6a6394853a5e7f01a45c6f1bdfebe6b1992f46afefd7363606ee1ae81905159b5149f00083f300eaab3fe6579f3d4081289b26bb0c03090d2a3ed5c8f42524328819acb29f407823025e51203d60c0e4c0491015763ac13dc40b54598cc84f54d529183fa5f1d53107d2b7c8344c7e1070e9c6dc7df1c63e9dcbbd969eade1337dc7ad9b2fb10e556a3ea7e70bd113d3eefe27da4e92a2f16a95dbb74217400209b731f510c4f8a63a9638b8d623ffb59bb9eeab57d7cc1eecdba687c18ab7e6d1aa787043d85f1946682ee5274eed446127c63c19abbdb476dfd4a1136de4f22824d9",
    "ebaa569e51f879f0fd3541610321a12fb58a6dd689c26d0758d263f0f47b69ed9f2527a9fd8d6897788ac6efef0af9ae9c584375f214a16b1e4b9e63614eb0ee3902db15c9a63831e4f718324d596e5d572184aee482159a59e448debeeb59071bb7b6d2dda24e425f892d872c2aba0e974dc7d92535f2de6854a26a2cf3e809",
    "c6a2ab178b24c3ec31bfe473c1f35d8f42f1e1b0cfe641dfb26925b9e15daa8f5cfb5f37cac31cc89f8e302315c8ec5287dadac08a53d5dfcb69ca85751f7395357f8e3344cbeb68fd2151602cc16cf905f91728536e3d14b02c969fb0cc0f4b304036824ad3b44ad7182eda352de293b38124d5557a4c44176be4c35fca0d3b",
];
const KEY_WEAK: [&str; 4] = [
    "d41981b6986e5d4eb38320ada8855b3b544d4e6b93b42a56e2a2ae917f55917e5dbb000eec033a52e9abf1bec4eb59c2a02ce8fd0ea4d530948469b0d719a7f3fa1fd422b4c2dc8be088852893fb63d571482eb7b819688414f2d40dbddeda79e31b980e0491221469080b039dc6c938f08a94dd7e13d6cd18b1b42b728e66bd",
    "6164ed0979e983f335bf4aec336c393e7f31988711a633a2fe2311e242047af0f9fd7ac35f6104113ab7f8244fac7ae542441d20c6eeadeec6e41edc5389b6731e29e1fe87452edb948674aab020ba9f314beaa5995349f9d3c32a254e7daea4a698ad99891a3c23c92f92414437de7c5515e98354ca576f066adf94065555c1",
    "ece8a9e8ae232a5c2d56b733e3710a57ce2a5e4b7d1e39c7541dc373cf59edfe23d25868b0a0c07b7a03d90000c2718a4f96eda7c14442e288947b3fe9390775",
    "e53109ee8b3a77291647b0c902729c0c35b60cd7617990510287892768cd86f1e09efa2daf19384137f0ec8a9c3de02db8ded73a612e0001ec6df36555f9c129",
];

const KEY_2041: [&str; 4] = [
    "1798b6532ba9e17f2fa81be7cbdd69e3d2d304f08782fc0e1c83f40a41774dabd6692279b2930fef33f38254804db0426d16a91444b85c8f1119335277d3fa5389cb84bfdeb68c8a045f12a49093291ec7b414e3b1d6eb4d9d690dfaf3d921fc2709c8564fd320b2c744b24ee69b587e6026862cd3bc32e4a2380dc44c9ee861a5b0c2a33eee3b611b09ca3b8a5dbf7e71b26f24dcf9ac305b4e0438a561708bdca267bb855d195511a8c09047aaf076b701f923a5cd13758c0bb04021143bb80a41252656201f9c5cc964b4a29c5c0ed233db0375da39c0222d0313898e2c60f62e6f1534fa8e4722780339c5c37b573ae055ef32e8226570740550033a967",
    "6a0405a7c8158abe153007b07992619ee6289198dc3ef497b22668dd6b24ca23b340c9545dadbf79c8bfd8602fd4dc8695f9a9cf16b1fbaa0df85b4dba72fbcf38dadba3f2cddac07ec368cf5780d6cf24114389800b4d477a63f61bfc5b2305f39f5029fa9b69ddd2ce2311bba75900f29e23586436bbb1dfe458760c8a291c667237f2fd7fa2477122f7c50044a24e9613b417d778f1f89e004473e67d56e8c17cd46c74ac2951335f5883e349f922eab9ea378e151b14355420d876a3ccbc213028081bd9433491368782558c8c2bc115cccf72c5c0d19048f268c8af32861e2152674e16245d362c99c5c6350019c6819ded456ba553837261645033a9",
    "1c141bb58990ce7e5a2dc271da760df0e91c8027c1f81a791d6122181e41495fc5a429918275e3b44516da0e08388fde16532c347762abf4e95cbb6d40e656dc2ecca99834a10def94177f63dd55165124447043bbf568a624fa8df0171abb2370165361b3cf698b12837c422a176d8eb239eba1731724622652f484344952b3",
    "d722de4e50d041fd84b05ce6f22f1415bd4dc0a0e266b7ff4fc7efe95deba9533671c2c73183ecfe760b5805bd06abf272e7e9609c040ed01329c47060f9d6186895a0c62b1f03a3e8e1c31a7a89e1b941a6a934308572d597d865687835b933f18d60c0f64761f9c737bbac594a400f695907d9167c58ee556bf670984987d",
];

fn big(hex: &str) -> BigUint {
    BigUint::parse_bytes(hex.as_bytes(), 16).unwrap()
}

fn key_pair(parts: [&str; 4]) -> (RsaPrivateKey, RsaPublicKey) {
    let private_key = RsaPrivateKey::from_components(
        big(parts[0]),
        BigUint::from(65537u32),
        big(parts[1]),
        vec![big(parts[2]), big(parts[3])],
    )
    .unwrap();
    let public_key = RsaPublicKey::from(&private_key);
    (private_key, public_key)
}

/// PEM texts (PKCS#8 private, SubjectPublicKeyInfo public) of a key pair.
fn pem_pair(parts: [&str; 4]) -> (String, String) {
    let (private_key, public_key) = key_pair(parts);
    let private_pem = private_key.to_pkcs8_pem(LineEnding::LF).unwrap().to_string();
    let public_pem = public_key.to_public_key_pem(LineEnding::LF).unwrap();
    (private_pem, public_pem)
}

#[test]
fn test_validate_key_size() {
    assert!(validate_key_size(2048).is_ok());
    assert!(validate_key_size(4096).is_ok());
    assert!(validate_key_size(1024).is_err());

    if let Err(CryptoError::KeySizeTooSmall { actual, minimum }) = validate_key_size(1024) {
        assert_eq!(actual, 1024);
        assert_eq!(minimum, 2048);
    } else {
        panic!("Expected KeySizeTooSmall error");
    }
}

#[test]
fn test_read_private_key_pem() {
    let (private_key, _) = key_pair(KEY_A);
    let pem_data = private_key.to_pkcs8_pem(LineEnding::LF).unwrap().to_string();

    let loaded_key = parse_private_key_pem(&pem_data).unwrap();

    assert_eq!(loaded_key.size(), private_key.size());
}

#[test]
fn test_read_public_key_pem() {
    let (_, public_key) = key_pair(KEY_A);
    let pem_data = public_key.to_public_key_pem(LineEnding::LF).unwrap();

    let loaded_key = parse_public_key_pem(&pem_data).unwrap();

    assert_eq!(loaded_key.size(), public_key.size());
}

#[test]
fn test_read_invalid_pem() {
    let result = parse_private_key_pem("not a valid PEM file");
    assert!(result.is_err());
    if let Err(CryptoError::InvalidPemFormat(_)) = result {
        // Expected
    } else {
        panic!("Expected InvalidPemFormat error");
    }
}

#[test]
fn weak_keys_are_rejected_at_load_time() {
    let (private_pem, public_pem) = pem_pair(KEY_WEAK);
    match parse_public_key_pem(&public_pem) {
        Err(CryptoError::KeySizeTooSmall { actual, minimum }) => {
            assert_eq!(actual, 1024);
            assert_eq!(minimum, 2048);
        }
        _ => panic!("Expected KeySizeTooSmall error"),
    }
    assert!(matches!(
        parse_private_key_pem(&private_pem),
        Err(CryptoError::KeySizeTooSmall { actual: 1024, minimum: 2048 })
    ));
    assert!(matches!(
        parse_public_key_pem("-----BEGIN PUBLIC KEY-----\nAAAA\n-----END PUBLIC KEY-----\n"),
        Err(CryptoError::InvalidPemFormat(_))
    ));
}

#[test]
fn test_generate_symmetric_key() {
    let key1 = RsaEncryption::generate_symmetric_key().unwrap();
    let key2 = RsaEncryption::generate_symmetric_key().unwrap();

    // Keys should be different
    assert_ne!(key1, key2);
    assert_eq!(key1.len(), 32);
    assert_eq!(key2.len(), 32);
}

#[test]
fn rsa_test_generate_nonce() {
    let nonce1 = RsaEncryption::generate_nonce().unwrap();
    let nonce2 = RsaEncryption::generate_nonce().unwrap();

    // Nonces should be different
    assert_ne!(nonce1, nonce2);
    assert_eq!(nonce1.len(), 12);
    assert_eq!(nonce2.len(), 12);
}

#[test]
fn test_rsa_symmetric_key_round_trip() {
    let (private_pem, public_pem) = pem_pair(KEY_A);
    let public_key = parse_public_key_pem(&public_pem).unwrap();
    let private_key = parse_private_key_pem(&private_pem).unwrap();
    let symmetric_key = RsaEncryption::generate_symmetric_key().unwrap();

    // Encrypt with public key
    let encrypted = RsaEncryption::encrypt_symmetric_key(&symmetric_key, &public_key).unwrap();

    // Decrypt with private key
    let decrypted = RsaEncryption::decrypt_symmetric_key(&encrypted, &private_key).unwrap();

    // Should match original
    assert_eq!(decrypted, symmetric_key);
}

#[test]
fn test_encrypt_decrypt_data() {
    let data = b"Hello, RSA World!";
    let key = RsaEncryption::generate_symmetric_key().unwrap();
    let nonce = RsaEncryption::generate_nonce().unwrap();

    // Encrypt
    let encrypted = RsaEncryption::encrypt_data(data, &key, &nonce).unwrap();

    // Decrypt
    let decrypted = RsaEncryption::decrypt_data(&encrypted, &key, &nonce).unwrap();

    // Should match original
    assert_eq!(decrypted, data);
}

#[test]
fn test_full_rsa_encryption_flow() {
    let (private_pem, public_pem) = pem_pair(KEY_A);
    let public_key = parse_public_key_pem(&public_pem).unwrap();
    let private_key = parse_private_key_pem(&private_pem).unwrap();
    let data = b"Secret message for RSA encryption test";

    // Generate symmetric key and nonce
    let symmetric_key = RsaEncryption::generate_symmetric_key().unwrap();
    let nonce = RsaEncryption::generate_nonce().unwrap();

    // Encrypt data with symmetric key
    let encrypted_data = RsaEncryption::encrypt_data(data, &symmetric_key, &nonce).unwrap();

    // Encrypt symmetric key with RSA public key
    let encrypted_key =
        RsaEncryption::encrypt_symmetric_key(&symmetric_key, &public_key).unwrap();

    // --- Decryption flow ---

    // Decrypt symmetric key with RSA private key
    let recovered_key =
        RsaEncryption::decrypt_symmetric_key(&encrypted_key, &private_key).unwrap();

    // Decrypt data with recovered symmetric key
    let decrypted_data =
        RsaEncryption::decrypt_data(&encrypted_data, &recovered_key, &nonce).unwrap();

    // Should match original
    assert_eq!(decrypted_data, data);
}

#[test]
fn unwrapping_with_another_private_key_fails() {
    let (_, public_pem) = pem_pair(KEY_A);
    let (other_private_pem, _) = pem_pair(KEY_B);
    let public_key = parse_public_key_pem(&public_pem).unwrap();
    let other_private = parse_private_key_pem(&other_private_pem).unwrap();
    let wrapped = RsaEncryption::encrypt_symmetric_key(&[3u8; 32], &public_key).unwrap();
    assert_eq!(wrapped.len(), 256);
    assert!(matches!(
        RsaEncryption::decrypt_symmetric_key(&wrapped, &other_private),
        Err(CryptoError::RsaError(_))
    ));
}

#[test]
fn unwrapped_key_must_have_32_bytes() {
    assert_eq!(RsaEncryption::symmetric_key_from_unwrapped(&[9u8; 32]).unwrap(), [9u8; 32]);
    assert!(matches!(
        RsaEncryption::symmetric_key_from_unwrapped(&[9u8; 31]),
        Err(CryptoError::DecryptionFailed(_))
    ));
    assert!(matches!(
        RsaEncryption::symmetric_key_from_unwrapped(&[9u8; 33]),
        Err(CryptoError::DecryptionFailed(_))
    ));
    let (private_pem, public_pem) = pem_pair(KEY_A);
    let public_key = parse_public_key_pem(&public_pem).unwrap();
    let private_key = parse_private_key_pem(&private_pem).unwrap();
    let wrapped16 = RsaEncryption::encrypt_symmetric_key(&[1u8; 32], &public_key).unwrap();
    assert!(RsaEncryption::decrypt_symmetric_key(&wrapped16, &private_key).is_ok());
}

#[test]
fn rsa_envelope_round_trip() {
    let (private_pem, public_pem) = pem_pair(KEY_A);
    let public_key = parse_public_key_pem(&public_pem).unwrap();
    let private_key = parse_private_key_pem(&private_pem).unwrap();
    for payload in [Vec::new(), b"payload".to_vec(), vec![0xEEu8; 5000]] {
        let bytes = encrypt_with_public_key(&payload, &public_key).unwrap();
        assert!(!requires_password(&bytes));
        assert_eq!(bytes[5], 0x02);
        assert_eq!(decrypt_with_private_key(&bytes, &private_key).unwrap(), payload);
    }
}

#[test]
fn rsa_envelope_wrong_key_pair_fails() {
    let (_, public_pem) = pem_pair(KEY_A);
    let (other_private_pem, _) = pem_pair(KEY_B);
    let public_key = parse_public_key_pem(&public_pem).unwrap();
    let other_private = parse_private_key_pem(&other_private_pem).unwrap();
    let bytes = encrypt_with_public_key(b"for A only", &public_key).unwrap();
    assert!(matches!(
        decrypt_with_private_key(&bytes, &other_private),
        Err(CryptoError::AuthenticationFailed)
    ));
}

#[test]
fn rsa_metadata_holds_wrapped_key_not_symmetric_key() {
    let (private_pem, public_pem) = pem_pair(KEY_A);
    let public_key = parse_public_key_pem(&public_pem).unwrap();
    let private_key = parse_private_key_pem(&private_pem).unwrap();
    let key = [0x5Au8; 32];
    let nonce = [0x11u8; 12];
    let wrapped = RsaEncryption::encrypt_symmetric_key(&key, &public_key).unwrap();
    let container = seal_with_wrapped_key(b"data", &key, &nonce, wrapped.clone()).unwrap();
    assert_eq!(container.get_encryption_type(), EncryptionType::Rsa);
    let bytes = container.to_bytes().unwrap();
    let metadata = &bytes[10..10 + 4 + wrapped.len() + 12];
    assert_eq!(&metadata[4..4 + wrapped.len()], wrapped.as_slice());
    assert!(!metadata.windows(32).any(|w| w == key));
    assert_eq!(decrypt_with_symmetric_key(&bytes, &key).unwrap(), b"data");
    let parsed = EncryptedContainer::from_bytes(&bytes).unwrap();
    if let EncryptionMetadata::Rsa { encrypted_key, .. } = parsed.metadata {
        let unwrapped = RsaEncryption::decrypt_symmetric_key(&encrypted_key, &private_key).unwrap();
        assert_eq!(unwrapped, key);
    } else {
        panic!("Expected RSA metadata");
    }
}

#[test]
fn modulus_is_counted_in_bits() {
    let (private_pem, public_pem) = pem_pair(KEY_2041);
    assert!(matches!(
        parse_public_key_pem(&public_pem),
        Err(CryptoError::KeySizeTooSmall { actual: 2041, minimum: 2048 })
    ));
    assert!(matches!(
        parse_private_key_pem(&private_pem),
        Err(CryptoError::KeySizeTooSmall { actual: 2041, minimum: 2048 })
    ));
}

#[test]
fn rsa_wrapped_key_is_modulus_sized() {
    let (_, public_pem) = pem_pair(KEY_A);
    let public_key = parse_public_key_pem(&public_pem).unwrap();
    let bytes = encrypt_with_public_key(b"x", &public_key).unwrap();
    let container = EncryptedContainer::from_bytes(&bytes).unwrap();
    match container.metadata {
        EncryptionMetadata::Rsa { encrypted_key, .. } => assert_eq!(encrypted_key.len(), 256),
        _ => panic!("Expected RSA metadata"),
    }
}
