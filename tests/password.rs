use jcz::crypto::{Argon2Params, CryptoError};
use jcz::password::PasswordEncryption;

#[test]
fn test_validate_password() {
    assert!(PasswordEncryption::validate_password("valid_password").is_ok());
    assert!(PasswordEncryption::validate_password("").is_err());
}

#[test]
fn test_generate_salt() {
    let salt1 = PasswordEncryption::generate_salt().unwrap();
    let salt2 = PasswordEncryption::generate_salt().unwrap();

    // Salts should be different
    assert_ne!(salt1, salt2);
    assert_eq!(salt1.len(), 32);
    assert_eq!(salt2.len(), 32);
}

#[test]
fn password_test_generate_nonce() {
    let nonce1 = PasswordEncryption::generate_nonce().unwrap();
    let nonce2 = PasswordEncryption::generate_nonce().unwrap();

    // Nonces should be different
    assert_ne!(nonce1, nonce2);
    assert_eq!(nonce1.len(), 12);
    assert_eq!(nonce2.len(), 12);
}

#[test]
fn test_encrypt() {
    let data = b"Hello, World!";
    let key = [42u8; 32];
    let nonce = [1u8; 12];

    let encrypted = PasswordEncryption::encrypt(data, &key, &nonce).unwrap();

    // Encrypted data should be longer (includes auth tag)
    assert!(encrypted.len() > data.len());
    // Encrypted data should be different from plaintext
    assert_ne!(&encrypted[..data.len()], data);
}

#[test]
fn test_decrypt() {
    let data = b"Hello, World!";
    let key = [42u8; 32];
    let nonce = [1u8; 12];

    // First encrypt
    let encrypted = PasswordEncryption::encrypt(data, &key, &nonce).unwrap();

    // Then decrypt
    let decrypted = PasswordEncryption::decrypt(&encrypted, &key, &nonce).unwrap();

    // Should match original
    assert_eq!(decrypted, data);
}

#[test]
fn test_decrypt_wrong_key() {
    let data = b"Hello, World!";
    let key1 = [42u8; 32];
    let key2 = [43u8; 32];
    let nonce = [1u8; 12];

    let encrypted = PasswordEncryption::encrypt(data, &key1, &nonce).unwrap();

    // Try to decrypt with wrong key
    let result = PasswordEncryption::decrypt(&encrypted, &key2, &nonce);
    assert!(result.is_err());
    if let Err(CryptoError::AuthenticationFailed) = result {
        // Expected
    } else {
        panic!("Expected AuthenticationFailed error");
    }
}

#[test]
fn test_decrypt_wrong_nonce() {
    let data = b"Hello, World!";
    let key = [42u8; 32];
    let nonce1 = [1u8; 12];
    let nonce2 = [2u8; 12];

    let encrypted = PasswordEncryption::encrypt(data, &key, &nonce1).unwrap();

    // Try to decrypt with wrong nonce
    let result = PasswordEncryption::decrypt(&encrypted, &key, &nonce2);
    assert!(result.is_err());
    if let Err(CryptoError::AuthenticationFailed) = result {
        // Expected
    } else {
        panic!("Expected AuthenticationFailed error");
    }
}

#[test]
fn test_decrypt_corrupted_data() {
    let data = b"Hello, World!";
    let key = [42u8; 32];
    let nonce = [1u8; 12];

    let mut encrypted = PasswordEncryption::encrypt(data, &key, &nonce).unwrap();

    // Corrupt the data
    encrypted[0] ^= 0xFF;

    // Try to decrypt corrupted data
    let result = PasswordEncryption::decrypt(&encrypted, &key, &nonce);
    assert!(result.is_err());
    if let Err(CryptoError::AuthenticationFailed) = result {
        // Expected
    } else {
        panic!("Expected AuthenticationFailed error");
    }
}

#[test]
fn test_derive_key_deterministic() {
    let password = "test_password";
    let salt = [42u8; 32];
    let params = Argon2Params::default();

    let key1 = PasswordEncryption::derive_key(password, &salt, &params).unwrap();
    let key2 = PasswordEncryption::derive_key(password, &salt, &params).unwrap();

    // Same password and salt should produce same key
    assert_eq!(key1, key2);
    assert_eq!(key1.len(), 32);
}

#[test]
fn test_derive_key_different_passwords() {
    let salt = [42u8; 32];
    let params = Argon2Params::default();

    let key1 = PasswordEncryption::derive_key("password1", &salt, &params).unwrap();
    let key2 = PasswordEncryption::derive_key("password2", &salt, &params).unwrap();

    // Different passwords should produce different keys
    assert_ne!(key1, key2);
}

#[test]
fn test_derive_key_different_salts() {
    let password = "test_password";
    let salt1 = [42u8; 32];
    let salt2 = [43u8; 32];
    let params = Argon2Params::default();

    let key1 = PasswordEncryption::derive_key(password, &salt1, &params).unwrap();
    let key2 = PasswordEncryption::derive_key(password, &salt2, &params).unwrap();

    // Different salts should produce different keys
    assert_ne!(key1, key2);
}

#[test]
fn test_derive_key_empty_password() {
    let salt = [42u8; 32];
    let params = Argon2Params::default();

    let result = PasswordEncryption::derive_key("", &salt, &params);
    assert!(result.is_err());
    if let Err(CryptoError::InvalidPassword) = result {
        // Expected
    } else {
        panic!("Expected InvalidPassword error");
    }
}

#[test]
fn derive_key_rejects_parameters_argon2_refuses() {
    let salt = [1u8; 32];
    let cases = [
        Argon2Params { memory_cost: 7, time_cost: 1, parallelism: 1 },
        Argon2Params { memory_cost: 64, time_cost: 0, parallelism: 1 },
        Argon2Params { memory_cost: 64, time_cost: 1, parallelism: 0 },
        Argon2Params { memory_cost: 64, time_cost: 1, parallelism: 9 },
        Argon2Params { memory_cost: u32::MAX, time_cost: 1, parallelism: 0x100_0000 },
        Argon2Params { memory_cost: u32::MAX, time_cost: 1, parallelism: u32::MAX },
    ];
    for params in cases {
        match PasswordEncryption::derive_key("pw", &salt, &params) {
            Err(CryptoError::KeyDerivationFailed(_)) => {}
            other => panic!("expected KeyDerivationFailed, got {:?}", other),
        }
    }
}

#[test]
fn derive_key_light_parameters_are_accepted_and_matter() {
    let salt = [1u8; 32];
    let light = Argon2Params { memory_cost: 64, time_cost: 1, parallelism: 8 };
    let other = Argon2Params { memory_cost: 128, time_cost: 1, parallelism: 8 };
    let k1 = PasswordEncryption::derive_key("pw", &salt, &light).unwrap();
    let k2 = PasswordEncryption::derive_key("pw", &salt, &other).unwrap();
    assert_ne!(k1, k2);
    assert_ne!(k1, [0u8; 32]);
}

#[test]
fn default_argon2_params() {
    let params = Argon2Params::default();
    assert_eq!(params.memory_cost, 65536);
    assert_eq!(params.time_cost, 3);
    assert_eq!(params.parallelism, 4);
}
