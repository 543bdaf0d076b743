use rand::RngCore;
use securelock::SecureLockError;
use securelock::crypto::{
    create_verify_token, decrypt, derive_key, encrypt, generate_salt, unwrap_key, verify_password,
    wrap_key, zeroize_key,
};

fn random_key() -> [u8; 32] {
    let mut k = [0u8; 32];
    rand::rngs::OsRng.fill_bytes(&mut k);
    k
}

#[test]
fn encrypt_decrypt_round_trip() {
    let key = random_key();
    let plaintext = b"some file contents";
    let blob = encrypt(&key, plaintext).unwrap();
    assert_eq!(blob.len(), plaintext.len() + 28);
    let back = decrypt(&key, &blob).unwrap();
    assert_eq!(back, plaintext.to_vec());
}

#[test]
fn encrypt_is_randomized() {
    let key = random_key();
    let a = encrypt(&key, b"same input").unwrap();
    let b = encrypt(&key, b"same input").unwrap();
    assert_ne!(a, b);
}

#[test]
fn decrypt_rejects_short_input() {
    let key = random_key();
    assert_eq!(decrypt(&key, b"elevenbytes"), Err(SecureLockError::TooShort));
    assert_eq!(decrypt(&key, b""), Err(SecureLockError::TooShort));
}

#[test]
fn decrypt_rejects_wrong_key() {
    let key = random_key();
    let other = random_key();
    let blob = encrypt(&key, b"secret").unwrap();
    assert_eq!(decrypt(&other, &blob), Err(SecureLockError::AuthenticationFailed));
}

#[test]
fn tampering_any_byte_fails_authentication() {
    let key = random_key();
    let blob = encrypt(&key, b"hello").unwrap();
    for i in 0..blob.len() {
        let mut tampered = blob.clone();
        tampered[i] ^= 0x01;
        assert_eq!(
            decrypt(&key, &tampered),
            Err(SecureLockError::AuthenticationFailed),
            "flipping byte {} went unnoticed",
            i
        );
    }
}

#[test]
fn verify_token_accepts_its_key_and_rejects_others() {
    for _ in 0..1000 {
        let key = random_key();
        let token = create_verify_token(&key).unwrap();
        assert!(verify_password(&key, &token));
        let other = random_key();
        assert!(!verify_password(&other, &token));
    }
}

#[test]
fn wrap_unwrap_round_trip() {
    let master = random_key();
    let folder_key = random_key();
    let wrapped = wrap_key(&master, &folder_key).unwrap();
    assert_eq!(wrapped.len(), 60);
    let unwrapped = unwrap_key(&master, &wrapped).unwrap();
    assert_eq!(unwrapped, folder_key);
}

#[test]
fn unwrap_with_wrong_master_fails() {
    let master = random_key();
    let folder_key = random_key();
    let wrapped = wrap_key(&master, &folder_key).unwrap();
    let other = random_key();
    assert_eq!(unwrap_key(&other, &wrapped), Err(SecureLockError::AuthenticationFailed));
}

#[test]
fn unwrap_rejects_wrong_length_payload() {
    let master = random_key();
    let blob = encrypt(&master, b"ten bytes!").unwrap();
    assert_eq!(unwrap_key(&master, &blob), Err(SecureLockError::InvalidWrappedKey));
    assert_eq!(unwrap_key(&master, b"short"), Err(SecureLockError::TooShort));
}

#[test]
fn zeroize_key_clears_every_byte() {
    let mut key = random_key();
    zeroize_key(&mut key);
    assert_eq!(key, [0u8; 32]);
}

#[test]
fn generate_salt_gives_distinct_values() {
    let a = generate_salt();
    let b = generate_salt();
    assert_ne!(a, b);
}

#[test]
fn derive_key_is_deterministic_and_salt_sensitive() {
    let salt = generate_salt();
    let k1 = derive_key("pw123", &salt).unwrap();
    let k2 = derive_key("pw123", &salt).unwrap();
    assert_eq!(k1, k2);
}

#[test]
fn derive_key_rejects_short_salt() {
    assert_eq!(derive_key("pw123", &[1u8; 4]), Err(SecureLockError::DerivationError));
}
