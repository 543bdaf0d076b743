//! Cryptographic primitives: salt generation, password-based key
//! derivation, authenticated encryption, verification tokens, key
//! wrapping and zeroization.
//!
//! The outside calls (Argon2id, AES-256-GCM, the OS random source) stand
//! behind trusted items; everything around them is verified.

use vstd::prelude::*;
use vstd::string::*;

use crate::SecureLockError;

use aes_gcm::aead::{Aead, KeyInit};
use aes_gcm::{Aes256Gcm, Nonce};
use argon2::{Algorithm, Argon2, Params, Version};
use rand::RngCore;
use zeroize::Zeroize;

verus! {

/// What Argon2id returns for a password and a salt: a function of the two
/// alone, the same in every process and on every machine.
pub uninterp spec fn derived_key(password: Seq<u8>, salt: Seq<u8>) -> Seq<u8>;

/// What AES-256-GCM decryption returns for a key and a blob of the form
/// nonce plus ciphertext: `Some` of the plaintext when the tag checks out,
/// `None` otherwise. A function of key and blob alone.
pub uninterp spec fn aead_open(key: Seq<u8>, blob: Seq<u8>) -> Option<Seq<u8>>;

/// AES-GCM refuses plaintexts longer than 2^36 bytes.
pub open spec fn max_plaintext_len() -> int {
    0x10_0000_0000
}

/// The fixed plaintext that every verification token encrypts.
pub open spec fn verify_token_plain() -> Seq<u8> {
    "SECURELOCK_VERIFY_TOKEN_V1".spec_bytes()
}

/// Whether `token` proves possession of `key`: it decrypts under `key`
/// to exactly the fixed token plaintext.
pub open spec fn token_matches(key: Seq<u8>, token: Seq<u8>) -> bool {
    &&& token.len() >= 12
    &&& aead_open(key, token) == Some(verify_token_plain())
}

/// Relies on rand's `OsRng::fill_bytes`: fills the array from the
/// operating system's secure random source. Nothing can be promised of
/// the value itself.
#[verifier::external_body]
pub fn generate_salt() -> [u8; 32] {
    let mut salt = [0u8; 32];
    rand::rngs::OsRng.fill_bytes(&mut salt);
    salt
}

/// Relies on argon2's `Argon2::hash_password_into` with the Argon2id
/// algorithm (memory cost 65536, time cost 3, parallelism 1, 32-byte
/// output): deterministic for a fixed password and salt, and it returns
/// an error exactly when the salt length is outside 8..=2^32-1 or the
/// password is longer than 2^32-1 bytes.
#[verifier::external_body]
pub fn derive_key(password: &str, salt: &[u8]) -> (r: Result<[u8; 32], SecureLockError>)
    ensures
        r is Ok <==> (8 <= salt@.len() <= 0xFFFF_FFFF && password.spec_bytes().len()
            <= 0xFFFF_FFFF),
        r matches Ok(k) ==> k@ == derived_key(password.spec_bytes(), salt@),
        r matches Err(e) ==> e == SecureLockError::DerivationError,
{
    let params = Params::new(65536, 3, 1, Some(32))
        .map_err(|_| SecureLockError::DerivationError)?;
    let argon2 = Argon2::new(Algorithm::Argon2id, Version::V0x13, params);
    let mut key = [0u8; 32];
    argon2
        .hash_password_into(password.as_bytes(), salt, &mut key)
        .map_err(|_| SecureLockError::DerivationError)?;
    Ok(key)
}

/// Relies on aes-gcm's `Aead::encrypt` for `Aes256Gcm`: a fresh random
/// 12-byte nonce is prepended, the ciphertext ends in a 16-byte tag, and
/// decrypting the whole blob with the same key gives back the plaintext.
/// Encryption fails exactly when the plaintext is longer than 2^36 bytes.
#[verifier::external_body]
pub fn encrypt(key: &[u8; 32], plaintext: &[u8]) -> (r: Result<Vec<u8>, SecureLockError>)
    ensures
        r is Ok <==> plaintext@.len() <= max_plaintext_len(),
        r matches Ok(c) ==> aead_open(key@, c@) == Some(plaintext@) && c@.len() == plaintext@.len()
            + 28,
        r matches Err(e) ==> e == SecureLockError::EncryptionFailed,
{
    let cipher = Aes256Gcm::new(key.into());
    let mut nonce_bytes = [0u8; 12];
    rand::rngs::OsRng.fill_bytes(&mut nonce_bytes);
    let nonce = Nonce::from_slice(&nonce_bytes);
    let ciphertext = match cipher.encrypt(nonce, plaintext) {
        Ok(c) => c,
        Err(_) => return Err(SecureLockError::EncryptionFailed),
    };
    let mut result = Vec::with_capacity(12 + ciphertext.len());
    result.extend_from_slice(&nonce_bytes);
    result.extend_from_slice(&ciphertext);
    Ok(result)
}

/// Relies on aes-gcm's `Aead::decrypt` for `Aes256Gcm`: splits off the
/// 12-byte nonce and decrypts the rest, succeeding exactly when the
/// authentication tag checks out.
#[verifier::external_body]
fn aes_gcm_open(key: &[u8; 32], data: &[u8]) -> (r: Option<Vec<u8>>)
    requires
        data@.len() >= 12,
    ensures
        r is Some <==> aead_open(key@, data@) is Some,
        r matches Some(p) ==> aead_open(key@, data@) == Some(p@),
{
    let (nonce_bytes, ciphertext) = data.split_at(12);
    let cipher = Aes256Gcm::new(key.into());
    cipher.decrypt(Nonce::from_slice(nonce_bytes), ciphertext).ok()
}

/// Relies on zeroize's `Zeroize` for `[u8; 32]`: overwrites every byte
/// with zero through writes the compiler will not elide.
#[verifier::external_body]
pub fn zeroize_key(key: &mut [u8; 32])
    ensures
        forall|i: int| 0 <= i < 32 ==> final(key)@[i] == 0u8,
{
    key.zeroize();
}

/// Decrypts a blob of the form nonce plus ciphertext. Fails with
/// `TooShort` when the blob cannot even hold a nonce, and with
/// `AuthenticationFailed` when the key is wrong or any byte was altered;
/// the two causes of the latter are indistinguishable by design.
pub fn decrypt(key: &[u8; 32], data: &[u8]) -> (r: Result<Vec<u8>, SecureLockError>)
    ensures
        r is Ok <==> (data@.len() >= 12 && aead_open(key@, data@) is Some),
        r matches Ok(p) ==> aead_open(key@, data@) == Some(p@),
        data@.len() < 12 ==> r == Err::<Vec<u8>, SecureLockError>(SecureLockError::TooShort),
        data@.len() >= 12 && aead_open(key@, data@) is None ==> r == Err::<
            Vec<u8>,
            SecureLockError,
        >(SecureLockError::AuthenticationFailed),
{
    if data.len() < 12 {
        return Err(SecureLockError::TooShort);
    }
    match aes_gcm_open(key, data) {
        Some(p) => Ok(p),
        None => Err(SecureLockError::AuthenticationFailed),
    }
}

/// Compares two byte slices for equality of contents.
pub fn bytes_eq(a: &[u8], b: &[u8]) -> (r: bool)
    ensures
        r == (a@ == b@),
{
    if a.len() != b.len() {
        assert(a@ !~= b@);
        return false;
    }
    let mut i: usize = 0;
    while i < a.len()
        invariant
            i <= a@.len(),
            a@.len() == b@.len(),
            forall|j: int| 0 <= j < i ==> a@[j] == b@[j],
        decreases a@.len() - i,
    {
        if a[i] != b[i] {
            assert(a@ !~= b@);
            return false;
        }
        i += 1;
    }
    proof {
        assert(a@ =~= b@);
    }
    true
}

/// The fixed token plaintext as bytes.
fn verify_token_bytes() -> (v: Vec<u8>)
    ensures
        v@ == verify_token_plain(),
        v@.len() <= max_plaintext_len(),
{
    let s = "SECURELOCK_VERIFY_TOKEN_V1";
    proof {
        reveal_strlit("SECURELOCK_VERIFY_TOKEN_V1");
        assert(is_ascii(s));
        is_ascii_spec_bytes(s);
        assert(s.spec_bytes().len() == 26);
    }
    s.as_bytes_vec()
}

/// Encrypts the fixed token plaintext under `key`. The result is the
/// only stored oracle for "is this key correct"; neither the key nor a
/// password ever is.
pub fn create_verify_token(key: &[u8; 32]) -> (r: Result<Vec<u8>, SecureLockError>)
    ensures
        r is Ok,
        r matches Ok(t) ==> token_matches(key@, t@),
{
    let plain = verify_token_bytes();
    match encrypt(key, plain.as_slice()) {
        Ok(t) => Ok(t),
        Err(e) => Err(e),
    }
}

/// True exactly when `encrypted_token` decrypts under `key` to the fixed
/// token plaintext.
pub fn verify_password(key: &[u8; 32], encrypted_token: &[u8]) -> (r: bool)
    ensures
        r == token_matches(key@, encrypted_token@),
{
    match decrypt(key, encrypted_token) {
        Ok(plaintext) => {
            let expected = verify_token_bytes();
            bytes_eq(plaintext.as_slice(), expected.as_slice())
        },
        Err(_) => false,
    }
}

/// Encrypts the folder key under the master key, producing the recovery
/// blob that a manifest can carry.
pub fn wrap_key(master_key: &[u8; 32], folder_key: &[u8; 32]) -> (r: Result<
    Vec<u8>,
    SecureLockError,
>)
    ensures
        r is Ok,
        r matches Ok(w) ==> aead_open(master_key@, w@) == Some(folder_key@) && w@.len() == 60,
{
    match encrypt(master_key, folder_key.as_slice()) {
        Ok(w) => Ok(w),
        Err(e) => Err(e),
    }
}

/// Whether `wrapped` is a valid wrapped key under `master`: it decrypts
/// and the plaintext is exactly one key long.
pub open spec fn unwraps_under(master: Seq<u8>, wrapped: Seq<u8>) -> bool {
    &&& wrapped.len() >= 12
    &&& aead_open(master, wrapped) matches Some(p) && p.len() == 32
}

/// Decrypts a wrapped key and requires the result to be exactly one key
/// long.
pub fn unwrap_key(master_key: &[u8; 32], wrapped: &[u8]) -> (r: Result<[u8; 32], SecureLockError>)
    ensures
        r is Ok <==> unwraps_under(master_key@, wrapped@),
        r matches Ok(k) ==> aead_open(master_key@, wrapped@) == Some(k@),
        wrapped@.len() < 12 ==> r == Err::<[u8; 32], SecureLockError>(SecureLockError::TooShort),
        wrapped@.len() >= 12 && aead_open(master_key@, wrapped@) is None ==> r == Err::<
            [u8; 32],
            SecureLockError,
        >(SecureLockError::AuthenticationFailed),
        aead_open(master_key@, wrapped@) matches Some(p) && p.len() != 32 && wrapped@.len() >= 12
            ==> r == Err::<[u8; 32], SecureLockError>(SecureLockError::InvalidWrappedKey),
{
    let bytes = match decrypt(master_key, wrapped) {
        Ok(b) => b,
        Err(e) => return Err(e),
    };
    if bytes.len() != 32 {
        return Err(SecureLockError::InvalidWrappedKey);
    }
    let mut k = [0u8; 32];
    let mut i: usize = 0;
    while i < 32
        invariant
            bytes@.len() == 32,
            i <= 32,
            forall|j: int| 0 <= j < i ==> k@[j] == bytes@[j],
        decreases 32 - i,
    {
        k[i] = bytes[i];
        i += 1;
    }
    proof {
        assert(k@ =~= bytes@);
    }
    Ok(k)
}

} // verus!
