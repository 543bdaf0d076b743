//! The master credential manager.
//!
//! One process-wide master credential: a persisted salt and verification
//! token, plus a session key that exists only while the credential is
//! "unlocked". The caller owns this value as an explicit session
//! context, persists the two fields, and never the key.

use vstd::prelude::*;
use vstd::string::*;

use crate::SecureLockError;
use crate::crypto::{
    create_verify_token, derive_key, derived_key, generate_salt, token_matches, verify_password,
    zeroize_key,
};
use crate::folder::salt_to_vec;

verus! {

/// The master credential: persisted salt and token, and the
/// session-scoped key.
#[derive(Debug, PartialEq)]
pub struct MasterCredential {
    /// The salt the master key is derived with; persisted.
    pub salt: Option<Vec<u8>>,
    /// The fixed token plaintext encrypted under the master key;
    /// persisted.
    pub verify_token: Option<Vec<u8>>,
    /// The derived master key, held only while unlocked; never
    /// persisted.
    pub session_key: Option<[u8; 32]>,
}

/// The shortest password `setup_master_password` accepts, in bytes.
pub open spec fn min_master_password_len() -> int {
    4
}

/// A fresh, empty credential: nothing configured, nothing unlocked.
pub fn new_master_credential() -> (cred: MasterCredential)
    ensures
        cred.salt is None,
        cred.verify_token is None,
        cred.session_key is None,
{
    MasterCredential { salt: None, verify_token: None, session_key: None }
}

/// Whether a master credential has been configured.
pub fn has_master_password(cred: &MasterCredential) -> (r: bool)
    ensures
        r == (cred.salt is Some),
{
    cred.salt.is_some()
}

/// Whether the master credential is unlocked for this session.
pub fn is_master_unlocked(cred: &MasterCredential) -> (r: bool)
    ensures
        r == (cred.session_key is Some),
{
    cred.session_key.is_some()
}

/// What a successful setup guarantees: a fresh 32-byte salt, a token
/// that matches the key derived from the new password and that salt, and
/// that same key held as the session key.
pub open spec fn setup_ok(cred: MasterCredential, password: &str) -> bool {
    &&& cred.salt matches Some(s) && s@.len() == 32 && {
        let key = derived_key(password.spec_bytes(), s@);
        &&& cred.verify_token matches Some(t) && token_matches(key, t@)
        &&& cred.session_key matches Some(k) && k@ == key
    }
}

/// Configures the master credential from a password, overwriting any
/// prior one, and leaves it unlocked. Rejects passwords shorter than the
/// minimum length, leaving the credential untouched.
pub fn setup_master_password(cred: &mut MasterCredential, password: &str) -> (r: Result<
    (),
    SecureLockError,
>)
    requires
        password.spec_bytes().len() <= 0xFFFF_FFFF,
    ensures
        r is Ok <==> password.spec_bytes().len() >= min_master_password_len(),
        r is Err ==> r == Err::<(), SecureLockError>(SecureLockError::WeakPassword) && *final(cred)
            == *old(cred),
        r is Ok ==> setup_ok(*final(cred), password),
{
    if password.len() < 4 {
        return Err(SecureLockError::WeakPassword);
    }
    let salt = generate_salt();
    let key = match derive_key(password, salt.as_slice()) {
        Ok(k) => k,
        Err(e) => { return Err(e) },
    };
    let token = match create_verify_token(&key) {
        Ok(t) => t,
        Err(e) => { return Err(e) },
    };
    cred.salt = Some(salt_to_vec(&salt));
    cred.verify_token = Some(token);
    cred.session_key = Some(key);
    Ok(())
}

/// The whole behaviour of `verify_master_password`: an unconfigured
/// credential is refused; a malformed stored salt is refused; a password
/// whose derived key fails the stored token is refused with the
/// credential left unchanged; the right password stores the derived key
/// as the session key, with the persisted fields untouched.
pub open spec fn verify_post(
    cred_old: MasterCredential,
    cred_new: MasterCredential,
    password: &str,
    r: Result<(), SecureLockError>,
) -> bool {
    match cred_old.salt {
        None => r == Err::<(), SecureLockError>(SecureLockError::NotConfigured) && cred_new
            == cred_old,
        Some(s) => match cred_old.verify_token {
            None => r == Err::<(), SecureLockError>(SecureLockError::NotConfigured) && cred_new
                == cred_old,
            Some(t) => if s@.len() != 32 {
                r == Err::<(), SecureLockError>(SecureLockError::InvalidSalt) && cred_new
                    == cred_old
            } else {
                let key = derived_key(password.spec_bytes(), s@);
                if !token_matches(key, t@) {
                    r == Err::<(), SecureLockError>(SecureLockError::WrongPassword) && cred_new
                        == cred_old
                } else {
                    &&& r is Ok
                    &&& cred_new.salt == cred_old.salt
                    &&& cred_new.verify_token == cred_old.verify_token
                    &&& cred_new.session_key matches Some(k) && k@ == key
                }
            },
        },
    }
}

/// Verifies a password against the stored credential; on success the
/// derived key becomes the session key, on mismatch nothing changes.
pub fn verify_master_password(cred: &mut MasterCredential, password: &str) -> (r: Result<
    (),
    SecureLockError,
>)
    requires
        password.spec_bytes().len() <= 0xFFFF_FFFF,
    ensures
        verify_post(*old(cred), *final(cred), password, r),
{
    let salt = match &cred.salt {
        Some(s) => s,
        None => { return Err(SecureLockError::NotConfigured) },
    };
    let token = match &cred.verify_token {
        Some(t) => t,
        None => { return Err(SecureLockError::NotConfigured) },
    };
    if salt.len() != 32 {
        return Err(SecureLockError::InvalidSalt);
    }
    let mut key = match derive_key(password, salt.as_slice()) {
        Ok(k) => k,
        Err(e) => { return Err(e) },
    };
    if !verify_password(&key, token.as_slice()) {
        zeroize_key(&mut key);
        return Err(SecureLockError::WrongPassword);
    }
    cred.session_key = Some(key);
    Ok(())
}

} // verus!
