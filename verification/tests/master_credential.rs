use securelock::SecureLockError;
use securelock::master::{
    has_master_password, is_master_unlocked, new_master_credential, setup_master_password,
    verify_master_password,
};

#[test]
fn short_master_password_is_refused() {
    let mut cred = new_master_credential();
    assert_eq!(setup_master_password(&mut cred, "abc"), Err(SecureLockError::WeakPassword));
    assert!(!has_master_password(&cred));
    assert!(!is_master_unlocked(&cred));
}

#[test]
fn verify_before_setup_is_refused() {
    let mut cred = new_master_credential();
    assert_eq!(verify_master_password(&mut cred, "pw123"), Err(SecureLockError::NotConfigured));
}

#[test]
fn setup_configures_and_unlocks() {
    let mut cred = new_master_credential();
    setup_master_password(&mut cred, "pw123").unwrap();
    assert!(has_master_password(&cred));
    assert!(is_master_unlocked(&cred));
    assert_eq!(cred.salt.as_ref().unwrap().len(), 32);
    assert!(cred.verify_token.is_some());
}

#[test]
fn wrong_master_password_leaves_session_locked() {
    let mut cred = new_master_credential();
    setup_master_password(&mut cred, "pw123").unwrap();
    cred.session_key = None;
    assert_eq!(verify_master_password(&mut cred, "pw124"), Err(SecureLockError::WrongPassword));
    assert!(!is_master_unlocked(&cred));
}

#[test]
fn right_master_password_unlocks_the_session() {
    let mut cred = new_master_credential();
    setup_master_password(&mut cred, "pw123").unwrap();
    let key = cred.session_key.unwrap();
    cred.session_key = None;
    verify_master_password(&mut cred, "pw123").unwrap();
    assert_eq!(cred.session_key, Some(key));
}
