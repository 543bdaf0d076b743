use rand::RngCore;
use securelock::SecureLockError;
use securelock::folder::{
    FileMeta, FolderMeta, ManifestState, PlainFile, count_files, get_locked_file_count,
    has_recovery_key, is_hidden_name, is_locked, lock_folder, unlock_folder,
    unlock_folder_with_master_key,
};

fn random_key() -> [u8; 32] {
    let mut k = [0u8; 32];
    rand::rngs::OsRng.fill_bytes(&mut k);
    k
}

fn plain(rel: &str, name: &str, content: &[u8]) -> PlainFile {
    PlainFile {
        relative_path: String::from(rel),
        name: String::from(name),
        content: content.to_vec(),
    }
}

fn example_files() -> Vec<PlainFile> {
    vec![plain("a.txt", "a.txt", b"hello"), plain("sub/b.txt", "b.txt", b"world")]
}

#[test]
fn lock_then_unlock_restores_example_folder() {
    let out = lock_folder("/f", true, false, example_files(), "pw123", None).unwrap();

    assert_eq!(out.meta.salt.len(), 32);
    assert_eq!(out.meta.files.len(), 2);
    assert!(out.meta.recovery_key.is_none());
    assert_eq!(out.meta.files[0].original_name, "a.txt");
    assert_eq!(out.meta.files[0].locked_name, "a.txt.locked");
    assert_eq!(out.meta.files[0].relative_path, "a.txt");
    assert_eq!(out.meta.files[1].original_name, "b.txt");
    assert_eq!(out.meta.files[1].locked_name, "b.txt.locked");
    assert_eq!(out.meta.files[1].relative_path, "sub/b.txt");
    assert_eq!(out.files.len(), 2);
    assert_eq!(out.files[0].locked_name, "a.txt.locked");
    assert_eq!(out.files[1].locked_name, "b.txt.locked");
    assert_eq!(out.files[0].content.len(), 5 + 28);
    assert!(out.status.is_locked);
    assert_eq!(out.status.file_count, 2);
    assert!(!out.status.has_recovery);
    assert_eq!(out.status.path, "/f");

    let ciphers: Vec<Vec<u8>> = out.files.iter().map(|f| f.content.clone()).collect();
    let manifest = ManifestState::Present(out.meta);
    let back = unlock_folder("/f", &manifest, &ciphers, "pw123").unwrap();

    assert_eq!(back.files.len(), 2);
    assert_eq!(back.files[0].name, "a.txt");
    assert_eq!(back.files[0].relative_path, "a.txt");
    assert_eq!(back.files[0].content, b"hello".to_vec());
    assert_eq!(back.files[1].name, "b.txt");
    assert_eq!(back.files[1].relative_path, "sub/b.txt");
    assert_eq!(back.files[1].content, b"world".to_vec());
    assert!(!back.status.is_locked);
    assert_eq!(back.status.file_count, 2);
}

#[test]
fn unlock_with_wrong_password_is_refused() {
    let out = lock_folder("/f", true, false, example_files(), "pw123", None).unwrap();
    let ciphers: Vec<Vec<u8>> = out.files.iter().map(|f| f.content.clone()).collect();
    let manifest = ManifestState::Present(out.meta);
    assert_eq!(
        unlock_folder("/f", &manifest, &ciphers, "pw124"),
        Err(SecureLockError::WrongPassword)
    );
}

#[test]
fn locking_twice_is_refused() {
    assert_eq!(
        lock_folder("/f", true, true, example_files(), "pw123", None),
        Err(SecureLockError::AlreadyLocked)
    );
}

#[test]
fn locking_a_missing_directory_is_refused() {
    assert_eq!(
        lock_folder("/f", false, false, example_files(), "pw123", None),
        Err(SecureLockError::NotADirectory)
    );
}

#[test]
fn tampered_ciphertext_fails_unlock() {
    let out = lock_folder("/f", true, false, vec![plain("a.txt", "a.txt", b"hi")], "pw123", None)
        .unwrap();
    let good = out.files[0].content.clone();
    let manifest = ManifestState::Present(out.meta);
    for i in [0, good.len() / 2, good.len() - 1] {
        let mut bad = good.clone();
        bad[i] ^= 0x80;
        let ciphers = vec![bad];
        assert_eq!(
            unlock_folder("/f", &manifest, &ciphers, "pw123"),
            Err(SecureLockError::AuthenticationFailed),
            "flipping byte {} went unnoticed",
            i
        );
    }
}

#[test]
fn master_key_recovers_folder_without_its_password() {
    let master = random_key();
    let out = lock_folder("/f", true, false, example_files(), "pw123", Some(&master)).unwrap();
    assert!(out.meta.recovery_key.is_some());
    assert!(out.status.has_recovery);

    let ciphers: Vec<Vec<u8>> = out.files.iter().map(|f| f.content.clone()).collect();
    let manifest = ManifestState::Present(out.meta);
    let back = unlock_folder_with_master_key("/f", &manifest, &ciphers, &master).unwrap();
    assert_eq!(back.files[0].content, b"hello".to_vec());
    assert_eq!(back.files[1].content, b"world".to_vec());

    let wrong = random_key();
    assert_eq!(
        unlock_folder_with_master_key("/f", &manifest, &ciphers, &wrong),
        Err(SecureLockError::AuthenticationFailed)
    );
}

#[test]
fn unlock_without_manifest_is_refused() {
    assert_eq!(
        unlock_folder("/f", &ManifestState::Absent, &Vec::new(), "pw123"),
        Err(SecureLockError::NotLocked)
    );
    assert_eq!(
        unlock_folder_with_master_key("/f", &ManifestState::Absent, &Vec::new(), &random_key()),
        Err(SecureLockError::NotLocked)
    );
}

#[test]
fn unreadable_manifest_is_refused() {
    assert_eq!(
        unlock_folder("/f", &ManifestState::Unreadable, &Vec::new(), "pw123"),
        Err(SecureLockError::ManifestError)
    );
    assert_eq!(
        unlock_folder_with_master_key("/f", &ManifestState::Unreadable, &Vec::new(), &random_key()),
        Err(SecureLockError::ManifestError)
    );
}

#[test]
fn unlock_with_malformed_salt_is_refused() {
    let manifest = ManifestState::Present(FolderMeta {
        salt: vec![1u8; 16],
        verify_token: vec![0u8; 54],
        files: Vec::new(),
        recovery_key: None,
    });
    assert_eq!(
        unlock_folder("/f", &manifest, &Vec::new(), "pw123"),
        Err(SecureLockError::InvalidSalt)
    );
}

#[test]
fn recovery_is_refused_without_a_recovery_key() {
    let out = lock_folder("/f", true, false, example_files(), "pw123", None).unwrap();
    let ciphers: Vec<Vec<u8>> = out.files.iter().map(|f| f.content.clone()).collect();
    let manifest = ManifestState::Present(out.meta);
    assert_eq!(
        unlock_folder_with_master_key("/f", &manifest, &ciphers, &random_key()),
        Err(SecureLockError::NoRecoveryKey)
    );
}

#[test]
fn queries_report_manifest_state() {
    let manifest = ManifestState::Present(FolderMeta {
        salt: vec![0u8; 32],
        verify_token: vec![0u8; 54],
        files: vec![FileMeta {
            original_name: String::from("a"),
            locked_name: String::from("a.locked"),
            relative_path: String::from("a"),
        }],
        recovery_key: Some(vec![0u8; 60]),
    });
    assert!(is_locked(&manifest));
    assert!(has_recovery_key(&manifest));
    assert_eq!(get_locked_file_count(&manifest), 1);

    assert!(!is_locked(&ManifestState::Absent));
    assert!(!has_recovery_key(&ManifestState::Absent));
    assert_eq!(get_locked_file_count(&ManifestState::Absent), 0);

    assert!(is_locked(&ManifestState::Unreadable));
    assert!(!has_recovery_key(&ManifestState::Unreadable));
    assert_eq!(get_locked_file_count(&ManifestState::Unreadable), 0);
}

#[test]
fn hidden_names_are_excluded_from_counting() {
    assert!(is_hidden_name(".securelock"));
    assert!(is_hidden_name("."));
    assert!(!is_hidden_name("a.txt"));
    assert!(!is_hidden_name(""));
    let names = vec![
        String::from(".hidden"),
        String::from("a.txt"),
        String::from("sub.txt"),
        String::from(".git"),
    ];
    assert_eq!(count_files(&names), 2);
    assert_eq!(count_files(&Vec::new()), 0);
}
