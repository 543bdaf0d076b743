//! The folder lock engine.
//!
//! A folder is a state machine with two states, driven by manifest
//! presence: unlocked (no manifest) and locked (manifest present). The
//! engine works on in-memory values: the caller reads the folder's files
//! and its manifest from disk, hands them in as plain values, and writes
//! the results back. Every decision and every transformation in between
//! is verified.

use vstd::prelude::*;
use vstd::string::*;

use crate::SecureLockError;
use crate::crypto::{
    aead_open, create_verify_token, decrypt, derive_key, derived_key, encrypt, generate_salt,
    max_plaintext_len, token_matches, unwrap_key, verify_password, wrap_key, zeroize_key,
};

verus! {

/// One file of a locked folder: where it was, what its ciphertext is
/// called, and what to rename it back to.
#[derive(Debug, PartialEq)]
pub struct FileMeta {
    /// The plaintext file's name, restored on unlock.
    pub original_name: String,
    /// The on-disk ciphertext file's name: the original name plus the
    /// fixed suffix.
    pub locked_name: String,
    /// The original file's path relative to the folder root.
    pub relative_path: String,
}

/// The persisted description of a locked folder: its salt, its
/// verification token, every ciphertext file it produced, and the
/// optional wrapped recovery key.
#[derive(Debug, PartialEq)]
pub struct FolderMeta {
    /// The 32-byte salt the folder key was derived with.
    pub salt: Vec<u8>,
    /// The fixed token plaintext encrypted under the folder key.
    pub verify_token: Vec<u8>,
    /// Exactly the files transformed at lock time, in order.
    pub files: Vec<FileMeta>,
    /// The folder key wrapped under the master key, when one was
    /// present in-session at lock time.
    pub recovery_key: Option<Vec<u8>>,
}

/// A folder's reported status.
#[derive(Debug, PartialEq)]
pub struct ProtectedFolder {
    /// The folder's path as the caller gave it.
    pub path: String,
    /// Whether a manifest is present.
    pub is_locked: bool,
    /// Locked: the manifest's record count. Unlocked: the folder's
    /// visible file count.
    pub file_count: usize,
    /// Whether the manifest carries a recovery key.
    pub has_recovery: bool,
}

/// A plaintext file handed to the engine, or restored by it.
#[derive(Debug, PartialEq)]
pub struct PlainFile {
    /// The file's path relative to the folder root.
    pub relative_path: String,
    /// The file's name.
    pub name: String,
    /// The file's full contents.
    pub content: Vec<u8>,
}

/// A ciphertext file produced by locking.
#[derive(Debug, PartialEq)]
pub struct LockedFile {
    /// The original file's path relative to the folder root; the
    /// ciphertext sits beside it under `locked_name`.
    pub relative_path: String,
    /// The ciphertext file's name.
    pub locked_name: String,
    /// The encrypted blob to write.
    pub content: Vec<u8>,
}

/// Everything a successful lock produces: the manifest to persist (last,
/// since its presence is the sole "locked" signal), the ciphertext files
/// to write, and the folder's new status.
#[derive(Debug, PartialEq)]
pub struct LockOutcome {
    /// The manifest to write at the folder root, after all files.
    pub meta: FolderMeta,
    /// The ciphertext files, one per input file, in input order.
    pub files: Vec<LockedFile>,
    /// The folder's status after the lock.
    pub status: ProtectedFolder,
}

/// Everything a successful unlock produces: one restored file per
/// manifest record, and the folder's new status.
#[derive(Debug, PartialEq)]
pub struct UnlockOutcome {
    /// Restored files, aligned with the manifest's records.
    pub files: Vec<PlainFile>,
    /// The folder's status after the unlock.
    pub status: ProtectedFolder,
}

/// What the caller found at the folder root: no manifest file, a
/// manifest file it could not read or parse, or a parsed manifest. The
/// manifest's presence on disk is the sole source of truth for
/// "locked", so an unreadable one still counts as present.
#[derive(Debug, PartialEq)]
pub enum ManifestState {
    /// No manifest file at the folder root.
    Absent,
    /// A manifest file exists but could not be read or parsed.
    Unreadable,
    /// The parsed manifest.
    Present(FolderMeta),
}

/// The fixed suffix appended to a ciphertext file's name.
pub open spec fn locked_name_of(name: Seq<char>) -> Seq<char> {
    name + ".locked"@
}

/// A name the engine treats as hidden: it starts with the hidden-file
/// marker.
pub open spec fn hidden_name(name: Seq<char>) -> bool {
    name.len() > 0 && name[0] == '.'
}

/// How one input file relates to its manifest record and its ciphertext
/// under the folder key.
pub open spec fn file_record_ok(f: PlainFile, m: FileMeta, c: LockedFile, key: Seq<u8>) -> bool {
    &&& m.original_name@ == f.name@
    &&& m.relative_path@ == f.relative_path@
    &&& m.locked_name@ == locked_name_of(f.name@)
    &&& c.relative_path@ == f.relative_path@
    &&& c.locked_name@ == locked_name_of(f.name@)
    &&& aead_open(key, c.content@) == Some(f.content@)
    &&& c.content@.len() == f.content@.len() + 28
}

/// What a successful lock guarantees: a fresh 32-byte salt, a token that
/// matches the key derived from the supplied password and that salt, one
/// record and one ciphertext per input file, a recovery key exactly when
/// a master key was supplied (the folder key wrapped under it), and the
/// folder's status.
pub open spec fn lock_ok(
    files: Seq<PlainFile>,
    password: &str,
    master_key: Option<Seq<u8>>,
    path: &str,
    out: LockOutcome,
) -> bool {
    let key = derived_key(password.spec_bytes(), out.meta.salt@);
    &&& out.meta.salt@.len() == 32
    &&& key.len() == 32
    &&& token_matches(key, out.meta.verify_token@)
    &&& out.meta.files@.len() == files.len()
    &&& out.files@.len() == files.len()
    &&& forall|i: int|
        0 <= i < files.len() ==> #[trigger] file_record_ok(
            files[i],
            out.meta.files@[i],
            out.files@[i],
            key,
        )
    &&& match master_key {
        Some(mk) => out.meta.recovery_key matches Some(w) && aead_open(mk, w@) == Some(key)
            && w@.len() == 60,
        None => out.meta.recovery_key is None,
    }
    &&& out.status.path@ == path@
    &&& out.status.is_locked == true
    &&& out.status.file_count == files.len()
    &&& out.status.has_recovery == (master_key is Some)
}

/// The view of an optional borrowed key.
pub open spec fn key_view(master_key: Option<&[u8; 32]>) -> Option<Seq<u8>> {
    match master_key {
        Some(k) => Some(k@),
        None => None,
    }
}

/// Locks a folder: derives a fresh key from a fresh salt, builds the
/// verification token, wraps the key under the master key when one is
/// supplied, and encrypts every file, recording how to undo it all.
///
/// The caller reports whether the path is an existing directory and
/// whether a manifest is already present; the engine refuses to proceed
/// in either bad case, before any file is touched. On success the caller
/// must write the ciphertext files first and the manifest last.
pub fn lock_folder(
    folder_path: &str,
    folder_exists: bool,
    already_locked: bool,
    files: Vec<PlainFile>,
    password: &str,
    master_key: Option<&[u8; 32]>,
) -> (r: Result<LockOutcome, SecureLockError>)
    requires
        forall|i: int|
            0 <= i < files@.len() ==> (#[trigger] files@[i]).content@.len()
                <= max_plaintext_len(),
        password.spec_bytes().len() <= 0xFFFF_FFFF,
    ensures
        r is Ok <==> folder_exists && !already_locked,
        !folder_exists ==> r == Err::<LockOutcome, SecureLockError>(SecureLockError::NotADirectory),
        folder_exists && already_locked ==> r == Err::<LockOutcome, SecureLockError>(
            SecureLockError::AlreadyLocked,
        ),
        r matches Ok(out) ==> lock_ok(files@, password, key_view(master_key), folder_path, out),
{
    if !folder_exists {
        return Err(SecureLockError::NotADirectory);
    }
    if already_locked {
        return Err(SecureLockError::AlreadyLocked);
    }
    let salt = generate_salt();
    let mut key = match derive_key(password, salt.as_slice()) {
        Ok(k) => k,
        Err(e) => { return Err(e) },
    };
    let verify_token = match create_verify_token(&key) {
        Ok(t) => t,
        Err(e) => { return Err(e) },
    };
    let recovery_key = match master_key {
        Some(mk) => match wrap_key(mk, &key) {
            Ok(w) => Some(w),
            Err(e) => { return Err(e) },
        },
        None => None,
    };
    let mut metas: Vec<FileMeta> = Vec::new();
    let mut locked: Vec<LockedFile> = Vec::new();
    let mut i: usize = 0;
    while i < files.len()
        invariant
            i <= files@.len(),
            metas@.len() == i,
            locked@.len() == i,
            key@ == derived_key(password.spec_bytes(), salt@),
            forall|j: int|
                0 <= j < i ==> #[trigger] file_record_ok(files@[j], metas@[j], locked@[j], key@),
            forall|j: int|
                0 <= j < files@.len() ==> (#[trigger] files@[j]).content@.len()
                    <= max_plaintext_len(),
        decreases files@.len() - i,
    {
        let f = &files[i];
        let locked_name = f.name.clone().concat(".locked");
        let cipher = match encrypt(&key, f.content.as_slice()) {
            Ok(c) => c,
            Err(e) => { return Err(e) },
        };
        metas.push(
            FileMeta {
                original_name: f.name.clone(),
                locked_name: locked_name.clone(),
                relative_path: f.relative_path.clone(),
            },
        );
        locked.push(
            LockedFile { relative_path: f.relative_path.clone(), locked_name, content: cipher },
        );
        i += 1;
    }
    let file_count = metas.len();
    let has_recovery = recovery_key.is_some();
    let meta = FolderMeta { salt: salt_to_vec(&salt), verify_token, files: metas, recovery_key };
    zeroize_key(&mut key);
    Ok(
        LockOutcome {
            meta,
            files: locked,
            status: ProtectedFolder {
                path: folder_path.to_owned(),
                is_locked: true,
                file_count,
                has_recovery,
            },
        },
    )
}

/// Whether every ciphertext the caller read from disk opens under
/// `key`.
pub open spec fn all_ciphers_open(key: Seq<u8>, ciphers: Seq<Vec<u8>>) -> bool {
    forall|i: int|
        0 <= i < ciphers.len() ==> (#[trigger] ciphers[i])@.len() >= 12 && aead_open(
            key,
            ciphers[i]@,
        ) is Some
}

/// Whether every ciphertext is at least long enough to hold its nonce.
/// Flipping bytes never changes a length, so under this condition the
/// only decryption failure left is the authentication one.
pub open spec fn ciphers_hold_nonces(ciphers: Seq<Vec<u8>>) -> bool {
    forall|i: int| 0 <= i < ciphers.len() ==> (#[trigger] ciphers[i])@.len() >= 12
}

/// How one restored file relates to its record and its ciphertext: its
/// decryption under the record's original name and path.
pub open spec fn restored_file_ok(
    fm: FileMeta,
    key: Seq<u8>,
    cipher: Vec<u8>,
    res: PlainFile,
) -> bool {
    &&& res.name@ == fm.original_name@
    &&& res.relative_path@ == fm.relative_path@
    &&& Some(res.content@) == aead_open(key, cipher@)
}

/// What a successful unlock guarantees once the key is in hand.
pub open spec fn restored_ok(
    m: FolderMeta,
    key: Seq<u8>,
    ciphers: Seq<Vec<u8>>,
    out: UnlockOutcome,
    path: &str,
) -> bool {
    &&& out.files@.len() == m.files@.len()
    &&& forall|i: int|
        0 <= i < m.files@.len() ==> #[trigger] restored_file_ok(
            m.files@[i],
            key,
            ciphers[i],
            out.files@[i],
        )
    &&& out.status.path@ == path@
    &&& out.status.is_locked == false
    &&& out.status.file_count == m.files@.len()
    &&& out.status.has_recovery == false
}

/// The outcome of decrypting a locked folder's files once the key has
/// been verified: full restoration when every ciphertext opens,
/// otherwise an authentication-class failure — pinned to
/// `AuthenticationFailed` whenever every ciphertext at least holds a
/// nonce, so tampering never degrades to a length error.
pub open spec fn decrypt_outcome(
    m: FolderMeta,
    key: Seq<u8>,
    ciphers: Seq<Vec<u8>>,
    path: &str,
    r: Result<UnlockOutcome, SecureLockError>,
) -> bool {
    if all_ciphers_open(key, ciphers) {
        r matches Ok(out) && restored_ok(m, key, ciphers, out, path)
    } else {
        &&& r matches Err(e) && (e == SecureLockError::TooShort || e
            == SecureLockError::AuthenticationFailed)
        &&& ciphers_hold_nonces(ciphers) ==> r == Err::<UnlockOutcome, SecureLockError>(
            SecureLockError::AuthenticationFailed,
        )
    }
}

/// The whole behaviour of `unlock_folder`: a missing manifest is
/// refused as `NotLocked` and an unreadable one as `ManifestError`, a
/// malformed salt is refused, a password that fails token verification
/// is refused before any file is touched, and otherwise the files are
/// restored exactly when every ciphertext authenticates.
pub open spec fn unlock_post(
    path: &str,
    manifest: ManifestState,
    ciphers: Seq<Vec<u8>>,
    password: &str,
    r: Result<UnlockOutcome, SecureLockError>,
) -> bool {
    match manifest {
        ManifestState::Absent => r == Err::<UnlockOutcome, SecureLockError>(
            SecureLockError::NotLocked,
        ),
        ManifestState::Unreadable => r == Err::<UnlockOutcome, SecureLockError>(
            SecureLockError::ManifestError,
        ),
        ManifestState::Present(m) => if m.salt@.len() != 32 {
            r == Err::<UnlockOutcome, SecureLockError>(SecureLockError::InvalidSalt)
        } else {
            let key = derived_key(password.spec_bytes(), m.salt@);
            if !token_matches(key, m.verify_token@) {
                r == Err::<UnlockOutcome, SecureLockError>(SecureLockError::WrongPassword)
            } else {
                decrypt_outcome(m, key, ciphers, path, r)
            }
        },
    }
}

/// Decrypts each ciphertext in record order, stopping at the first
/// failure.
fn decrypt_files(key: &[u8; 32], files: &Vec<FileMeta>, ciphers: &Vec<Vec<u8>>) -> (r: Result<
    Vec<PlainFile>,
    SecureLockError,
>)
    requires
        ciphers@.len() == files@.len(),
    ensures
        r is Ok <==> all_ciphers_open(key@, ciphers@),
        r matches Ok(out) ==> out@.len() == files@.len() && forall|i: int|
            0 <= i < files@.len() ==> #[trigger] restored_file_ok(
                files@[i],
                key@,
                ciphers@[i],
                out@[i],
            ),
        r matches Err(e) ==> (e == SecureLockError::TooShort || e
            == SecureLockError::AuthenticationFailed),
        r is Err && ciphers_hold_nonces(ciphers@) ==> r == Err::<Vec<PlainFile>, SecureLockError>(
            SecureLockError::AuthenticationFailed,
        ),
{
    let mut out: Vec<PlainFile> = Vec::new();
    let mut i: usize = 0;
    while i < files.len()
        invariant
            ciphers@.len() == files@.len(),
            i <= files@.len(),
            out@.len() == i,
            forall|j: int|
                0 <= j < i ==> #[trigger] restored_file_ok(files@[j], key@, ciphers@[j], out@[j]),
            forall|j: int|
                0 <= j < i ==> (#[trigger] ciphers@[j])@.len() >= 12 && aead_open(
                    key@,
                    ciphers@[j]@,
                ) is Some,
        decreases files@.len() - i,
    {
        let c = &ciphers[i];
        let plaintext = match decrypt(key, c.as_slice()) {
            Ok(p) => p,
            Err(e) => {
                assert(!all_ciphers_open(key@, ciphers@));
                assert(e == SecureLockError::TooShort ==> !ciphers_hold_nonces(ciphers@));
                return Err(e);
            },
        };
        out.push(
            PlainFile {
                relative_path: files[i].relative_path.clone(),
                name: files[i].original_name.clone(),
                content: plaintext,
            },
        );
        i += 1;
    }
    Ok(out)
}

/// Unlocks a folder with its own password: re-derives the key from the
/// manifest's salt, verifies it against the stored token, and decrypts
/// every ciphertext the caller found. A wrong password is refused before
/// any file is touched.
pub fn unlock_folder(
    folder_path: &str,
    manifest: &ManifestState,
    cipher_files: &Vec<Vec<u8>>,
    password: &str,
) -> (r: Result<UnlockOutcome, SecureLockError>)
    requires
        manifest matches ManifestState::Present(m) ==> cipher_files@.len() == m.files@.len(),
        password.spec_bytes().len() <= 0xFFFF_FFFF,
    ensures
        unlock_post(folder_path, *manifest, cipher_files@, password, r),
{
    let m = match manifest {
        ManifestState::Present(m) => m,
        ManifestState::Absent => { return Err(SecureLockError::NotLocked) },
        ManifestState::Unreadable => { return Err(SecureLockError::ManifestError) },
    };
    if m.salt.len() != 32 {
        return Err(SecureLockError::InvalidSalt);
    }
    let mut key = match derive_key(password, m.salt.as_slice()) {
        Ok(k) => k,
        Err(e) => { return Err(e) },
    };
    if !verify_password(&key, m.verify_token.as_slice()) {
        zeroize_key(&mut key);
        return Err(SecureLockError::WrongPassword);
    }
    let restored = match decrypt_files(&key, &m.files, cipher_files) {
        Ok(v) => v,
        Err(e) => {
            zeroize_key(&mut key);
            return Err(e);
        },
    };
    let file_count = m.files.len();
    zeroize_key(&mut key);
    Ok(
        UnlockOutcome {
            files: restored,
            status: ProtectedFolder {
                path: folder_path.to_owned(),
                is_locked: false,
                file_count,
                has_recovery: false,
            },
        },
    )
}

/// The whole behaviour of `unlock_folder_with_master_key`: a missing or
/// unreadable manifest and a missing recovery key are refused, an
/// unwrap failure is reported exactly as `unwrap_key` reports it, a key
/// that fails token verification is refused, and otherwise the files
/// are restored exactly when every ciphertext authenticates.
pub open spec fn master_unlock_post(
    path: &str,
    manifest: ManifestState,
    ciphers: Seq<Vec<u8>>,
    master_key: Seq<u8>,
    r: Result<UnlockOutcome, SecureLockError>,
) -> bool {
    match manifest {
        ManifestState::Absent => r == Err::<UnlockOutcome, SecureLockError>(
            SecureLockError::NotLocked,
        ),
        ManifestState::Unreadable => r == Err::<UnlockOutcome, SecureLockError>(
            SecureLockError::ManifestError,
        ),
        ManifestState::Present(m) => match m.recovery_key {
            None => r == Err::<UnlockOutcome, SecureLockError>(SecureLockError::NoRecoveryKey),
            Some(w) => if w@.len() < 12 {
                r == Err::<UnlockOutcome, SecureLockError>(SecureLockError::TooShort)
            } else {
                match aead_open(master_key, w@) {
                    None => r == Err::<UnlockOutcome, SecureLockError>(
                        SecureLockError::AuthenticationFailed,
                    ),
                    Some(k) => if k.len() != 32 {
                        r == Err::<UnlockOutcome, SecureLockError>(
                            SecureLockError::InvalidWrappedKey,
                        )
                    } else if !token_matches(k, m.verify_token@) {
                        r == Err::<UnlockOutcome, SecureLockError>(SecureLockError::WrongPassword)
                    } else {
                        decrypt_outcome(m, k, ciphers, path, r)
                    },
                }
            },
        },
    }
}

/// Unlocks a folder with the master key instead of its password: the
/// folder key is unwrapped from the manifest's recovery key, verified
/// against the stored token, and used to decrypt. This is the recovery
/// path for a folder whose own password is unknown.
pub fn unlock_folder_with_master_key(
    folder_path: &str,
    manifest: &ManifestState,
    cipher_files: &Vec<Vec<u8>>,
    master_key: &[u8; 32],
) -> (r: Result<UnlockOutcome, SecureLockError>)
    requires
        manifest matches ManifestState::Present(m) ==> cipher_files@.len() == m.files@.len(),
    ensures
        master_unlock_post(folder_path, *manifest, cipher_files@, master_key@, r),
{
    let m = match manifest {
        ManifestState::Present(m) => m,
        ManifestState::Absent => { return Err(SecureLockError::NotLocked) },
        ManifestState::Unreadable => { return Err(SecureLockError::ManifestError) },
    };
    let wrapped = match &m.recovery_key {
        Some(w) => w,
        None => { return Err(SecureLockError::NoRecoveryKey) },
    };
    let mut folder_key = match unwrap_key(master_key, wrapped.as_slice()) {
        Ok(k) => k,
        Err(e) => { return Err(e) },
    };
    if !verify_password(&folder_key, m.verify_token.as_slice()) {
        zeroize_key(&mut folder_key);
        return Err(SecureLockError::WrongPassword);
    }
    let restored = match decrypt_files(&folder_key, &m.files, cipher_files) {
        Ok(v) => v,
        Err(e) => {
            zeroize_key(&mut folder_key);
            return Err(e);
        },
    };
    let file_count = m.files.len();
    zeroize_key(&mut folder_key);
    Ok(
        UnlockOutcome {
            files: restored,
            status: ProtectedFolder {
                path: folder_path.to_owned(),
                is_locked: false,
                file_count,
                has_recovery: false,
            },
        },
    )
}

/// Whether a manifest is readable and carries a recovery key.
pub open spec fn manifest_has_recovery(manifest: ManifestState) -> bool {
    manifest matches ManifestState::Present(m) && m.recovery_key is Some
}

/// Whether the folder is locked: the manifest file's presence on disk
/// is the sole source of truth, readable or not.
pub fn is_locked(manifest: &ManifestState) -> (r: bool)
    ensures
        r == !(manifest is Absent),
{
    match manifest {
        ManifestState::Absent => false,
        ManifestState::Unreadable => true,
        ManifestState::Present(_) => true,
    }
}

/// Whether the folder's manifest carries a recovery key. This
/// best-effort predicate degrades to `false` on a missing or unreadable
/// manifest rather than failing.
pub fn has_recovery_key(manifest: &ManifestState) -> (r: bool)
    ensures
        r == manifest_has_recovery(*manifest),
{
    match manifest {
        ManifestState::Present(m) => m.recovery_key.is_some(),
        ManifestState::Absent => false,
        ManifestState::Unreadable => false,
    }
}

/// The manifest's file-record count; this best-effort predicate
/// degrades to 0 on a missing or unreadable manifest rather than
/// failing.
pub fn get_locked_file_count(manifest: &ManifestState) -> (r: usize)
    ensures
        manifest matches ManifestState::Present(m) ==> r == m.files@.len(),
        !(manifest is Present) ==> r == 0,
{
    match manifest {
        ManifestState::Present(m) => m.files.len(),
        ManifestState::Absent => 0,
        ManifestState::Unreadable => 0,
    }
}

/// The number of visible names among `names`, counted front to back.
pub open spec fn visible_count(names: Seq<String>) -> int
    decreases names.len(),
{
    if names.len() == 0 {
        0
    } else {
        visible_count(names.drop_last()) + if hidden_name(names.last()@) {
            0int
        } else {
            1int
        }
    }
}

/// Whether the engine treats `name` as hidden and leaves the file alone.
pub fn is_hidden_name(name: &str) -> (r: bool)
    ensures
        r == hidden_name(name@),
{
    if name.unicode_len() == 0 {
        false
    } else {
        name.get_char(0) == '.'
    }
}

/// Counts the visible regular files of an unlocked folder, given their
/// names; hidden names are excluded, as they are from locking.
pub fn count_files(names: &Vec<String>) -> (r: usize)
    ensures
        r == visible_count(names@),
{
    let mut count: usize = 0;
    let mut i: usize = 0;
    while i < names.len()
        invariant
            i <= names@.len(),
            count == visible_count(names@.take(i as int)),
            count <= i,
        decreases names@.len() - i,
    {
        if !is_hidden_name(names[i].as_str()) {
            count = count + 1;
        }
        proof {
            assert(names@.take(i + 1).drop_last() =~= names@.take(i as int));
            assert(names@.take(i + 1).last() == names@[i as int]);
        }
        i += 1;
    }
    proof {
        assert(names@.take(names@.len() as int) =~= names@);
    }
    count
}

/// Copies a salt into the vector form the manifest persists.
pub(crate) fn salt_to_vec(salt: &[u8; 32]) -> (v: Vec<u8>)
    ensures
        v@ == salt@,
{
    let mut v: Vec<u8> = Vec::new();
    let mut i: usize = 0;
    while i < 32
        invariant
            i <= 32,
            v@.len() == i,
            forall|j: int| 0 <= j < i ==> v@[j] == salt@[j],
        decreases 32 - i,
    {
        v.push(salt[i]);
        i += 1;
    }
    proof {
        assert(v@ =~= salt@);
    }
    v
}

} // verus!
