//! The engine's laws, proved from the contracts of the operations they
//! relate.

use vstd::prelude::*;
use vstd::string::*;

use crate::SecureLockError;
use crate::crypto::{aead_open, derived_key, token_matches};
use crate::folder::{
    FolderMeta, LockOutcome, ManifestState, PlainFile, UnlockOutcome, all_ciphers_open,
    file_record_ok, lock_ok, master_unlock_post, restored_file_ok, restored_ok, unlock_post,
};

verus! {

/// Whether an unlock outcome restores `files` exactly: one slot per
/// file, each holding its original name, path and byte-identical
/// content.
pub open spec fn restores_exactly(files: Seq<PlainFile>, u: UnlockOutcome) -> bool {
    &&& u.files@.len() == files.len()
    &&& forall|i: int|
        0 <= i < files.len() ==> (#[trigger] u.files@[i]).name@ == files[i].name@
            && u.files@[i].relative_path@ == files[i].relative_path@ && u.files@[i].content@
            == files[i].content@
}

/// Whether `ciphers` is exactly what a lock outcome put on disk: one
/// present ciphertext per record, byte for byte.
pub open spec fn ciphers_of(ciphers: Seq<Vec<u8>>, out: LockOutcome) -> bool {
    &&& ciphers.len() == out.files@.len()
    &&& forall|i: int| 0 <= i < ciphers.len() ==> (#[trigger] ciphers[i])@ == out.files@[i].content@
}

/// Round trip: whatever `lock_folder` produced for a folder and a
/// password, `unlock_folder` on the produced manifest and ciphertexts
/// with the same password succeeds and restores every file to its
/// original name and byte-identical content.
pub proof fn lemma_lock_unlock_round_trip(
    files: Seq<PlainFile>,
    password: &str,
    master_key: Option<Seq<u8>>,
    path: &str,
    out: LockOutcome,
    ciphers: Seq<Vec<u8>>,
    unlock_path: &str,
    r: Result<UnlockOutcome, SecureLockError>,
)
    requires
        lock_ok(files, password, master_key, path, out),
        ciphers_of(ciphers, out),
        unlock_post(unlock_path, ManifestState::Present(out.meta), ciphers, password, r),
    ensures
        r is Ok,
        r matches Ok(u) ==> restores_exactly(files, u),
{
    let key = derived_key(password.spec_bytes(), out.meta.salt@);
    assert(all_ciphers_open(key, ciphers)) by {
        assert forall|i: int| 0 <= i < ciphers.len() implies (#[trigger] ciphers[i])@.len() >= 12
            && aead_open(key, ciphers[i]@) is Some by {
            assert(file_record_ok(files[i], out.meta.files@[i], out.files@[i], key));
            assert(ciphers[i]@ == out.files@[i].content@);
        }
    };
    match r {
        Ok(u) => {
            assert(restored_ok(out.meta, key, ciphers, u, unlock_path));
            assert forall|i: int| 0 <= i < files.len() implies (#[trigger] u.files@[i]).name@
                == files[i].name@ && u.files@[i].relative_path@ == files[i].relative_path@
                && u.files@[i].content@ == files[i].content@ by {
                assert(restored_file_ok(out.meta.files@[i], key, ciphers[i], u.files@[i]));
                assert(file_record_ok(files[i], out.meta.files@[i], out.files@[i], key));
            }
        },
        Err(_) => {
            assert(false);
        },
    }
}

/// Negative authentication: a password whose derived key fails the
/// stored token is refused with `WrongPassword`, and the engine returns
/// nothing to write, so the folder's on-disk state stays untouched. That
/// a *wrong* password's key always fails the token holds only with
/// overwhelming probability, and is exercised by test, not proof.
pub proof fn lemma_wrong_password_refused(
    path: &str,
    m: FolderMeta,
    ciphers: Seq<Vec<u8>>,
    password: &str,
    r: Result<UnlockOutcome, SecureLockError>,
)
    requires
        m.salt@.len() == 32,
        !token_matches(derived_key(password.spec_bytes(), m.salt@), m.verify_token@),
        unlock_post(path, ManifestState::Present(m), ciphers, password, r),
    ensures
        r == Err::<UnlockOutcome, SecureLockError>(SecureLockError::WrongPassword),
{
}

/// Recovery path: a folder locked while a master key was present can be
/// restored by `unlock_folder_with_master_key` with that same master
/// key, without its own password, to the same byte-identical files.
pub proof fn lemma_master_key_recovery(
    files: Seq<PlainFile>,
    password: &str,
    master_key: Seq<u8>,
    path: &str,
    out: LockOutcome,
    ciphers: Seq<Vec<u8>>,
    unlock_path: &str,
    r: Result<UnlockOutcome, SecureLockError>,
)
    requires
        lock_ok(files, password, Some(master_key), path, out),
        ciphers_of(ciphers, out),
        master_unlock_post(unlock_path, ManifestState::Present(out.meta), ciphers, master_key, r),
    ensures
        r is Ok,
        r matches Ok(u) ==> restores_exactly(files, u),
{
    let key = derived_key(password.spec_bytes(), out.meta.salt@);
    assert(out.meta.recovery_key matches Some(w) && aead_open(master_key, w@) == Some(key)
        && w@.len() == 60);
    assert(all_ciphers_open(key, ciphers)) by {
        assert forall|i: int| 0 <= i < ciphers.len() implies (#[trigger] ciphers[i])@.len() >= 12
            && aead_open(key, ciphers[i]@) is Some by {
            assert(file_record_ok(files[i], out.meta.files@[i], out.files@[i], key));
            assert(ciphers[i]@ == out.files@[i].content@);
        }
    };
    match r {
        Ok(u) => {
            assert(restored_ok(out.meta, key, ciphers, u, unlock_path));
            assert forall|i: int| 0 <= i < files.len() implies (#[trigger] u.files@[i]).name@
                == files[i].name@ && u.files@[i].relative_path@ == files[i].relative_path@
                && u.files@[i].content@ == files[i].content@ by {
                assert(restored_file_ok(out.meta.files@[i], key, ciphers[i], u.files@[i]));
                assert(file_record_ok(files[i], out.meta.files@[i], out.files@[i], key));
            }
        },
        Err(_) => {
            assert(false);
        },
    }
}

/// Verify-token soundness: a token with the property that
/// `create_verify_token` guarantees for a key is exactly one that
/// `verify_password` answers `true` for under that key. That it answers
/// `false` under any *other* key holds only with overwhelming
/// probability, and is exercised by test, not proof.
pub proof fn lemma_verify_token_sound(key: Seq<u8>, token: Seq<u8>, verdict: bool)
    requires
        token_matches(key, token),
        verdict == token_matches(key, token),
    ensures
        verdict,
{
}

} // verus!
