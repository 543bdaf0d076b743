//! The session context: the watched-folder list and the master
//! credential, owned as one explicit value.
//!
//! The caller loads the persisted fields at startup, hands this value by
//! reference into every operation, and persists the fields again after
//! any mutation; this module holds only the decisions.

use vstd::prelude::*;

use crate::SecureLockError;
use crate::folder::{
    ManifestState, ProtectedFolder, get_locked_file_count, has_recovery_key, is_locked,
    manifest_has_recovery,
};
use crate::master::{MasterCredential, new_master_credential};

verus! {

/// The process's shared state: watched folders and the master
/// credential.
pub struct AppState {
    /// The watched folder paths, in insertion order.
    pub folders: Vec<String>,
    /// The one master credential.
    pub master: MasterCredential,
}

impl AppState {
    /// An empty state: no folders watched, no credential configured.
    pub fn new() -> (s: AppState)
        ensures
            s.folders@.len() == 0,
            s.master.salt is None,
            s.master.verify_token is None,
            s.master.session_key is None,
    {
        AppState { folders: Vec::new(), master: new_master_credential() }
    }
}

/// Whether `path` is already on the list, compared by contents.
pub open spec fn list_contains(folders: Seq<String>, path: Seq<char>) -> bool {
    exists|i: int| 0 <= i < folders.len() && folders[i]@ == path
}

/// The list with every occurrence of `path` removed, order kept.
pub open spec fn without_path(folders: Seq<String>, path: Seq<char>) -> Seq<String>
    decreases folders.len(),
{
    if folders.len() == 0 {
        Seq::empty()
    } else {
        without_path(folders.drop_last(), path) + if folders.last()@ == path {
            Seq::<String>::empty()
        } else {
            seq![folders.last()]
        }
    }
}

/// Adds a folder to the watched list and reports its status. Refuses a
/// path already on the list, then a path that is not an existing
/// directory (which the caller reports); either refusal leaves the
/// state unchanged. The status is assembled from the manifest the
/// caller found and the folder's visible file count, as in the status
/// listing.
pub fn add_folder(
    state: &mut AppState,
    path: String,
    path_is_dir: bool,
    manifest: &ManifestState,
    visible_count: usize,
) -> (r: Result<ProtectedFolder, SecureLockError>)
    ensures
        r is Ok <==> (path_is_dir && !list_contains(old(state).folders@, path@)),
        list_contains(old(state).folders@, path@) ==> r == Err::<ProtectedFolder, SecureLockError>(
            SecureLockError::AlreadyListed,
        ) && *final(state) == *old(state),
        !list_contains(old(state).folders@, path@) && !path_is_dir ==> r == Err::<
            ProtectedFolder,
            SecureLockError,
        >(SecureLockError::NotADirectory) && *final(state) == *old(state),
        r is Ok ==> final(state).folders@ == old(state).folders@.push(path) && final(state).master
            == old(state).master,
        r matches Ok(st) ==> folder_status_ok(path, *manifest, visible_count, st),
{
    let mut i: usize = 0;
    while i < state.folders.len()
        invariant
            i <= state.folders@.len(),
            forall|j: int| 0 <= j < i ==> (#[trigger] state.folders@[j])@ != path@,
        decreases state.folders@.len() - i,
    {
        if state.folders[i] == path {
            return Err(SecureLockError::AlreadyListed);
        }
        i += 1;
    }
    if !path_is_dir {
        return Err(SecureLockError::NotADirectory);
    }
    let status = folder_status(&path, manifest, visible_count);
    state.folders.push(path);
    Ok(status)
}

/// Removes every occurrence of a path from the watched list; the rest of
/// the state is untouched.
pub fn remove_folder(state: &mut AppState, path: &String)
    ensures
        final(state).folders@ == without_path(old(state).folders@, path@),
        final(state).master == old(state).master,
{
    let mut kept: Vec<String> = Vec::new();
    let mut i: usize = 0;
    while i < state.folders.len()
        invariant
            i <= state.folders@.len(),
            kept@ == without_path(state.folders@.take(i as int), path@),
        decreases state.folders@.len() - i,
    {
        proof {
            assert(state.folders@.take(i + 1).drop_last() =~= state.folders@.take(i as int));
            assert(state.folders@.take(i + 1).last() == state.folders@[i as int]);
        }
        if !(state.folders[i] == *path) {
            kept.push(state.folders[i].clone());
            proof {
                assert(kept@ =~= without_path(state.folders@.take(i + 1), path@));
            }
        } else {
            proof {
                assert(kept@ =~= without_path(state.folders@.take(i + 1), path@));
            }
        }
        i += 1;
    }
    proof {
        assert(state.folders@.take(state.folders@.len() as int) =~= state.folders@);
    }
    state.folders = kept;
}

/// How one folder's reported status relates to what the caller found on
/// disk: its manifest's record count when readable, 0 when present but
/// unreadable (the best-effort degradation), and the visible file count
/// when absent.
pub open spec fn folder_status_ok(
    path: String,
    manifest: ManifestState,
    visible: usize,
    st: ProtectedFolder,
) -> bool {
    &&& st.path@ == path@
    &&& st.is_locked == !(manifest is Absent)
    &&& match manifest {
        ManifestState::Present(m) => st.file_count == m.files@.len(),
        ManifestState::Unreadable => st.file_count == 0,
        ManifestState::Absent => st.file_count == visible,
    }
    &&& st.has_recovery == manifest_has_recovery(manifest)
}

/// Assembles one folder's status from what the caller found on disk.
pub fn folder_status(path: &String, manifest: &ManifestState, visible_count: usize) -> (st:
    ProtectedFolder)
    ensures
        folder_status_ok(*path, *manifest, visible_count, st),
{
    let locked = is_locked(manifest);
    let file_count = if locked {
        get_locked_file_count(manifest)
    } else {
        visible_count
    };
    let has_recovery = if locked {
        has_recovery_key(manifest)
    } else {
        false
    };
    ProtectedFolder { path: path.clone(), is_locked: locked, file_count, has_recovery }
}

/// Assembles the status list for the watched folders: for each, whether
/// it is locked, its file count (manifest records when locked, visible
/// files when not), and whether recovery is available.
pub fn get_folders(
    folders: &Vec<String>,
    manifests: &Vec<ManifestState>,
    visible_counts: &Vec<usize>,
) -> (r: Vec<ProtectedFolder>)
    requires
        manifests@.len() == folders@.len(),
        visible_counts@.len() == folders@.len(),
    ensures
        r@.len() == folders@.len(),
        forall|i: int|
            0 <= i < folders@.len() ==> #[trigger] folder_status_ok(
                folders@[i],
                manifests@[i],
                visible_counts@[i],
                r@[i],
            ),
{
    let mut out: Vec<ProtectedFolder> = Vec::new();
    let mut i: usize = 0;
    while i < folders.len()
        invariant
            manifests@.len() == folders@.len(),
            visible_counts@.len() == folders@.len(),
            i <= folders@.len(),
            out@.len() == i,
            forall|j: int|
                0 <= j < i ==> #[trigger] folder_status_ok(
                    folders@[j],
                    manifests@[j],
                    visible_counts@[j],
                    out@[j],
                ),
        decreases folders@.len() - i,
    {
        out.push(folder_status(&folders[i], &manifests[i], visible_counts[i]));
        i += 1;
    }
    out
}

} // verus!
