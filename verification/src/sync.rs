//! The sync state of one file: a three-way comparison of the local copy,
//! the shared copy and the instant of the last pull.

use vstd::prelude::*;
use crate::time::Timestamp;

verus! {

/// How a file's local copy stands against its copy in the shared
/// repository.
#[derive(Debug, PartialEq, Eq, Clone, Copy, Structural)]
pub enum SyncState {
    /// Neither side needs the other.
    InSync,
    /// Only the local copy changed since the last pull.
    LocalAhead,
    /// Only the shared copy changed since the last pull.
    RemoteAhead,
    /// Both copies changed since the last pull.
    Conflict,
    /// The file exists locally only.
    LocalOnly,
    /// The file exists in the shared repository only.
    RemoteOnly,
}

/// What is observed of a file that exists: where it is, when it was last
/// modified and how many bytes it holds.
#[derive(Debug, Clone)]
pub struct FileMetadata {
    pub path: String,
    pub modified: Timestamp,
    pub size: u64,
}

/// Two observations carry the same content signature: equal modification
/// time and equal size. Paths play no part.
pub open spec fn same_signature(local: FileMetadata, remote: FileMetadata) -> bool {
    local.modified == remote.modified && local.size == remote.size
}

/// The state of two copies that both exist and differ in signature, judged
/// against the last pull.
pub open spec fn classify_differing(
    local_modified: Timestamp,
    remote_modified: Timestamp,
    last_pull: Option<Timestamp>,
) -> SyncState {
    match last_pull {
        None => SyncState::RemoteAhead,
        Some(pulled) => {
            let local_changed = local_modified.after(pulled);
            let remote_changed = remote_modified.after(pulled);
            if local_changed && remote_changed {
                SyncState::Conflict
            } else if local_changed {
                SyncState::LocalAhead
            } else if remote_changed {
                SyncState::RemoteAhead
            } else {
                SyncState::InSync
            }
        },
    }
}

/// The decision table: `None` stands for a copy that does not exist.
pub open spec fn classify(
    local: Option<FileMetadata>,
    remote: Option<FileMetadata>,
    last_pull: Option<Timestamp>,
) -> SyncState {
    match (local, remote) {
        (None, None) => SyncState::InSync,
        (Some(_), None) => SyncState::LocalOnly,
        (None, Some(_)) => SyncState::RemoteOnly,
        (Some(l), Some(r)) => if same_signature(l, r) {
            SyncState::InSync
        } else {
            classify_differing(l.modified, r.modified, last_pull)
        },
    }
}

/// The observation behind an optional reference.
pub open spec fn observed(file: Option<&FileMetadata>) -> Option<FileMetadata> {
    match file {
        Some(metadata) => Some(*metadata),
        None => None,
    }
}

/// Classifies one file from what is observed of its two copies and the
/// instant of the last pull, if there was one.
pub fn detect_sync_state(
    local_file: Option<&FileMetadata>,
    remote_file: Option<&FileMetadata>,
    last_pull: Option<Timestamp>,
) -> (state: SyncState)
    ensures
        state == classify(observed(local_file), observed(remote_file), last_pull),
{
    match (local_file, remote_file) {
        (None, None) => SyncState::InSync,
        (Some(_), None) => SyncState::LocalOnly,
        (None, Some(_)) => SyncState::RemoteOnly,
        (Some(local), Some(remote)) => {
            if local.modified == remote.modified && local.size == remote.size {
                return SyncState::InSync;
            }
            match last_pull {
                None => SyncState::RemoteAhead,
                Some(pulled) => {
                    let local_changed = local.modified.is_after(&pulled);
                    let remote_changed = remote.modified.is_after(&pulled);
                    match (local_changed, remote_changed) {
                        (false, false) => SyncState::InSync,
                        (true, false) => SyncState::LocalAhead,
                        (false, true) => SyncState::RemoteAhead,
                        (true, true) => SyncState::Conflict,
                    }
                },
            }
        },
    }
}

/// A file missing on both sides is in sync, one missing remotely is local
/// only, one missing locally is remote only: whatever the last pull was.
pub proof fn lemma_missing_copies(
    local: FileMetadata,
    remote: FileMetadata,
    last_pull: Option<Timestamp>,
)
    ensures
        classify(None, None, last_pull) == SyncState::InSync,
        classify(Some(local), None, last_pull) == SyncState::LocalOnly,
        classify(None, Some(remote), last_pull) == SyncState::RemoteOnly,
{
}

/// Copies with equal modification time and equal size are in sync for
/// every last pull, and when there never was one.
pub proof fn lemma_same_signature_in_sync(
    local: FileMetadata,
    remote: FileMetadata,
    last_pull: Option<Timestamp>,
)
    requires
        local.modified == remote.modified,
        local.size == remote.size,
    ensures
        classify(Some(local), Some(remote), last_pull) == SyncState::InSync,
{
}

/// For copies that differ, the last pull decides: the side modified after
/// it is ahead, both modified after it conflict, neither is in sync.
pub proof fn lemma_last_pull_decides(local: FileMetadata, remote: FileMetadata, pulled: Timestamp)
    requires
        !same_signature(local, remote),
    ensures
        local.modified.after(pulled) && !remote.modified.after(pulled) ==> classify(
            Some(local),
            Some(remote),
            Some(pulled),
        ) == SyncState::LocalAhead,
        !local.modified.after(pulled) && remote.modified.after(pulled) ==> classify(
            Some(local),
            Some(remote),
            Some(pulled),
        ) == SyncState::RemoteAhead,
        local.modified.after(pulled) && remote.modified.after(pulled) ==> classify(
            Some(local),
            Some(remote),
            Some(pulled),
        ) == SyncState::Conflict,
        !local.modified.after(pulled) && !remote.modified.after(pulled) ==> classify(
            Some(local),
            Some(remote),
            Some(pulled),
        ) == SyncState::InSync,
{
}

/// Copies that differ and were never pulled: the shared copy is ahead.
pub proof fn lemma_never_pulled_remote_ahead(local: FileMetadata, remote: FileMetadata)
    requires
        !same_signature(local, remote),
    ensures
        classify(Some(local), Some(remote), None) == SyncState::RemoteAhead,
{
}

/// A conflict is only ever reported for two existing copies that differ
/// and were both modified after a last pull that did take place.
pub proof fn lemma_conflict_means_both_changed(
    local: Option<FileMetadata>,
    remote: Option<FileMetadata>,
    last_pull: Option<Timestamp>,
)
    requires
        classify(local, remote, last_pull) == SyncState::Conflict,
    ensures
        local is Some,
        remote is Some,
        last_pull is Some,
        !same_signature(local->0, remote->0),
        local->0.modified.after(last_pull->0),
        remote->0.modified.after(last_pull->0),
{
}

} // verus!
