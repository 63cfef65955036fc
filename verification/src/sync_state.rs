//! Records of sync operations: the terminal status of a run, the immutable
//! record a run produces, and branch divergence snapshots. Timestamps are
//! milliseconds since the Unix epoch.

use vstd::prelude::*;
use vstd::string::StringExecFns;

use crate::repo::RepoId;
use crate::sync_link::SyncLinkId;
use crate::text::str_eq;

verus! {

/// Status of a sync operation.
#[derive(Debug, Clone, Copy, PartialEq, Eq, Structural)]
pub enum SyncStatus {
    Success,
    PartialSuccess,
    Failed,
    Skipped,
}

/// The textual name of a status.
pub open spec fn sync_status_text(s: SyncStatus) -> Seq<char> {
    match s {
        SyncStatus::Success => "success"@,
        SyncStatus::PartialSuccess => "partial_success"@,
        SyncStatus::Failed => "failed"@,
        SyncStatus::Skipped => "skipped"@,
    }
}

/// The status a name denotes, if any.
pub open spec fn sync_status_of_text(t: Seq<char>) -> Option<SyncStatus> {
    if t == "success"@ {
        Some(SyncStatus::Success)
    } else if t == "partial_success"@ {
        Some(SyncStatus::PartialSuccess)
    } else if t == "failed"@ {
        Some(SyncStatus::Failed)
    } else if t == "skipped"@ {
        Some(SyncStatus::Skipped)
    } else {
        None
    }
}

impl SyncStatus {
    /// The name of this status.
    pub fn as_str(&self) -> (r: &'static str)
        ensures
            r@ == sync_status_text(*self),
    {
        match self {
            SyncStatus::Success => "success",
            SyncStatus::PartialSuccess => "partial_success",
            SyncStatus::Failed => "failed",
            SyncStatus::Skipped => "skipped",
        }
    }

    /// The status the given name denotes.
    pub fn parse(s: &str) -> (r: Result<SyncStatus, String>)
        ensures
            match sync_status_of_text(s@) {
                Some(v) => r matches Ok(v2) && v2 == v,
                None => r matches Err(m) && m@ == "unknown sync status: "@ + s@,
            },
    {
        if str_eq(s, "success") {
            Ok(SyncStatus::Success)
        } else if str_eq(s, "partial_success") {
            Ok(SyncStatus::PartialSuccess)
        } else if str_eq(s, "failed") {
            Ok(SyncStatus::Failed)
        } else if str_eq(s, "skipped") {
            Ok(SyncStatus::Skipped)
        } else {
            let mut m = String::from_str("unknown sync status: ");
            m.append(s);
            Err(m)
        }
    }
}

impl core::str::FromStr for SyncStatus {
    type Err = String;

    fn from_str(s: &str) -> Result<SyncStatus, String> {
        SyncStatus::parse(s)
    }
}

/// Record of a completed sync operation.
#[derive(Debug, Clone)]
pub struct SyncRecord {
    pub id: u128,
    pub repo_id: RepoId,
    pub sync_link_id: Option<SyncLinkId>,
    pub branches_synced: u32,
    pub branches_failed: u32,
    pub commits_transferred: u32,
    pub status: SyncStatus,
    pub errors: Vec<String>,
    pub started_at: i64,
    pub finished_at: i64,
}

impl SyncRecord {
    /// A fresh record for one run: all counters zero, no errors yet, and
    /// both timestamps set to the moment of creation.
    pub fn new(repo_id: RepoId) -> (r: SyncRecord)
        ensures
            r.repo_id == repo_id,
            r.sync_link_id is None,
            r.branches_synced == 0,
            r.branches_failed == 0,
            r.commits_transferred == 0,
            r.status == SyncStatus::Success,
            r.errors@.len() == 0,
            r.started_at == r.finished_at,
    {
        let now = crate::sys::now_millis();
        SyncRecord {
            id: crate::sys::fresh_uuid(),
            repo_id,
            sync_link_id: None,
            branches_synced: 0,
            branches_failed: 0,
            commits_transferred: 0,
            status: SyncStatus::Success,
            errors: Vec::new(),
            started_at: now,
            finished_at: now,
        }
    }
}

/// Snapshot of a branch's state for behind/ahead tracking.
#[derive(Debug, Clone)]
pub struct BranchSnapshot {
    pub repo_id: RepoId,
    pub branch: String,
    pub local_sha: Option<String>,
    pub remote_sha: Option<String>,
    pub upstream_sha: Option<String>,
    pub behind_count: u32,
    pub ahead_count: u32,
    pub updated_at: i64,
}

} // verus!
