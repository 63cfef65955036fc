//! The per-repository fork synchronization state machine.
//!
//! The machine decides; an outside driver executes. `start` resolves the
//! working path and yields the first command; each reply is handed back
//! through `on_dir_checked`, `on_output` or `on_exec_error`, and the
//! machine answers with the next command to run or with the finished
//! result. Every failure is captured into the returned record; in dry-run
//! mode the machine only ever asks for read-only commands, and a dry run
//! that reaches the divergence count ends in the `Skipped` status.

use vstd::prelude::*;
use vstd::pervasive::unreached;
use vstd::string::StringExecFns;

use crate::error::{error_text, GitrError};
use crate::git_ops::{self, behind_count_of, git_failed_text, remote_names_spec, GitOutput};
use crate::repo::{Repo, RepoId};
use crate::sync_link::MergeStrategy;
use crate::sync_state::{SyncRecord, SyncStatus};
use crate::text::{contains_seq, trim_spec, trim_string};

verus! {

/// One git operation for the driver to execute.
#[derive(Debug, Clone)]
pub enum GitCommand {
    /// Does `<path>/.git` exist?
    CheckRepoDir { path: String },
    /// `git clone <url> <dest>`
    Clone { url: String, dest: String },
    /// `git remote`
    ListRemotes { dir: String },
    /// `git remote add <name> <url>`
    AddRemote { dir: String, name: String, url: String },
    /// `git fetch <remote> --prune`
    FetchPrune { dir: String, remote: String },
    /// `git rev-list --count <from>..<to>`
    CountRange { dir: String, from: String, to: String },
    /// `git checkout <branch>`
    Checkout { dir: String, branch: String },
    /// `git merge --ff-only <reference>`
    MergeFastForward { dir: String, reference: String },
    /// `git merge <reference> --no-edit`
    MergeNoEdit { dir: String, reference: String },
    /// `git rebase <reference>`
    Rebase { dir: String, reference: String },
    /// `git rebase --abort`
    RebaseAbort { dir: String },
    /// `git reset --hard <reference>`
    ResetHard { dir: String, reference: String },
    /// `git push <remote> <branch>`
    Push { dir: String, remote: String, branch: String },
}

/// A command that mutates neither the filesystem nor any remote.
pub open spec fn readonly_command(c: GitCommand) -> bool {
    match c {
        GitCommand::CheckRepoDir { .. } => true,
        GitCommand::ListRemotes { .. } => true,
        GitCommand::CountRange { .. } => true,
        _ => false,
    }
}

/// Where the machine stands: which reply it waits for.
#[derive(Debug, Clone, Copy, PartialEq, Eq, Structural)]
pub enum SyncPhase {
    /// Waiting to hear whether the working path holds a clone.
    CheckingClone,
    Cloning,
    ListingRemotes,
    AddingUpstream,
    Fetching,
    Counting,
    CheckingOut,
    MergingFastForward,
    Merging,
    Rebasing,
    /// A failed rebase is being aborted; its message is kept aside.
    AbortingRebase,
    /// The second checkout before a hard reset (force-push strategy).
    PreparingReset,
    Resetting,
    Pushing,
    Finished,
}

/// Result of syncing a single fork.
#[derive(Debug, Clone)]
pub struct ForkSyncResult {
    pub repo_full_name: String,
    pub record: SyncRecord,
    pub dry_run: bool,
}

/// The machine's answer to one event.
#[derive(Debug)]
pub enum SyncStep {
    /// Execute this command and hand its outcome back.
    Run(GitCommand),
    /// The run is over; this is its record.
    Done(ForkSyncResult),
}

/// The working path of the run: the repository's known local path if set,
/// else `<clone_base_dir>/<repo_name>`.
pub open spec fn resolved_path(
    local_path: Option<Seq<char>>,
    name: Seq<char>,
    base: Seq<char>,
) -> Seq<char> {
    match local_path {
        Some(p) => p,
        None => base + "/"@ + name,
    }
}

/// The per-repository synchronization state machine.
pub struct ForkSyncMachine {
    pub repo_full_name: String,
    pub clone_url: String,
    pub default_branch: String,
    pub upstream_clone_url: String,
    pub local_path: String,
    pub upstream_ref: String,
    pub strategy: MergeStrategy,
    pub dry_run: bool,
    pub phase: SyncPhase,
    pub behind: u32,
    pub pending_message: String,
    pub record_id: u128,
    pub repo_id: RepoId,
    pub started_at: i64,
}

impl ForkSyncMachine {
    /// A dry run only ever checks, lists and counts.
    pub open spec fn wf(self) -> bool {
        self.dry_run ==> (self.phase == SyncPhase::CheckingClone || self.phase
            == SyncPhase::ListingRemotes || self.phase == SyncPhase::Counting || self.phase
            == SyncPhase::Finished)
    }

    /// The machine waits for the outcome of a git command.
    pub open spec fn awaiting_output(self) -> bool {
        self.phase != SyncPhase::CheckingClone && self.phase != SyncPhase::Finished
    }

    /// What one event may never change: the run's identity and settings.
    pub open spec fn same_job(pre: ForkSyncMachine, post: ForkSyncMachine) -> bool {
        &&& post.repo_full_name@ == pre.repo_full_name@
        &&& post.clone_url@ == pre.clone_url@
        &&& post.default_branch@ == pre.default_branch@
        &&& post.upstream_clone_url@ == pre.upstream_clone_url@
        &&& post.local_path@ == pre.local_path@
        &&& post.upstream_ref@ == pre.upstream_ref@
        &&& post.strategy == pre.strategy
        &&& post.dry_run == pre.dry_run
        &&& post.record_id == pre.record_id
        &&& post.repo_id == pre.repo_id
        &&& post.started_at == pre.started_at
    }

    /// A finished run that transferred `commits` commits: one branch
    /// synced, `Skipped` in dry-run mode, `Success` live.
    pub open spec fn done_ok(pre: ForkSyncMachine, r: SyncStep, commits: u32) -> bool {
        &&& r matches SyncStep::Done(res) && {
            &&& res.dry_run == pre.dry_run
            &&& res.repo_full_name@ == pre.repo_full_name@
            &&& res.record.repo_id == pre.repo_id
            &&& res.record.started_at == pre.started_at
            &&& res.record.branches_synced == 1
            &&& res.record.branches_failed == 0
            &&& res.record.commits_transferred == commits
            &&& res.record.status == (if pre.dry_run {
                SyncStatus::Skipped
            } else {
                SyncStatus::Success
            })
            &&& res.record.errors@.len() == 0
        }
    }

    /// A failed run: one branch failed, nothing synced, and the single
    /// error message reads `msg`.
    pub open spec fn done_failed(pre: ForkSyncMachine, r: SyncStep, msg: Seq<char>) -> bool {
        &&& r matches SyncStep::Done(res) && {
            &&& res.dry_run == pre.dry_run
            &&& res.repo_full_name@ == pre.repo_full_name@
            &&& res.record.repo_id == pre.repo_id
            &&& res.record.started_at == pre.started_at
            &&& res.record.branches_synced == 0
            &&& res.record.branches_failed == 1
            &&& res.record.commits_transferred == 0
            &&& res.record.status == SyncStatus::Failed
            &&& res.record.errors@.len() == 1
            &&& res.record.errors@[0]@ == msg
        }
    }

    /// Begin a run: resolve the working path and ask whether it already
    /// holds a clone.
    pub fn start(
        repo: &Repo,
        upstream_clone_url: &str,
        clone_base_dir: &str,
        strategy: &MergeStrategy,
        dry_run: bool,
    ) -> (r: (ForkSyncMachine, GitCommand))
        ensures
            ({
                let (m, c) = r;
                &&& m.phase == SyncPhase::CheckingClone
                &&& m.wf()
                &&& m.dry_run == dry_run
                &&& m.strategy == *strategy
                &&& m.repo_full_name@ == repo.full_name@
                &&& m.clone_url@ == repo.clone_url@
                &&& m.default_branch@ == repo.default_branch@
                &&& m.upstream_clone_url@ == upstream_clone_url@
                &&& m.local_path@ == resolved_path(
                    repo@.local_path,
                    repo.name@,
                    clone_base_dir@,
                )
                &&& m.upstream_ref@ == "upstream/"@ + repo.default_branch@
                &&& m.repo_id == repo.id
                &&& m.behind == 0
                &&& (c matches GitCommand::CheckRepoDir { path } && path@ == m.local_path@)
            }),
    {
        let local_path = match &repo.local_path {
            Some(p) => p.clone(),
            None => {
                let mut s = String::from_str(clone_base_dir);
                s.append("/");
                s.append(repo.name.as_str());
                s
            },
        };
        let mut upstream_ref = String::from_str("upstream/");
        upstream_ref.append(repo.default_branch.as_str());
        let m = ForkSyncMachine {
            repo_full_name: repo.full_name.clone(),
            clone_url: repo.clone_url.clone(),
            default_branch: repo.default_branch.clone(),
            upstream_clone_url: String::from_str(upstream_clone_url),
            local_path,
            upstream_ref,
            strategy: *strategy,
            dry_run,
            phase: SyncPhase::CheckingClone,
            behind: 0,
            pending_message: String::new(),
            record_id: crate::sys::fresh_uuid(),
            repo_id: repo.id,
            started_at: crate::sys::now_millis(),
        };
        let c = GitCommand::CheckRepoDir { path: m.local_path.clone() };
        (m, c)
    }

    /// Close the run successfully (or as skipped, in dry-run mode).
    fn finish_ok(&mut self, commits: u32) -> (r: SyncStep)
        ensures
            Self::same_job(*old(self), *final(self)),
            final(self).phase == SyncPhase::Finished,
            final(self).wf(),
            final(self).behind == old(self).behind,
            final(self).pending_message@ == old(self).pending_message@,
            Self::done_ok(*old(self), r, commits),
    {
        self.phase = SyncPhase::Finished;
        let status = if self.dry_run {
            SyncStatus::Skipped
        } else {
            SyncStatus::Success
        };
        SyncStep::Done(
            ForkSyncResult {
                repo_full_name: self.repo_full_name.clone(),
                record: SyncRecord {
                    id: self.record_id,
                    repo_id: self.repo_id,
                    sync_link_id: None,
                    branches_synced: 1,
                    branches_failed: 0,
                    commits_transferred: commits,
                    status,
                    errors: Vec::new(),
                    started_at: self.started_at,
                    finished_at: crate::sys::now_millis(),
                },
                dry_run: self.dry_run,
            },
        )
    }

    /// Close the run as failed, recording the error's message.
    fn finish_failed(&mut self, e: GitrError) -> (r: SyncStep)
        ensures
            Self::same_job(*old(self), *final(self)),
            final(self).phase == SyncPhase::Finished,
            final(self).wf(),
            final(self).behind == old(self).behind,
            final(self).pending_message@ == old(self).pending_message@,
            Self::done_failed(*old(self), r, error_text(e)),
    {
        self.phase = SyncPhase::Finished;
        let msg = e.describe();
        let mut errors: Vec<String> = Vec::new();
        errors.push(msg);
        SyncStep::Done(
            ForkSyncResult {
                repo_full_name: self.repo_full_name.clone(),
                record: SyncRecord {
                    id: self.record_id,
                    repo_id: self.repo_id,
                    sync_link_id: None,
                    branches_synced: 0,
                    branches_failed: 1,
                    commits_transferred: 0,
                    status: SyncStatus::Failed,
                    errors,
                    started_at: self.started_at,
                    finished_at: crate::sys::now_millis(),
                },
                dry_run: self.dry_run,
            },
        )
    }

    /// The run could not even execute a git command; close it as failed
    /// with the driver's message.
    pub fn on_exec_error(&mut self, message: &str) -> (r: SyncStep)
        requires
            old(self).phase != SyncPhase::Finished,
        ensures
            Self::same_job(*old(self), *final(self)),
            final(self).phase == SyncPhase::Finished,
            final(self).wf(),
            final(self).behind == old(self).behind,
            final(self).pending_message@ == old(self).pending_message@,
            Self::done_failed(*old(self), r, "git error: "@ + message@),
    {
        self.finish_failed(GitrError::GitError { message: String::from_str(message) })
    }

    /// Answer to the clone-existence check that a run begins with.
    pub fn on_dir_checked(&mut self, exists: bool) -> (r: SyncStep)
        requires
            old(self).phase == SyncPhase::CheckingClone,
            old(self).wf(),
        ensures
            Self::same_job(*old(self), *final(self)),
            final(self).wf(),
            (r is Done) == (final(self).phase == SyncPhase::Finished),
            final(self).behind == old(self).behind,
            final(self).pending_message@ == old(self).pending_message@,
            old(self).dry_run ==> (r matches SyncStep::Run(c) ==> readonly_command(c)),
            exists ==> final(self).phase == SyncPhase::ListingRemotes && (r matches SyncStep::Run(c)
                && c matches GitCommand::ListRemotes { dir } && dir@ == old(self).local_path@),
            !exists && old(self).dry_run ==> final(self).phase == SyncPhase::Finished && Self::done_ok(
                *old(self),
                r,
                0,
            ),
            !exists && !old(self).dry_run ==> final(self).phase == SyncPhase::Cloning && (
            r matches SyncStep::Run(c) && c matches GitCommand::Clone { url, dest } && url@ == old(
                self,
            ).clone_url@ && dest@ == old(self).local_path@),
    {
        if exists {
            self.phase = SyncPhase::ListingRemotes;
            SyncStep::Run(GitCommand::ListRemotes { dir: self.local_path.clone() })
        } else if self.dry_run {
            self.finish_ok(0)
        } else {
            self.phase = SyncPhase::Cloning;
            SyncStep::Run(
                GitCommand::Clone { url: self.clone_url.clone(), dest: self.local_path.clone() },
            )
        }
    }

    /// Whether the listed remotes include `upstream`.
    pub open spec fn has_upstream(stdout: Seq<char>) -> bool {
        exists|i: int|
            0 <= i < remote_names_spec(stdout).len() && remote_names_spec(stdout)[i]
                == "upstream"@
    }

    /// Feed the outcome of the command the machine last asked for.
    pub fn on_output(&mut self, out: &GitOutput) -> (r: SyncStep)
        requires
            old(self).awaiting_output(),
            old(self).wf(),
        ensures
            Self::same_job(*old(self), *final(self)),
            final(self).wf(),
            (r is Done) == (final(self).phase == SyncPhase::Finished),
            old(self).phase != SyncPhase::Counting ==> final(self).behind == old(self).behind,
            old(self).phase != SyncPhase::Rebasing ==> final(self).pending_message@ == old(
                self,
            ).pending_message@,
            old(self).dry_run ==> (r matches SyncStep::Run(c) ==> readonly_command(c)),
            // cloning
            old(self).phase == SyncPhase::Cloning && out.success ==> final(self).phase
                == SyncPhase::ListingRemotes && (r matches SyncStep::Run(c)
                && c matches GitCommand::ListRemotes { dir } && dir@ == old(self).local_path@),
            old(self).phase == SyncPhase::Cloning && !out.success ==> Self::done_failed(
                *old(self),
                r,
                "git error: "@ + ("git clone failed: "@ + trim_spec(out.stderr@)),
            ),
            // listing remotes
            old(self).phase == SyncPhase::ListingRemotes && !out.success ==> Self::done_failed(
                *old(self),
                r,
                "git error: "@ + git_failed_text("remote"@, out.stderr@),
            ),
            old(self).phase == SyncPhase::ListingRemotes && out.success && old(self).dry_run
                ==> final(self).phase == SyncPhase::Counting && (r matches SyncStep::Run(c)
                && c matches GitCommand::CountRange { dir, from, to } && dir@ == old(
                self,
            ).local_path@ && from@ == old(self).default_branch@ && to@ == old(
                self,
            ).upstream_ref@),
            old(self).phase == SyncPhase::ListingRemotes && out.success && !old(self).dry_run
                && Self::has_upstream(out.stdout@) ==> final(self).phase == SyncPhase::Fetching && (
            r matches SyncStep::Run(c) && c matches GitCommand::FetchPrune { dir, remote } && dir@
                == old(self).local_path@ && remote@ == "upstream"@),
            old(self).phase == SyncPhase::ListingRemotes && out.success && !old(self).dry_run
                && !Self::has_upstream(out.stdout@) ==> final(self).phase == SyncPhase::AddingUpstream
                && (r matches SyncStep::Run(c) && c matches GitCommand::AddRemote {
                dir,
                name,
                url,
            } && dir@ == old(self).local_path@ && name@ == "upstream"@ && url@ == old(
                self,
            ).upstream_clone_url@),
            // adding the upstream remote (an "already exists" failure is success)
            old(self).phase == SyncPhase::AddingUpstream && (out.success || contains_seq(
                out.stderr@,
                "already exists"@,
            )) ==> final(self).phase == SyncPhase::Fetching && (r matches SyncStep::Run(c)
                && c matches GitCommand::FetchPrune { dir, remote } && dir@ == old(
                self,
            ).local_path@ && remote@ == "upstream"@),
            old(self).phase == SyncPhase::AddingUpstream && !out.success && !contains_seq(
                out.stderr@,
                "already exists"@,
            ) ==> Self::done_failed(
                *old(self),
                r,
                "git error: "@ + ("failed to add remote "@ + "upstream"@ + ": "@ + trim_spec(
                    out.stderr@,
                )),
            ),
            // fetching
            old(self).phase == SyncPhase::Fetching && out.success ==> final(self).phase
                == SyncPhase::Counting && (r matches SyncStep::Run(c)
                && c matches GitCommand::CountRange { dir, from, to } && dir@ == old(
                self,
            ).local_path@ && from@ == old(self).default_branch@ && to@ == old(
                self,
            ).upstream_ref@),
            old(self).phase == SyncPhase::Fetching && !out.success ==> Self::done_failed(
                *old(self),
                r,
                "git error: "@ + git_failed_text(
                    "fetch "@ + "upstream"@ + " --prune"@,
                    out.stderr@,
                ),
            ),
            // counting: a failed or non-numeric count is treated as zero;
            // a dry run always ends here, best effort
            old(self).phase == SyncPhase::Counting && old(self).dry_run ==> Self::done_ok(
                *old(self),
                r,
                behind_count_of(*out),
            ),
            // counting, live: up to date (or nothing countable) means done
            // with no merge or push
            old(self).phase == SyncPhase::Counting && !old(self).dry_run && behind_count_of(*out)
                == 0 ==> Self::done_ok(*old(self), r, 0),
            old(self).phase == SyncPhase::Counting && !old(self).dry_run && behind_count_of(*out)
                != 0 ==> final(self).phase == SyncPhase::CheckingOut && final(self).behind
                == behind_count_of(*out) && (r matches SyncStep::Run(c)
                && c matches GitCommand::Checkout { dir, branch } && dir@ == old(
                self,
            ).local_path@ && branch@ == old(self).default_branch@),
            // checkout before applying the strategy
            old(self).phase == SyncPhase::CheckingOut && !out.success ==> Self::done_failed(
                *old(self),
                r,
                "git error: "@ + git_failed_text(
                    "checkout "@ + old(self).default_branch@,
                    out.stderr@,
                ),
            ),
            old(self).phase == SyncPhase::CheckingOut && out.success && old(self).strategy
                == MergeStrategy::FastForward ==> final(self).phase == SyncPhase::MergingFastForward && (
            r matches SyncStep::Run(c) && c matches GitCommand::MergeFastForward {
                dir,
                reference,
            } && dir@ == old(self).local_path@ && reference@ == old(self).upstream_ref@),
            old(self).phase == SyncPhase::CheckingOut && out.success && old(self).strategy
                == MergeStrategy::Merge ==> final(self).phase == SyncPhase::Merging && (
            r matches SyncStep::Run(c) && c matches GitCommand::MergeNoEdit { dir, reference }
                && dir@ == old(self).local_path@ && reference@ == old(self).upstream_ref@),
            old(self).phase == SyncPhase::CheckingOut && out.success && old(self).strategy
                == MergeStrategy::Rebase ==> final(self).phase == SyncPhase::Rebasing && (
            r matches SyncStep::Run(c) && c matches GitCommand::Rebase { dir, reference } && dir@
                == old(self).local_path@ && reference@ == old(self).upstream_ref@),
            old(self).phase == SyncPhase::CheckingOut && out.success && old(self).strategy
                == MergeStrategy::ForcePush ==> final(self).phase == SyncPhase::PreparingReset && (
            r matches SyncStep::Run(c) && c matches GitCommand::Checkout { dir, branch } && dir@
                == old(self).local_path@ && branch@ == old(self).default_branch@),
            // fast-forward merge: a failure leaves the branch untouched
            old(self).phase == SyncPhase::MergingFastForward && out.success ==> final(self).phase
                == SyncPhase::Pushing && (r matches SyncStep::Run(c)
                && c matches GitCommand::Push { dir, remote, branch } && dir@ == old(
                self,
            ).local_path@ && remote@ == "origin"@ && branch@ == old(self).default_branch@),
            old(self).phase == SyncPhase::MergingFastForward && !out.success
                ==> Self::done_failed(
                *old(self),
                r,
                "fast-forward failed on branch "@ + old(self).upstream_ref@ + ": "@ + trim_spec(
                    out.stderr@,
                ),
            ),
            // three-way merge
            old(self).phase == SyncPhase::Merging && out.success ==> final(self).phase
                == SyncPhase::Pushing && (r matches SyncStep::Run(c)
                && c matches GitCommand::Push { dir, remote, branch } && dir@ == old(
                self,
            ).local_path@ && remote@ == "origin"@ && branch@ == old(self).default_branch@),
            old(self).phase == SyncPhase::Merging && !out.success ==> Self::done_failed(
                *old(self),
                r,
                "merge conflict on branch "@ + old(self).upstream_ref@ + ": "@ + trim_spec(
                    out.stderr@,
                ),
            ),
            // rebase: a failure is aborted before the run closes
            old(self).phase == SyncPhase::Rebasing && out.success ==> final(self).phase
                == SyncPhase::Pushing && (r matches SyncStep::Run(c)
                && c matches GitCommand::Push { dir, remote, branch } && dir@ == old(
                self,
            ).local_path@ && remote@ == "origin"@ && branch@ == old(self).default_branch@),
            old(self).phase == SyncPhase::Rebasing && !out.success ==> final(self).phase
                == SyncPhase::AbortingRebase && final(self).pending_message@ == trim_spec(out.stderr@)
                && (r matches SyncStep::Run(c) && c matches GitCommand::RebaseAbort { dir }
                && dir@ == old(self).local_path@),
            // after the abort, whatever it returned, the rebase failure is reported
            old(self).phase == SyncPhase::AbortingRebase ==> Self::done_failed(
                *old(self),
                r,
                "merge conflict on branch "@ + old(self).upstream_ref@ + ": "@ + old(
                    self,
                ).pending_message@,
            ),
            // the second checkout and the hard reset of the force-push strategy
            old(self).phase == SyncPhase::PreparingReset && out.success ==> final(self).phase
                == SyncPhase::Resetting && (r matches SyncStep::Run(c)
                && c matches GitCommand::ResetHard { dir, reference } && dir@ == old(
                self,
            ).local_path@ && reference@ == old(self).upstream_ref@),
            old(self).phase == SyncPhase::PreparingReset && !out.success ==> Self::done_failed(
                *old(self),
                r,
                "git error: "@ + git_failed_text(
                    "checkout "@ + old(self).default_branch@,
                    out.stderr@,
                ),
            ),
            old(self).phase == SyncPhase::Resetting && out.success ==> final(self).phase
                == SyncPhase::Pushing && (r matches SyncStep::Run(c)
                && c matches GitCommand::Push { dir, remote, branch } && dir@ == old(
                self,
            ).local_path@ && remote@ == "origin"@ && branch@ == old(self).default_branch@),
            old(self).phase == SyncPhase::Resetting && !out.success ==> Self::done_failed(
                *old(self),
                r,
                "git error: "@ + ("git reset --hard failed: "@ + trim_spec(out.stderr@)),
            ),
            // pushing: the last step of a live run
            old(self).phase == SyncPhase::Pushing && out.success ==> Self::done_ok(
                *old(self),
                r,
                old(self).behind,
            ),
            old(self).phase == SyncPhase::Pushing && !out.success ==> Self::done_failed(
                *old(self),
                r,
                "git error: "@ + git_failed_text(
                    "push "@ + "origin"@ + " "@ + old(self).default_branch@,
                    out.stderr@,
                ),
            ),
    {
        match self.phase {
            SyncPhase::Cloning => {
                match git_ops::clone(out) {
                    Ok(()) => {
                        self.phase = SyncPhase::ListingRemotes;
                        SyncStep::Run(GitCommand::ListRemotes { dir: self.local_path.clone() })
                    },
                    Err(e) => self.finish_failed(e),
                }
            },
            SyncPhase::ListingRemotes => {
                match git_ops::remote_list(out) {
                    Ok(names) => {
                        let ghost spec_names = remote_names_spec(out.stdout@);
                        let mut has = false;
                        let mut i: usize = 0;
                        while i < names.len()
                            invariant
                                names@.len() == spec_names.len(),
                                forall|j: int|
                                    0 <= j < spec_names.len() ==> #[trigger] names@[j]@
                                        == spec_names[j],
                                i <= names@.len(),
                                has == exists|j: int|
                                    0 <= j < i && #[trigger] spec_names[j] == "upstream"@,
                            decreases names@.len() - i,
                        {
                            if crate::text::str_eq(names[i].as_str(), "upstream") {
                                has = true;
                            }
                            i = i + 1;
                        }
                        proof {
                            assert(has == Self::has_upstream(out.stdout@));
                        }
                        if self.dry_run {
                            self.phase = SyncPhase::Counting;
                            SyncStep::Run(
                                GitCommand::CountRange {
                                    dir: self.local_path.clone(),
                                    from: self.default_branch.clone(),
                                    to: self.upstream_ref.clone(),
                                },
                            )
                        } else if has {
                            self.phase = SyncPhase::Fetching;
                            SyncStep::Run(
                                GitCommand::FetchPrune {
                                    dir: self.local_path.clone(),
                                    remote: String::from_str("upstream"),
                                },
                            )
                        } else {
                            self.phase = SyncPhase::AddingUpstream;
                            SyncStep::Run(
                                GitCommand::AddRemote {
                                    dir: self.local_path.clone(),
                                    name: String::from_str("upstream"),
                                    url: self.upstream_clone_url.clone(),
                                },
                            )
                        }
                    },
                    Err(e) => self.finish_failed(e),
                }
            },
            SyncPhase::AddingUpstream => {
                match git_ops::remote_add("upstream", out) {
                    Ok(()) => {
                        self.phase = SyncPhase::Fetching;
                        SyncStep::Run(
                            GitCommand::FetchPrune {
                                dir: self.local_path.clone(),
                                remote: String::from_str("upstream"),
                            },
                        )
                    },
                    Err(e) => self.finish_failed(e),
                }
            },
            SyncPhase::Fetching => {
                match git_ops::fetch("upstream", out) {
                    Ok(()) => {
                        self.phase = SyncPhase::Counting;
                        SyncStep::Run(
                            GitCommand::CountRange {
                                dir: self.local_path.clone(),
                                from: self.default_branch.clone(),
                                to: self.upstream_ref.clone(),
                            },
                        )
                    },
                    Err(e) => self.finish_failed(e),
                }
            },
            SyncPhase::Counting => {
                let commits = match git_ops::rev_list_count(out) {
                    Ok(v) => v,
                    Err(_) => 0,
                };
                if self.dry_run {
                    self.finish_ok(commits)
                } else if commits == 0 {
                    self.finish_ok(0)
                } else {
                    self.behind = commits;
                    self.phase = SyncPhase::CheckingOut;
                    SyncStep::Run(
                        GitCommand::Checkout {
                            dir: self.local_path.clone(),
                            branch: self.default_branch.clone(),
                        },
                    )
                }
            },
            SyncPhase::CheckingOut => {
                match git_ops::checkout(self.default_branch.as_str(), out) {
                    Ok(()) => {
                        match self.strategy {
                            MergeStrategy::FastForward => {
                                self.phase = SyncPhase::MergingFastForward;
                                SyncStep::Run(
                                    GitCommand::MergeFastForward {
                                        dir: self.local_path.clone(),
                                        reference: self.upstream_ref.clone(),
                                    },
                                )
                            },
                            MergeStrategy::Merge => {
                                self.phase = SyncPhase::Merging;
                                SyncStep::Run(
                                    GitCommand::MergeNoEdit {
                                        dir: self.local_path.clone(),
                                        reference: self.upstream_ref.clone(),
                                    },
                                )
                            },
                            MergeStrategy::Rebase => {
                                self.phase = SyncPhase::Rebasing;
                                SyncStep::Run(
                                    GitCommand::Rebase {
                                        dir: self.local_path.clone(),
                                        reference: self.upstream_ref.clone(),
                                    },
                                )
                            },
                            MergeStrategy::ForcePush => {
                                self.phase = SyncPhase::PreparingReset;
                                SyncStep::Run(
                                    GitCommand::Checkout {
                                        dir: self.local_path.clone(),
                                        branch: self.default_branch.clone(),
                                    },
                                )
                            },
                        }
                    },
                    Err(e) => self.finish_failed(e),
                }
            },
            SyncPhase::MergingFastForward => {
                match git_ops::merge_ff(self.upstream_ref.as_str(), out) {
                    Ok(()) => {
                        self.phase = SyncPhase::Pushing;
                        SyncStep::Run(
                            GitCommand::Push {
                                dir: self.local_path.clone(),
                                remote: String::from_str("origin"),
                                branch: self.default_branch.clone(),
                            },
                        )
                    },
                    Err(e) => self.finish_failed(e),
                }
            },
            SyncPhase::Merging => {
                match git_ops::merge(self.upstream_ref.as_str(), out) {
                    Ok(()) => {
                        self.phase = SyncPhase::Pushing;
                        SyncStep::Run(
                            GitCommand::Push {
                                dir: self.local_path.clone(),
                                remote: String::from_str("origin"),
                                branch: self.default_branch.clone(),
                            },
                        )
                    },
                    Err(e) => self.finish_failed(e),
                }
            },
            SyncPhase::Rebasing => {
                if out.success {
                    self.phase = SyncPhase::Pushing;
                    SyncStep::Run(
                        GitCommand::Push {
                            dir: self.local_path.clone(),
                            remote: String::from_str("origin"),
                            branch: self.default_branch.clone(),
                        },
                    )
                } else {
                    self.pending_message = trim_string(out.stderr.as_str());
                    self.phase = SyncPhase::AbortingRebase;
                    SyncStep::Run(GitCommand::RebaseAbort { dir: self.local_path.clone() })
                }
            },
            SyncPhase::AbortingRebase => {
                let e = GitrError::MergeConflict {
                    branch: self.upstream_ref.clone(),
                    message: self.pending_message.clone(),
                };
                self.finish_failed(e)
            },
            SyncPhase::PreparingReset => {
                match git_ops::checkout(self.default_branch.as_str(), out) {
                    Ok(()) => {
                        self.phase = SyncPhase::Resetting;
                        SyncStep::Run(
                            GitCommand::ResetHard {
                                dir: self.local_path.clone(),
                                reference: self.upstream_ref.clone(),
                            },
                        )
                    },
                    Err(e) => self.finish_failed(e),
                }
            },
            SyncPhase::Resetting => {
                match git_ops::reset_hard(out) {
                    Ok(()) => {
                        self.phase = SyncPhase::Pushing;
                        SyncStep::Run(
                            GitCommand::Push {
                                dir: self.local_path.clone(),
                                remote: String::from_str("origin"),
                                branch: self.default_branch.clone(),
                            },
                        )
                    },
                    Err(e) => self.finish_failed(e),
                }
            },
            SyncPhase::Pushing => {
                match git_ops::push("origin", self.default_branch.as_str(), out) {
                    Ok(()) => {
                        let commits = self.behind;
                        self.finish_ok(commits)
                    },
                    Err(e) => self.finish_failed(e),
                }
            },
            SyncPhase::CheckingClone => unreached(),
            SyncPhase::Finished => unreached(),
        }
    }
}

/// The fallback upstream clone URL the sync command assumes when the
/// hosting API cannot supply one: the GitHub clone URL of the upstream's
/// full name.
pub fn default_upstream_url(upstream_name: &str) -> (r: String)
    ensures
        r@ == "https://github.com/"@ + upstream_name@ + ".git"@,
{
    let mut s = String::from_str("https://github.com/");
    s.append(upstream_name);
    s.append(".git");
    s
}

} // verus!
