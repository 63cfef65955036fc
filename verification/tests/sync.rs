use gitr::engine::{summarize, SyncEngine};
use gitr::fork_sync::{
    default_upstream_url, ForkSyncMachine, ForkSyncResult, GitCommand, SyncStep,
};
use gitr::git_ops::{self, GitOutput};
use gitr::host::HostId;
use gitr::repo::{DiscoverySource, Repo, RepoId};
use gitr::sync_link::MergeStrategy;
use gitr::sync_state::{SyncRecord, SyncStatus};

fn ok(stdout: &str) -> GitOutput {
    GitOutput { stdout: stdout.to_string(), stderr: String::new(), success: true }
}

fn fail(stderr: &str) -> GitOutput {
    GitOutput { stdout: String::new(), stderr: stderr.to_string(), success: false }
}

fn fork() -> Repo {
    let mut repo = Repo::new(
        "alice/fork".to_string(),
        HostId::from_uuid(1),
        "https://github.com/alice/fork.git".to_string(),
        "main".to_string(),
        DiscoverySource::Api,
    );
    repo.is_fork = true;
    repo.upstream_full_name = Some("up/fork".to_string());
    repo
}

fn expect_run(step: SyncStep) -> GitCommand {
    match step {
        SyncStep::Run(c) => c,
        SyncStep::Done(res) => panic!("expected a command, run finished: {:?}", res.record),
    }
}

fn expect_done(step: SyncStep) -> ForkSyncResult {
    match step {
        SyncStep::Done(res) => res,
        SyncStep::Run(c) => panic!("expected the run to finish, got command {:?}", c),
    }
}

#[test]
fn test_dry_run_only_reads_and_skips() {
    let repo = fork();
    let (mut m, first) = ForkSyncMachine::start(
        &repo,
        "https://github.com/up/fork.git",
        "/base",
        &MergeStrategy::Merge,
        true,
    );
    assert!(matches!(first, GitCommand::CheckRepoDir { .. }));
    let step = m.on_dir_checked(true);
    let c = expect_run(step);
    assert!(matches!(c, GitCommand::ListRemotes { .. }));
    let c = expect_run(m.on_output(&ok("origin\n")));
    assert!(matches!(c, GitCommand::CountRange { .. }));
    let res = expect_done(m.on_output(&ok("7\n")));
    assert!(res.dry_run);
    assert_eq!(res.record.status, SyncStatus::Skipped);
    assert_eq!(res.record.commits_transferred, 7);
}

#[test]
fn test_dry_run_without_clone_skips_immediately() {
    let repo = fork();
    let (mut m, _) = ForkSyncMachine::start(
        &repo,
        "https://github.com/up/fork.git",
        "/base",
        &MergeStrategy::FastForward,
        true,
    );
    let res = expect_done(m.on_dir_checked(false));
    assert_eq!(res.record.status, SyncStatus::Skipped);
    assert_eq!(res.record.commits_transferred, 0);
}

#[test]
fn test_dry_run_listing_failure_is_still_reported() {
    // The only failure a dry run can hit: listing the configured remotes.
    let repo = fork();
    let (mut m, _) = ForkSyncMachine::start(
        &repo,
        "https://github.com/up/fork.git",
        "/base",
        &MergeStrategy::FastForward,
        true,
    );
    expect_run(m.on_dir_checked(true));
    let res = expect_done(m.on_output(&fail("not a git repository")));
    assert_eq!(res.record.status, SyncStatus::Failed);
    assert_eq!(res.record.errors, vec!["git error: git remote failed: not a git repository"]);
}

#[test]
fn test_dry_run_unreadable_count_is_zero() {
    let repo = fork();
    let (mut m, _) = ForkSyncMachine::start(
        &repo,
        "https://github.com/up/fork.git",
        "/base",
        &MergeStrategy::FastForward,
        true,
    );
    expect_run(m.on_dir_checked(true));
    expect_run(m.on_output(&ok("origin\n")));
    let res = expect_done(m.on_output(&fail("unknown revision")));
    assert_eq!(res.record.status, SyncStatus::Skipped);
    assert_eq!(res.record.commits_transferred, 0);
}

#[test]
fn test_live_uncountable_divergence_counts_as_zero() {
    // A failing rev-list is treated as zero commits behind: the live run
    // ends up to date instead of failing.
    let repo = fork();
    let (mut m, _) = ForkSyncMachine::start(
        &repo,
        "https://github.com/up/fork.git",
        "/base",
        &MergeStrategy::FastForward,
        false,
    );
    expect_run(m.on_dir_checked(true));
    expect_run(m.on_output(&ok("origin\nupstream\n")));
    expect_run(m.on_output(&ok("")));
    let res = expect_done(m.on_output(&fail("unknown revision")));
    assert_eq!(res.record.status, SyncStatus::Success);
    assert_eq!(res.record.commits_transferred, 0);
    assert_eq!(res.record.branches_synced, 1);
}

#[test]
fn test_live_up_to_date_is_success_without_merge_or_push() {
    let repo = fork();
    let (mut m, _) = ForkSyncMachine::start(
        &repo,
        "https://github.com/up/fork.git",
        "/base",
        &MergeStrategy::FastForward,
        false,
    );
    expect_run(m.on_dir_checked(true));
    let c = expect_run(m.on_output(&ok("origin\nupstream\n")));
    assert!(matches!(c, GitCommand::FetchPrune { .. }));
    let c = expect_run(m.on_output(&ok("")));
    assert!(matches!(c, GitCommand::CountRange { .. }));
    let res = expect_done(m.on_output(&ok("0\n")));
    assert_eq!(res.record.status, SyncStatus::Success);
    assert_eq!(res.record.commits_transferred, 0);
    assert_eq!(res.record.branches_synced, 1);
}

#[test]
fn test_fast_forward_failure_is_tagged() {
    let repo = fork();
    let (mut m, _) = ForkSyncMachine::start(
        &repo,
        "https://github.com/up/fork.git",
        "/base",
        &MergeStrategy::FastForward,
        false,
    );
    expect_run(m.on_dir_checked(true));
    expect_run(m.on_output(&ok("origin\nupstream\n")));
    expect_run(m.on_output(&ok("")));
    let c = expect_run(m.on_output(&ok("3\n")));
    assert!(matches!(c, GitCommand::Checkout { .. }));
    let c = expect_run(m.on_output(&ok("")));
    assert!(matches!(c, GitCommand::MergeFastForward { .. }));
    let res = expect_done(m.on_output(&fail("Not possible to fast-forward")));
    assert_eq!(res.record.status, SyncStatus::Failed);
    assert_eq!(res.record.branches_failed, 1);
    assert_eq!(res.record.branches_synced, 0);
    assert_eq!(
        res.record.errors,
        vec!["fast-forward failed on branch upstream/main: Not possible to fast-forward"]
    );
}

#[test]
fn test_live_merge_path_pushes_and_reports_commits() {
    let repo = fork();
    let (mut m, _) = ForkSyncMachine::start(
        &repo,
        "https://github.com/up/fork.git",
        "/base",
        &MergeStrategy::Merge,
        false,
    );
    // No clone yet: a live run clones first.
    let c = expect_run(m.on_dir_checked(false));
    match c {
        GitCommand::Clone { url, dest } => {
            assert_eq!(url, "https://github.com/alice/fork.git");
            assert_eq!(dest, "/base/fork");
        }
        other => panic!("expected a clone, got {:?}", other),
    }
    // Upstream missing: it is added before fetching.
    let c = expect_run(m.on_output(&ok("")));
    assert!(matches!(c, GitCommand::ListRemotes { .. }));
    let c = expect_run(m.on_output(&ok("origin\n")));
    match c {
        GitCommand::AddRemote { name, url, .. } => {
            assert_eq!(name, "upstream");
            assert_eq!(url, "https://github.com/up/fork.git");
        }
        other => panic!("expected remote add, got {:?}", other),
    }
    let c = expect_run(m.on_output(&ok("")));
    assert!(matches!(c, GitCommand::FetchPrune { .. }));
    let c = expect_run(m.on_output(&ok("")));
    match c {
        GitCommand::CountRange { from, to, .. } => {
            assert_eq!(from, "main");
            assert_eq!(to, "upstream/main");
        }
        other => panic!("expected a count, got {:?}", other),
    }
    let c = expect_run(m.on_output(&ok("5\n")));
    assert!(matches!(c, GitCommand::Checkout { .. }));
    let c = expect_run(m.on_output(&ok("")));
    assert!(matches!(c, GitCommand::MergeNoEdit { .. }));
    let c = expect_run(m.on_output(&ok("")));
    match c {
        GitCommand::Push { remote, branch, .. } => {
            assert_eq!(remote, "origin");
            assert_eq!(branch, "main");
        }
        other => panic!("expected a push, got {:?}", other),
    }
    let res = expect_done(m.on_output(&ok("")));
    assert_eq!(res.record.status, SyncStatus::Success);
    assert_eq!(res.record.commits_transferred, 5);
    assert_eq!(res.record.branches_synced, 1);
}

#[test]
fn test_rebase_failure_aborts_then_reports_conflict() {
    let repo = fork();
    let (mut m, _) = ForkSyncMachine::start(
        &repo,
        "https://github.com/up/fork.git",
        "/base",
        &MergeStrategy::Rebase,
        false,
    );
    expect_run(m.on_dir_checked(true));
    expect_run(m.on_output(&ok("origin\nupstream\n")));
    expect_run(m.on_output(&ok("")));
    expect_run(m.on_output(&ok("2\n")));
    let c = expect_run(m.on_output(&ok("")));
    assert!(matches!(c, GitCommand::Rebase { .. }));
    let c = expect_run(m.on_output(&fail("could not apply 1234abc")));
    assert!(matches!(c, GitCommand::RebaseAbort { .. }));
    let res = expect_done(m.on_output(&ok("")));
    assert_eq!(res.record.status, SyncStatus::Failed);
    assert_eq!(
        res.record.errors,
        vec!["merge conflict on branch upstream/main: could not apply 1234abc"]
    );
}

#[test]
fn test_force_push_resets_hard() {
    let repo = fork();
    let (mut m, _) = ForkSyncMachine::start(
        &repo,
        "https://github.com/up/fork.git",
        "/base",
        &MergeStrategy::ForcePush,
        false,
    );
    expect_run(m.on_dir_checked(true));
    expect_run(m.on_output(&ok("origin\nupstream\n")));
    expect_run(m.on_output(&ok("")));
    expect_run(m.on_output(&ok("4\n")));
    let c = expect_run(m.on_output(&ok("")));
    assert!(matches!(c, GitCommand::Checkout { .. }));
    let c = expect_run(m.on_output(&ok("")));
    assert!(matches!(c, GitCommand::ResetHard { .. }));
    let c = expect_run(m.on_output(&ok("")));
    assert!(matches!(c, GitCommand::Push { .. }));
    let res = expect_done(m.on_output(&ok("")));
    assert_eq!(res.record.status, SyncStatus::Success);
    assert_eq!(res.record.commits_transferred, 4);
}

#[test]
fn test_exec_error_fails_the_run() {
    let repo = fork();
    let (mut m, _) = ForkSyncMachine::start(
        &repo,
        "https://github.com/up/fork.git",
        "/base",
        &MergeStrategy::Merge,
        false,
    );
    expect_run(m.on_dir_checked(false));
    let res = expect_done(m.on_exec_error("failed to run git clone: no such binary"));
    assert_eq!(res.record.status, SyncStatus::Failed);
    assert_eq!(res.record.errors, vec!["git error: failed to run git clone: no such binary"]);
}

#[test]
fn test_git_output_interpretation() {
    assert_eq!(git_ops::rev_list_count(&ok("42\n")).unwrap(), 42);
    assert_eq!(git_ops::rev_list_count(&ok("nonsense")).unwrap(), 0);
    // A failed count is best effort: it denotes zero, never an error.
    assert_eq!(git_ops::rev_list_count(&fail("boom")).unwrap(), 0);

    assert!(git_ops::remote_add("upstream", &fail("error: remote upstream already exists.")).is_ok());
    let e = git_ops::remote_add("upstream", &fail("permission denied")).unwrap_err();
    assert_eq!(e.describe(), "git error: failed to add remote upstream: permission denied");

    let names = git_ops::remote_list(&ok(" origin \n\nupstream\n")).unwrap();
    assert_eq!(names, vec!["origin", "upstream"]);

    assert_eq!(git_ops::current_branch(&ok("main\n")).unwrap(), "main");
    assert_eq!(git_ops::rev_parse(&ok("abc123\n")).unwrap(), Some("abc123".to_string()));
    assert_eq!(git_ops::rev_parse(&fail("unknown revision")).unwrap(), None);
}

#[test]
fn test_default_upstream_url() {
    assert_eq!(default_upstream_url("torvalds/linux"), "https://github.com/torvalds/linux.git");
}

fn result_named(name: &str, status: SyncStatus) -> ForkSyncResult {
    let mut record = SyncRecord::new(RepoId::from_uuid(9));
    record.status = status;
    ForkSyncResult { repo_full_name: name.to_string(), record, dry_run: false }
}

#[test]
fn test_batch_concurrency_limit_and_result_pairing() {
    let engine = SyncEngine::new(2);
    let mut batch = engine.new_batch(5);
    let names = ["r0", "r1", "r2", "r3", "r4"];
    let mut max_active = 0usize;
    let mut running: Vec<usize> = Vec::new();
    let mut finished = 0usize;
    // Alternate dispatch and completion; two of the five units fail.
    while finished < 5 {
        while let Some(i) = batch.try_dispatch() {
            running.push(i);
            if running.len() > max_active {
                max_active = running.len();
            }
        }
        assert!(running.len() <= 2);
        let i = running.remove(0);
        let status = if i == 1 || i == 3 { SyncStatus::Failed } else { SyncStatus::Success };
        batch.record_result(i, result_named(names[i], status));
        finished += 1;
    }
    assert!(batch.is_complete());
    assert_eq!(max_active, 2);
    let results = batch.into_results();
    assert_eq!(results.len(), 5);
    for (i, res) in results.iter().enumerate() {
        assert_eq!(res.repo_full_name, names[i]);
    }
    let (success, failed, skipped) = summarize(&results);
    assert_eq!(success, 3);
    assert_eq!(failed, 2);
    assert_eq!(skipped, 0);
}
