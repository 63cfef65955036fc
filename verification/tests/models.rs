use gitr::config::{default_concurrency, default_max_scan_depth, default_merge_strategy, GitrConfig};
use gitr::error::GitrError;
use gitr::host::{Host, HostId, HostKind};
use gitr::repo::{DiscoverySource, Repo, RepoId};
use gitr::sync_link::{MergeStrategy, SyncDirection, SyncLink, SyncTrigger};
use gitr::sync_state::{SyncRecord, SyncStatus};

#[test]
fn test_config_defaults() {
    let config = GitrConfig::default();
    assert_eq!(config.sync_concurrency, 8);
    assert_eq!(config.max_scan_depth, 4);
    assert_eq!(config.default_merge_strategy, MergeStrategy::FastForward);
}

#[test]
fn test_config_default_helpers() {
    assert_eq!(default_merge_strategy(), MergeStrategy::FastForward);
    assert_eq!(default_concurrency(), 8);
    assert_eq!(default_max_scan_depth(), 4);
    assert_eq!(gitr::config::gitr_home_from("/home/u"), "/home/u/.gitr");
}

#[test]
fn test_host_kind_roundtrip() {
    let kinds = vec![
        HostKind::GitHub,
        HostKind::GitLab,
        HostKind::Gitea,
        HostKind::Bitbucket,
        HostKind::AzureDevOps,
    ];
    for kind in kinds {
        let s = kind.as_str();
        let parsed: HostKind = s.parse().unwrap();
        assert_eq!(kind, parsed);
    }
}

#[test]
fn test_host_kind_parse_variants() {
    assert_eq!("GitHub".parse::<HostKind>().unwrap(), HostKind::GitHub);
    assert_eq!("azure-devops".parse::<HostKind>().unwrap(), HostKind::AzureDevOps);
    assert_eq!("azuredevops".parse::<HostKind>().unwrap(), HostKind::AzureDevOps);
    assert_eq!(
        "sourcehut".parse::<HostKind>().unwrap_err(),
        "unknown host kind: sourcehut"
    );
}

#[test]
fn test_merge_strategy_roundtrip() {
    let strategies = vec![
        ("ff", MergeStrategy::FastForward),
        ("merge", MergeStrategy::Merge),
        ("rebase", MergeStrategy::Rebase),
        ("force_push", MergeStrategy::ForcePush),
    ];
    for (s, expected) in strategies {
        let parsed: MergeStrategy = s.parse().unwrap();
        assert_eq!(parsed, expected);
    }
}

#[test]
fn test_merge_strategy_spellings() {
    assert_eq!("fast_forward".parse::<MergeStrategy>().unwrap(), MergeStrategy::FastForward);
    assert_eq!("fast-forward".parse::<MergeStrategy>().unwrap(), MergeStrategy::FastForward);
    assert_eq!("force-push".parse::<MergeStrategy>().unwrap(), MergeStrategy::ForcePush);
    assert_eq!(
        "octopus".parse::<MergeStrategy>().unwrap_err(),
        "unknown merge strategy: octopus"
    );
}

#[test]
fn test_sync_status_roundtrip() {
    for status in [
        SyncStatus::Success,
        SyncStatus::PartialSuccess,
        SyncStatus::Failed,
        SyncStatus::Skipped,
    ] {
        let parsed: SyncStatus = status.as_str().parse().unwrap();
        assert_eq!(parsed, status);
    }
}

#[test]
fn test_discovery_source_roundtrip() {
    for src in [DiscoverySource::Api, DiscoverySource::Filesystem, DiscoverySource::Manual] {
        let parsed: DiscoverySource = src.as_str().parse().unwrap();
        assert_eq!(parsed, src);
    }
}

#[test]
fn test_host_new() {
    let host = Host::new("gh".to_string(), HostKind::GitHub, "alice".to_string());
    assert_eq!(host.api_url, "https://api.github.com");
    assert_eq!(host.credential_key, "gitr:gh");
    assert_eq!(host.label, "gh");
    assert_eq!(host.username, "alice");
}

#[test]
fn test_repo_new_splits_full_name() {
    let repo = Repo::new(
        "alice/project".to_string(),
        HostId::from_uuid(7),
        "https://github.com/alice/project.git".to_string(),
        "main".to_string(),
        DiscoverySource::Api,
    );
    assert_eq!(repo.owner, "alice");
    assert_eq!(repo.name, "project");
    assert!(!repo.is_fork);
    assert!(repo.local_path.is_none());

    let bare = Repo::new(
        "standalone".to_string(),
        HostId::from_uuid(7),
        "https://example.com/standalone.git".to_string(),
        "main".to_string(),
        DiscoverySource::Manual,
    );
    assert_eq!(bare.owner, "");
    assert_eq!(bare.name, "standalone");
}

#[test]
fn test_find_repo_by_name_or_full_name() {
    let a = Repo::new(
        "alice/one".to_string(),
        HostId::from_uuid(1),
        "u".to_string(),
        "main".to_string(),
        DiscoverySource::Api,
    );
    let b = Repo::new(
        "bob/two".to_string(),
        HostId::from_uuid(1),
        "u".to_string(),
        "main".to_string(),
        DiscoverySource::Api,
    );
    let repos = vec![a, b];
    assert_eq!(gitr::repo::find_repo(&repos, "bob/two").unwrap().name, "two");
    assert_eq!(gitr::repo::find_repo(&repos, "one").unwrap().full_name, "alice/one");
    assert!(gitr::repo::find_repo(&repos, "three").is_none());
}

#[test]
fn test_sync_record_new() {
    let record = SyncRecord::new(RepoId::from_uuid(3));
    assert_eq!(record.branches_synced, 0);
    assert_eq!(record.branches_failed, 0);
    assert_eq!(record.commits_transferred, 0);
    assert_eq!(record.status, SyncStatus::Success);
    assert!(record.errors.is_empty());
}

#[test]
fn test_sync_link_new() {
    let link = SyncLink::new(
        RepoId::from_uuid(1),
        RepoId::from_uuid(2),
        SyncDirection::Pull,
        MergeStrategy::FastForward,
    );
    assert!(link.enabled);
    assert_eq!(link.trigger, SyncTrigger::Manual);
    assert_eq!(link.direction, SyncDirection::Pull);
}

#[test]
fn test_error_messages() {
    let e = GitrError::RateLimited { host: "github.com".to_string(), retry_after_secs: 60 };
    assert_eq!(e.describe(), "rate limited by github.com — retry after 60s");
    let e = GitrError::ApiError { status: 404, message: "missing".to_string() };
    assert_eq!(e.describe(), "API error (404): missing");
    let e = GitrError::FastForwardFailed {
        branch: "upstream/main".to_string(),
        message: "diverged".to_string(),
    };
    assert_eq!(e.describe(), "fast-forward failed on branch upstream/main: diverged");
    let e = GitrError::HostNotFound { label: "gh".to_string() };
    assert_eq!(e.describe(), "host not found: gh");
}

#[test]
fn test_error_messages_all_variants() {
    let cases: Vec<(GitrError, &str)> = vec![
        (
            GitrError::HostAlreadyExists { label: "gh".into() },
            "host already exists: gh",
        ),
        (GitrError::RepoNotFound { name: "a/b".into() }, "repo not found: a/b"),
        (
            GitrError::AuthFailed { host: "gh".into(), message: "denied".into() },
            "authentication failed for host gh: denied",
        ),
        (
            GitrError::GitError { message: "boom".into() },
            "git error: boom",
        ),
        (
            GitrError::MergeConflict { branch: "b".into(), message: "m".into() },
            "merge conflict on branch b: m",
        ),
        (
            GitrError::SyncLinkNotFound { id: "42".into() },
            "sync link not found: 42",
        ),
        (
            GitrError::CollectionNotFound { name: "c".into() },
            "collection not found: c",
        ),
        (
            GitrError::ProviderNotImplemented { kind: "gitea".into() },
            "provider not implemented: gitea",
        ),
        (
            GitrError::PathNotFound { path: "/x/y".into() },
            "path not found: /x/y",
        ),
        (
            GitrError::Config { message: "bad".into() },
            "config error: bad",
        ),
        (GitrError::Database("locked".into()), "database error: locked"),
        (GitrError::Io("denied".into()), "io error: denied"),
        (
            GitrError::Serialization("truncated".into()),
            "serialization error: truncated",
        ),
        (
            GitrError::CredentialError { message: "no keychain".into() },
            "credential error: no keychain",
        ),
        (GitrError::Other("odd".into()), "odd"),
    ];
    for (e, expected) in cases {
        assert_eq!(e.describe(), expected);
    }
}

#[test]
fn test_sync_trigger_label() {
    assert_eq!(SyncTrigger::Manual.label(), "manual");
    assert_eq!(SyncTrigger::Schedule { cron: "0 3 * * *".to_string() }.label(), "schedule:0 3 * * *");
    assert_eq!(SyncTrigger::Always.label(), "always");
}
