use gitr::reconcile::{reconcile, RepoMatch};
use gitr::scanner::{is_skip_dir, parse_git_config, ScannedRemote, ScannedRepo};
use gitr::urls::normalize_url;

fn remote_repo(full_name: &str, clone_url: &str, ssh_url: &str) -> gitr::remote::RemoteRepo {
    gitr::remote::RemoteRepo {
        full_name: full_name.to_string(),
        owner: full_name.split('/').next().unwrap_or("").to_string(),
        name: full_name.split('/').nth(1).unwrap_or(full_name).to_string(),
        clone_url: clone_url.to_string(),
        ssh_url: ssh_url.to_string(),
        default_branch: "main".to_string(),
        is_fork: false,
        upstream_full_name: None,
        upstream_clone_url: None,
        description: None,
        is_private: false,
        is_archived: false,
        updated_at: None,
    }
}

#[test]
fn test_normalize_url() {
    assert_eq!(
        normalize_url("https://github.com/user/repo.git"),
        "github.com/user/repo"
    );
    assert_eq!(
        normalize_url("git@github.com:user/repo.git"),
        "github.com/user/repo"
    );
    assert_eq!(
        normalize_url("ssh://git@github.com/user/repo"),
        "github.com/user/repo"
    );
}

#[test]
fn test_normalize_url_case_and_slashes() {
    assert_eq!(
        normalize_url("HTTPS://GitHub.com/User/Repo.GIT"),
        "github.com/user/repo"
    );
    assert_eq!(normalize_url("git://host/a/b///"), "host/a/b");
    assert_eq!(normalize_url("http://host/a/b"), "host/a/b");
}

#[test]
fn test_normalize_url_idempotent_on_examples() {
    let inputs = [
        "https://github.com/user/repo.git",
        "git@github.com:user/repo.git",
        "ssh://git@github.com/user/repo",
        "HTTPS://GitHub.com/User/Repo.GIT",
        "host:path/elsewhere",
        "plain/path/",
        "",
    ];
    for x in inputs {
        let once = normalize_url(x);
        let twice = normalize_url(&once);
        assert_eq!(once, twice);
    }
}

#[test]
fn test_reconcile() {
    let local = vec![ScannedRepo {
        path: "/repos/myrepo".into(),
        remotes: vec![ScannedRemote {
            name: "origin".to_string(),
            url: "https://github.com/user/myrepo.git".to_string(),
        }],
    }];

    let remote = vec![
        gitr::remote::RemoteRepo {
            full_name: "user/myrepo".to_string(),
            owner: "user".to_string(),
            name: "myrepo".to_string(),
            clone_url: "https://github.com/user/myrepo.git".to_string(),
            ssh_url: "git@github.com:user/myrepo.git".to_string(),
            default_branch: "main".to_string(),
            is_fork: false,
            upstream_full_name: None,
            upstream_clone_url: None,
            description: None,
            is_private: false,
            is_archived: false,
            updated_at: None,
        },
        gitr::remote::RemoteRepo {
            full_name: "user/other".to_string(),
            owner: "user".to_string(),
            name: "other".to_string(),
            clone_url: "https://github.com/user/other.git".to_string(),
            ssh_url: "git@github.com:user/other.git".to_string(),
            default_branch: "main".to_string(),
            is_fork: true,
            upstream_full_name: Some("upstream/other".to_string()),
            upstream_clone_url: None,
            description: None,
            is_private: false,
            is_archived: false,
            updated_at: None,
        },
    ];

    let result = reconcile(&local, &remote, "gh");
    assert_eq!(result.matched_count(), 1);
    assert_eq!(result.local_only_count(), 0);
    assert_eq!(result.remote_only_count(), 1);
}

#[test]
fn test_reconcile_match() {
    let local = vec![ScannedRepo {
        path: "/home/user/repos/myrepo".into(),
        remotes: vec![ScannedRemote {
            name: "origin".to_string(),
            url: "https://github.com/user/myrepo.git".to_string(),
        }],
    }];
    let remote = vec![gitr::remote::RemoteRepo {
        full_name: "user/myrepo".to_string(),
        owner: "user".to_string(),
        name: "myrepo".to_string(),
        clone_url: "https://github.com/user/myrepo.git".to_string(),
        ssh_url: "git@github.com:user/myrepo.git".to_string(),
        default_branch: "main".to_string(),
        is_fork: false,
        upstream_full_name: None,
        upstream_clone_url: None,
        description: None,
        is_private: false,
        is_archived: false,
        updated_at: None,
    }];

    let result = reconcile(&local, &remote, "gh");
    assert_eq!(result.matched_count(), 1);
    assert_eq!(result.local_only_count(), 0);
    assert_eq!(result.remote_only_count(), 0);
}

#[test]
fn test_reconcile_disjoint_sets() {
    let local = vec![
        ScannedRepo {
            path: "/r/a".into(),
            remotes: vec![ScannedRemote {
                name: "origin".to_string(),
                url: "https://host.one/x/a.git".to_string(),
            }],
        },
        ScannedRepo {
            path: "/r/b".into(),
            remotes: vec![ScannedRemote {
                name: "origin".to_string(),
                url: "https://host.one/x/b.git".to_string(),
            }],
        },
    ];
    let remote = vec![
        remote_repo("y/c", "https://host.two/y/c.git", "git@host.two:y/c.git"),
        remote_repo("y/d", "https://host.two/y/d.git", "git@host.two:y/d.git"),
        remote_repo("y/e", "https://host.two/y/e.git", "git@host.two:y/e.git"),
    ];
    let result = reconcile(&local, &remote, "gh");
    assert_eq!(result.matched_count(), 0);
    assert_eq!(result.local_only_count(), 2);
    assert_eq!(result.remote_only_count(), 3);
}

#[test]
fn test_reconcile_three_way_classification() {
    // L1 matches A, L2 matches B, L3 matches nothing; C stays remote-only.
    let local = vec![
        ScannedRepo {
            path: "/r/l1".into(),
            remotes: vec![ScannedRemote {
                name: "origin".to_string(),
                url: "https://github.com/acct/a.git".to_string(),
            }],
        },
        ScannedRepo {
            path: "/r/l2".into(),
            remotes: vec![ScannedRemote {
                name: "origin".to_string(),
                url: "git@github.com:acct/b.git".to_string(),
            }],
        },
        ScannedRepo {
            path: "/r/l3".into(),
            remotes: vec![ScannedRemote {
                name: "origin".to_string(),
                url: "https://elsewhere.example/unlisted.git".to_string(),
            }],
        },
    ];
    let remote = vec![
        remote_repo("acct/a", "https://github.com/acct/a.git", "git@github.com:acct/a.git"),
        remote_repo("acct/b", "https://github.com/acct/b.git", "git@github.com:acct/b.git"),
        remote_repo("acct/c", "https://github.com/acct/c.git", "git@github.com:acct/c.git"),
    ];
    let result = reconcile(&local, &remote, "gh");
    assert_eq!(result.matched_count(), 2);
    assert_eq!(result.local_only_count(), 1);
    assert_eq!(result.remote_only_count(), 1);
    match result.matches.last().unwrap() {
        RepoMatch::RemoteOnly(r) => assert_eq!(r.full_name, "acct/c"),
        other => panic!("expected RemoteOnly for acct/c, got {:?}", other),
    }
}

#[test]
fn test_reconcile_first_match_not_one_to_one() {
    // One listed repository can satisfy several locals; it is only
    // excluded from remote-only classification.
    let local = vec![
        ScannedRepo {
            path: "/r/one".into(),
            remotes: vec![ScannedRemote {
                name: "origin".to_string(),
                url: "https://github.com/acct/same.git".to_string(),
            }],
        },
        ScannedRepo {
            path: "/r/two".into(),
            remotes: vec![ScannedRemote {
                name: "origin".to_string(),
                url: "git@github.com:acct/same.git".to_string(),
            }],
        },
    ];
    let remote = vec![remote_repo(
        "acct/same",
        "https://github.com/acct/same.git",
        "git@github.com:acct/same.git",
    )];
    let result = reconcile(&local, &remote, "gh");
    assert_eq!(result.matched_count(), 2);
    assert_eq!(result.local_only_count(), 0);
    assert_eq!(result.remote_only_count(), 0);
}

#[test]
fn test_parse_git_config() {
    let content = "[core]\n\trepositoryformatversion = 0\n\tbare = false\n[remote \"origin\"]\n\turl = https://github.com/user/repo.git\n\tfetch = +refs/heads/*:refs/remotes/origin/*\n[remote \"upstream\"]\n\turl = https://github.com/upstream/repo.git\n\tfetch = +refs/heads/*:refs/remotes/upstream/*\n[branch \"main\"]\n\tremote = origin\n";
    let remotes = parse_git_config(content);
    assert_eq!(remotes.len(), 2);
    assert_eq!(remotes[0].name, "origin");
    assert!(remotes[0].url.contains("user/repo"));
    assert_eq!(remotes[1].name, "upstream");
}

#[test]
fn test_parse_git_config_no_urls() {
    let content = "[core]\n\tbare = false\n[remote \"origin\"]\n\tfetch = +refs/heads/*\n";
    let remotes = parse_git_config(content);
    assert!(remotes.is_empty());
}

#[test]
fn test_parse_git_config_section_closes_context() {
    let content =
        "[remote \"origin\"]\n[branch \"main\"]\n\turl = https://nope.example/x.git\n";
    let remotes = parse_git_config(content);
    assert!(remotes.is_empty());
}

#[test]
fn test_parse_git_config_short_header_yields_empty_name() {
    // A header too short to hold both delimiters opens a remote whose name
    // is empty.
    let content = "[remote \"]\n\turl = https://example.com/x.git\n";
    let remotes = parse_git_config(content);
    assert_eq!(remotes.len(), 1);
    assert_eq!(remotes[0].name, "");
    assert_eq!(remotes[0].url, "https://example.com/x.git");
}

#[test]
fn test_parse_git_config_trims_values() {
    let content = "  [remote \"origin\"]  \n   url =   https://example.com/y.git   \n";
    let remotes = parse_git_config(content);
    assert_eq!(remotes.len(), 1);
    assert_eq!(remotes[0].name, "origin");
    assert_eq!(remotes[0].url, "https://example.com/y.git");
}

#[test]
fn test_skip_dirs() {
    for name in ["node_modules", "target", "vendor", ".git", "__pycache__", ".venv", "venv"] {
        assert!(is_skip_dir(name));
    }
    assert!(!is_skip_dir("src"));
    assert!(!is_skip_dir("my-project"));
}
