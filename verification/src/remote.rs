//! Descriptors for repositories and related data as a hosting service's API
//! reports them. The HTTP clients that fill these live outside the library;
//! timestamps are carried as milliseconds since the Unix epoch.

use vstd::prelude::*;

verus! {

/// A repository as returned by a hosting API.
#[derive(Debug)]
pub struct RemoteRepo {
    pub full_name: String,
    pub owner: String,
    pub name: String,
    pub clone_url: String,
    pub ssh_url: String,
    pub default_branch: String,
    pub is_fork: bool,
    pub upstream_full_name: Option<String>,
    pub upstream_clone_url: Option<String>,
    pub description: Option<String>,
    pub is_private: bool,
    pub is_archived: bool,
    pub updated_at: Option<i64>,
}

/// The mathematical content of a `RemoteRepo`.
pub struct RemoteRepoView {
    pub full_name: Seq<char>,
    pub owner: Seq<char>,
    pub name: Seq<char>,
    pub clone_url: Seq<char>,
    pub ssh_url: Seq<char>,
    pub default_branch: Seq<char>,
    pub is_fork: bool,
    pub upstream_full_name: Option<Seq<char>>,
    pub upstream_clone_url: Option<Seq<char>>,
    pub description: Option<Seq<char>>,
    pub is_private: bool,
    pub is_archived: bool,
    pub updated_at: Option<i64>,
}

/// The view of an optional string.
pub open spec fn opt_str_view(s: Option<String>) -> Option<Seq<char>> {
    match s {
        Some(x) => Some(x@),
        None => None,
    }
}

impl View for RemoteRepo {
    type V = RemoteRepoView;

    open spec fn view(&self) -> RemoteRepoView {
        RemoteRepoView {
            full_name: self.full_name@,
            owner: self.owner@,
            name: self.name@,
            clone_url: self.clone_url@,
            ssh_url: self.ssh_url@,
            default_branch: self.default_branch@,
            is_fork: self.is_fork,
            upstream_full_name: opt_str_view(self.upstream_full_name),
            upstream_clone_url: opt_str_view(self.upstream_clone_url),
            description: opt_str_view(self.description),
            is_private: self.is_private,
            is_archived: self.is_archived,
            updated_at: self.updated_at,
        }
    }
}

/// An owned copy of an optional string, holding the same characters.
pub fn clone_opt_string(s: &Option<String>) -> (res: Option<String>)
    ensures
        opt_str_view(res) == opt_str_view(*s),
{
    match s {
        Some(x) => Some(x.clone()),
        None => None,
    }
}

impl Clone for RemoteRepo {
    fn clone(&self) -> (res: Self)
        ensures
            res@ == self@,
    {
        RemoteRepo {
            full_name: self.full_name.clone(),
            owner: self.owner.clone(),
            name: self.name.clone(),
            clone_url: self.clone_url.clone(),
            ssh_url: self.ssh_url.clone(),
            default_branch: self.default_branch.clone(),
            is_fork: self.is_fork,
            upstream_full_name: clone_opt_string(&self.upstream_full_name),
            upstream_clone_url: clone_opt_string(&self.upstream_clone_url),
            description: clone_opt_string(&self.description),
            is_private: self.is_private,
            is_archived: self.is_archived,
            updated_at: self.updated_at,
        }
    }
}

/// A branch as returned by a hosting API.
#[derive(Debug, Clone)]
pub struct RemoteBranch {
    pub name: String,
    pub sha: String,
    pub is_default: bool,
}

/// Fork sync status of a single branch.
#[derive(Debug, Clone)]
pub struct ForkSyncStatus {
    pub branch: String,
    pub behind_by: u32,
    pub ahead_by: u32,
}

/// Rate limit information of a hosting API.
#[derive(Debug, Clone)]
pub struct RateLimitInfo {
    pub limit: u32,
    pub remaining: u32,
    pub reset_at: i64,
}

} // verus!
