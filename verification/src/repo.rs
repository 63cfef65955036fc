//! Tracked repositories: how one was discovered and the record the system
//! keeps of it. Paths and timestamps are carried as plain values; the
//! filesystem and the clock stay outside the library.

use vstd::prelude::*;
use vstd::string::StringExecFns;

use crate::host::HostId;
use crate::remote::{clone_opt_string, opt_str_view};
use crate::text::{find_char, str_to_chars, vec_range, vec_skip, chars_to_string, str_eq};

verus! {

/// Unique identifier of a repository, the 128 bits of a UUID.
#[derive(Debug, Clone, Copy, PartialEq, Eq, Hash, Structural)]
pub struct RepoId(pub u128);

impl RepoId {
    pub fn new() -> (r: Self) {
        RepoId(crate::sys::fresh_uuid())
    }

    pub fn from_uuid(id: u128) -> (r: Self)
        ensures
            r.0 == id,
    {
        RepoId(id)
    }
}

/// How a repository was discovered.
#[derive(Debug, Clone, Copy, PartialEq, Eq, Structural)]
pub enum DiscoverySource {
    /// Found via API query.
    Api,
    /// Found via local filesystem scan.
    Filesystem,
    /// Manually added by user.
    Manual,
}

/// The textual name of a discovery source.
pub open spec fn discovery_source_text(d: DiscoverySource) -> Seq<char> {
    match d {
        DiscoverySource::Api => "api"@,
        DiscoverySource::Filesystem => "filesystem"@,
        DiscoverySource::Manual => "manual"@,
    }
}

/// The discovery source a name denotes, if any.
pub open spec fn discovery_source_of_text(t: Seq<char>) -> Option<DiscoverySource> {
    if t == "api"@ {
        Some(DiscoverySource::Api)
    } else if t == "filesystem"@ {
        Some(DiscoverySource::Filesystem)
    } else if t == "manual"@ {
        Some(DiscoverySource::Manual)
    } else {
        None
    }
}

impl DiscoverySource {
    /// The name of this discovery source.
    pub fn as_str(&self) -> (r: &'static str)
        ensures
            r@ == discovery_source_text(*self),
    {
        match self {
            DiscoverySource::Api => "api",
            DiscoverySource::Filesystem => "filesystem",
            DiscoverySource::Manual => "manual",
        }
    }

    /// The discovery source the given name denotes.
    pub fn parse(s: &str) -> (r: Result<DiscoverySource, String>)
        ensures
            match discovery_source_of_text(s@) {
                Some(d) => r matches Ok(d2) && d2 == d,
                None => r matches Err(m) && m@ == "unknown discovery source: "@ + s@,
            },
    {
        if str_eq(s, "api") {
            Ok(DiscoverySource::Api)
        } else if str_eq(s, "filesystem") {
            Ok(DiscoverySource::Filesystem)
        } else if str_eq(s, "manual") {
            Ok(DiscoverySource::Manual)
        } else {
            let mut m = String::from_str("unknown discovery source: ");
            m.append(s);
            Err(m)
        }
    }
}

impl core::str::FromStr for DiscoverySource {
    type Err = String;

    fn from_str(s: &str) -> Result<DiscoverySource, String> {
        DiscoverySource::parse(s)
    }
}

/// A tracked repository.
#[derive(Debug)]
pub struct Repo {
    pub id: RepoId,
    pub full_name: String,
    pub owner: String,
    pub name: String,
    pub host_id: HostId,
    pub clone_url: String,
    pub local_path: Option<String>,
    pub is_fork: bool,
    pub upstream_repo_id: Option<RepoId>,
    pub upstream_full_name: Option<String>,
    pub default_branch: String,
    pub discovery_source: DiscoverySource,
    pub last_synced_at: Option<i64>,
    pub created_at: i64,
}

/// The mathematical content of a `Repo`.
pub struct RepoView {
    pub id: RepoId,
    pub full_name: Seq<char>,
    pub owner: Seq<char>,
    pub name: Seq<char>,
    pub host_id: HostId,
    pub clone_url: Seq<char>,
    pub local_path: Option<Seq<char>>,
    pub is_fork: bool,
    pub upstream_repo_id: Option<RepoId>,
    pub upstream_full_name: Option<Seq<char>>,
    pub default_branch: Seq<char>,
    pub discovery_source: DiscoverySource,
    pub last_synced_at: Option<i64>,
    pub created_at: i64,
}

impl View for Repo {
    type V = RepoView;

    open spec fn view(&self) -> RepoView {
        RepoView {
            id: self.id,
            full_name: self.full_name@,
            owner: self.owner@,
            name: self.name@,
            host_id: self.host_id,
            clone_url: self.clone_url@,
            local_path: opt_str_view(self.local_path),
            is_fork: self.is_fork,
            upstream_repo_id: self.upstream_repo_id,
            upstream_full_name: opt_str_view(self.upstream_full_name),
            default_branch: self.default_branch@,
            discovery_source: self.discovery_source,
            last_synced_at: self.last_synced_at,
            created_at: self.created_at,
        }
    }
}

impl Clone for Repo {
    fn clone(&self) -> (res: Self)
        ensures
            res@ == self@,
    {
        Repo {
            id: self.id,
            full_name: self.full_name.clone(),
            owner: self.owner.clone(),
            name: self.name.clone(),
            host_id: self.host_id,
            clone_url: self.clone_url.clone(),
            local_path: clone_opt_string(&self.local_path),
            is_fork: self.is_fork,
            upstream_repo_id: self.upstream_repo_id,
            upstream_full_name: clone_opt_string(&self.upstream_full_name),
            default_branch: self.default_branch.clone(),
            discovery_source: self.discovery_source,
            last_synced_at: self.last_synced_at,
            created_at: self.created_at,
        }
    }
}

/// The owner part of a `owner/name` full name: what stands before the first
/// slash, empty when there is none.
pub open spec fn owner_of(full: Seq<char>) -> Seq<char> {
    match full.index_of_first('/') {
        Some(i) => full.take(i),
        None => Seq::empty(),
    }
}

/// The name part of a `owner/name` full name: what stands after the first
/// slash, or the whole text when there is none.
pub open spec fn name_of(full: Seq<char>) -> Seq<char> {
    match full.index_of_first('/') {
        Some(i) => full.skip(i + 1),
        None => full,
    }
}

impl Repo {
    /// A new tracked repository, its owner and name split from the full
    /// name at the first slash.
    pub fn new(
        full_name: String,
        host_id: HostId,
        clone_url: String,
        default_branch: String,
        discovery_source: DiscoverySource,
    ) -> (r: Repo)
        ensures
            r.full_name@ == full_name@,
            r.owner@ == owner_of(full_name@),
            r.name@ == name_of(full_name@),
            r.host_id == host_id,
            r.clone_url@ == clone_url@,
            r.default_branch@ == default_branch@,
            r.discovery_source == discovery_source,
            r.local_path is None,
            !r.is_fork,
            r.upstream_repo_id is None,
            r.upstream_full_name is None,
            r.last_synced_at is None,
    {
        let cs = str_to_chars(full_name.as_str());
        let (owner, name) = match find_char(&cs, '/') {
            Some(i) => {
                let total = cs.len();
                proof {
                    cs@.index_of_first_ensures('/');
                    assert(i < total);
                }
                let o = vec_range(&cs, 0, i);
                let n = vec_skip(&cs, i + 1);
                (chars_to_string(&o), chars_to_string(&n))
            },
            None => (String::new(), full_name.clone()),
        };
        let now = crate::sys::now_millis();
        Repo {
            id: RepoId::new(),
            full_name,
            owner,
            name,
            host_id,
            clone_url,
            local_path: None,
            is_fork: false,
            upstream_repo_id: None,
            upstream_full_name: None,
            default_branch,
            discovery_source,
            last_synced_at: None,
            created_at: now,
        }
    }
}

/// The views of a repository list.
pub open spec fn repo_views(s: Seq<Repo>) -> Seq<RepoView> {
    s.map_values(|x: Repo| x@)
}

/// A repository answers to a target given as its full name or short name.
pub open spec fn repo_matches_target(r: RepoView, t: Seq<char>) -> bool {
    r.full_name == t || r.name == t
}

/// The first index at or after `i` of a repository answering to `t`.
pub open spec fn first_target_from(s: Seq<RepoView>, t: Seq<char>, i: int) -> Option<int>
    decreases s.len() - i,
{
    if i < 0 || i >= s.len() {
        None
    } else if repo_matches_target(s[i], t) {
        Some(i)
    } else {
        first_target_from(s, t, i + 1)
    }
}

proof fn lemma_first_target_skip(s: Seq<RepoView>, t: Seq<char>, m: int, idx: int)
    requires
        0 <= m <= idx <= s.len(),
        forall|j: int| m <= j < idx ==> !repo_matches_target(#[trigger] s[j], t),
    ensures
        first_target_from(s, t, m) == first_target_from(s, t, idx),
    decreases idx - m,
{
    if m < idx {
        lemma_first_target_skip(s, t, m + 1, idx);
    }
}

/// The first tracked repository whose full name or short name equals the
/// target, if any.
pub fn find_repo<'a>(repos: &'a Vec<Repo>, target: &str) -> (r: Option<&'a Repo>)
    ensures
        match first_target_from(repo_views(repos@), target@, 0) {
            Some(i) => r matches Some(rp) && rp@ == repo_views(repos@)[i],
            None => r is None,
        },
{
    let ghost views = repo_views(repos@);
    let mut i: usize = 0;
    while i < repos.len()
        invariant
            views == repo_views(repos@),
            views.len() == repos@.len(),
            i <= views.len(),
            forall|j: int| 0 <= j < i ==> !repo_matches_target(#[trigger] views[j], target@),
        decreases views.len() - i,
    {
        proof {
            assert(views[i as int] == repos@[i as int]@);
        }
        if str_eq(repos[i].full_name.as_str(), target) || str_eq(
            repos[i].name.as_str(),
            target,
        ) {
            proof {
                lemma_first_target_skip(views, target@, 0, i as int);
            }
            return Some(&repos[i]);
        }
        i = i + 1;
    }
    proof {
        lemma_first_target_skip(views, target@, 0, views.len() as int);
    }
    None
}

} // verus!
