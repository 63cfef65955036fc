//! Top-level configuration and the well-known paths under the user's home
//! directory. Reading and writing the configuration file happens outside
//! the library; this module fixes the defaults and how the paths are built.

use vstd::prelude::*;
use vstd::string::StringExecFns;

use crate::error::GitrError;
use crate::sync_link::MergeStrategy;
use crate::text::ends_with;

verus! {

/// Default merge strategy for fork syncing.
pub fn default_merge_strategy() -> (r: MergeStrategy)
    ensures
        r == MergeStrategy::FastForward,
{
    MergeStrategy::FastForward
}

/// Default bound on concurrent sync operations.
pub fn default_concurrency() -> (r: usize)
    ensures
        r == 8,
{
    8
}

/// Default maximum directory depth for filesystem scanning.
pub fn default_max_scan_depth() -> (r: usize)
    ensures
        r == 4,
{
    4
}

/// Top-level configuration, stored at `~/.gitr/config.toml`.
#[derive(Debug, Clone)]
pub struct GitrConfig {
    /// Default merge strategy for fork syncing.
    pub default_merge_strategy: MergeStrategy,
    /// Maximum concurrent sync operations.
    pub sync_concurrency: usize,
    /// Default directories to scan for local repositories.
    pub scan_paths: Vec<String>,
    /// Maximum directory depth for filesystem scanning.
    pub max_scan_depth: usize,
}

impl Default for GitrConfig {
    /// The default configuration: fast-forward syncing, eight concurrent
    /// operations, no scan paths, scan depth four.
    fn default() -> (r: GitrConfig)
        ensures
            r.default_merge_strategy == MergeStrategy::FastForward,
            r.sync_concurrency == 8,
            r.scan_paths@.len() == 0,
            r.max_scan_depth == 4,
    {
        GitrConfig {
            default_merge_strategy: MergeStrategy::FastForward,
            sync_concurrency: 8,
            scan_paths: Vec::new(),
            max_scan_depth: 4,
        }
    }
}

/// The application directory under a given home directory.
pub fn gitr_home_from(base: &str) -> (r: String)
    ensures
        r@ == base@ + "/.gitr"@,
{
    let mut s = String::from_str(base);
    s.append("/.gitr");
    s
}

/// A suffix of the second operand stays a suffix of a concatenation.
proof fn lemma_ends_with_append(s: Seq<char>, p: Seq<char>, t: Seq<char>)
    requires
        ends_with(s, p),
    ensures
        ends_with(s + t, p + t),
{
    assert((s + t).subrange((s + t).len() - (p + t).len(), (s + t).len() as int) =~= p + t);
}

impl GitrConfig {
    /// The application's home directory (`~/.gitr`), or a configuration
    /// error when the environment defines no home directory.
    pub fn home_dir() -> (r: Result<String, GitrError>)
        ensures
            r matches Ok(h) ==> ends_with(h@, "/.gitr"@),
            r matches Err(e) ==> (e matches GitrError::Config { message } && message@
                == "could not determine home directory"@),
    {
        match crate::sys::home_dir_string() {
            Some(base) => {
                let h = gitr_home_from(base.as_str());
                proof {
                    assert(h@.subrange(h@.len() - "/.gitr"@.len(), h@.len() as int)
                        =~= "/.gitr"@);
                }
                Ok(h)
            },
            None => Err(
                GitrError::Config {
                    message: String::from_str("could not determine home directory"),
                },
            ),
        }
    }

    /// The path of the configuration file under the home directory.
    pub fn config_path() -> (r: Result<String, GitrError>)
        ensures
            r matches Ok(p) ==> ends_with(p@, "/.gitr/config.toml"@),
            r matches Err(e) ==> (e matches GitrError::Config { message } && message@
                == "could not determine home directory"@),
    {
        match Self::home_dir() {
            Ok(h) => {
                let ghost hv = h@;
                let mut p = h;
                p.append("/config.toml");
                proof {
                    lemma_ends_with_append(hv, "/.gitr"@, "/config.toml"@);
                    assert("/.gitr"@ + "/config.toml"@ =~= "/.gitr/config.toml"@) by {
                        reveal_strlit("/.gitr");
                        reveal_strlit("/config.toml");
                        reveal_strlit("/.gitr/config.toml");
                    }
                }
                Ok(p)
            },
            Err(e) => Err(e),
        }
    }

    /// The path of the database file under the home directory.
    pub fn db_path() -> (r: Result<String, GitrError>)
        ensures
            r matches Ok(p) ==> ends_with(p@, "/.gitr/gitr.db"@),
            r matches Err(e) ==> (e matches GitrError::Config { message } && message@
                == "could not determine home directory"@),
    {
        match Self::home_dir() {
            Ok(h) => {
                let ghost hv = h@;
                let mut p = h;
                p.append("/gitr.db");
                proof {
                    lemma_ends_with_append(hv, "/.gitr"@, "/gitr.db"@);
                    assert("/.gitr"@ + "/gitr.db"@ =~= "/.gitr/gitr.db"@) by {
                        reveal_strlit("/.gitr");
                        reveal_strlit("/gitr.db");
                        reveal_strlit("/.gitr/gitr.db");
                    }
                }
                Ok(p)
            },
            Err(e) => Err(e),
        }
    }
}

} // verus!
