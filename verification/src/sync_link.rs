//! Synchronization links between repositories: direction, merge strategy,
//! trigger and per-link instructions.

use vstd::prelude::*;
use vstd::string::StringExecFns;

use crate::repo::RepoId;
use crate::text::str_eq;

verus! {

/// Unique identifier of a sync link, the 128 bits of a UUID.
#[derive(Debug, Clone, Copy, PartialEq, Eq, Hash, Structural)]
pub struct SyncLinkId(pub u128);

impl SyncLinkId {
    pub fn new() -> (r: Self) {
        SyncLinkId(crate::sys::fresh_uuid())
    }

    pub fn from_uuid(id: u128) -> (r: Self)
        ensures
            r.0 == id,
    {
        SyncLinkId(id)
    }
}

/// Direction of sync between two repositories.
#[derive(Debug, Clone, Copy, PartialEq, Eq, Structural)]
pub enum SyncDirection {
    Push,
    Pull,
    Both,
}

/// The textual name of a sync direction.
pub open spec fn sync_direction_text(d: SyncDirection) -> Seq<char> {
    match d {
        SyncDirection::Push => "push"@,
        SyncDirection::Pull => "pull"@,
        SyncDirection::Both => "both"@,
    }
}

/// The sync direction a name denotes, if any.
pub open spec fn sync_direction_of_text(t: Seq<char>) -> Option<SyncDirection> {
    if t == "push"@ {
        Some(SyncDirection::Push)
    } else if t == "pull"@ {
        Some(SyncDirection::Pull)
    } else if t == "both"@ {
        Some(SyncDirection::Both)
    } else {
        None
    }
}

impl SyncDirection {
    /// The name of this direction.
    pub fn as_str(&self) -> (r: &'static str)
        ensures
            r@ == sync_direction_text(*self),
    {
        match self {
            SyncDirection::Push => "push",
            SyncDirection::Pull => "pull",
            SyncDirection::Both => "both",
        }
    }

    /// The direction the given name denotes.
    pub fn parse(s: &str) -> (r: Result<SyncDirection, String>)
        ensures
            match sync_direction_of_text(s@) {
                Some(d) => r matches Ok(d2) && d2 == d,
                None => r matches Err(m) && m@ == "unknown sync direction: "@ + s@,
            },
    {
        if str_eq(s, "push") {
            Ok(SyncDirection::Push)
        } else if str_eq(s, "pull") {
            Ok(SyncDirection::Pull)
        } else if str_eq(s, "both") {
            Ok(SyncDirection::Both)
        } else {
            let mut m = String::from_str("unknown sync direction: ");
            m.append(s);
            Err(m)
        }
    }
}

impl core::str::FromStr for SyncDirection {
    type Err = String;

    fn from_str(s: &str) -> Result<SyncDirection, String> {
        SyncDirection::parse(s)
    }
}

/// Strategy for merging upstream changes into a fork.
#[derive(Debug, Clone, Copy, PartialEq, Eq, Structural)]
pub enum MergeStrategy {
    FastForward,
    Merge,
    Rebase,
    ForcePush,
}

/// The textual name of a merge strategy.
pub open spec fn merge_strategy_text(m: MergeStrategy) -> Seq<char> {
    match m {
        MergeStrategy::FastForward => "ff"@,
        MergeStrategy::Merge => "merge"@,
        MergeStrategy::Rebase => "rebase"@,
        MergeStrategy::ForcePush => "force_push"@,
    }
}

/// The merge strategy a name denotes, if any; the fast-forward and
/// force-push strategies answer to several spellings.
pub open spec fn merge_strategy_of_text(t: Seq<char>) -> Option<MergeStrategy> {
    if t == "ff"@ || t == "fast_forward"@ || t == "fast-forward"@ {
        Some(MergeStrategy::FastForward)
    } else if t == "merge"@ {
        Some(MergeStrategy::Merge)
    } else if t == "rebase"@ {
        Some(MergeStrategy::Rebase)
    } else if t == "force_push"@ || t == "force-push"@ {
        Some(MergeStrategy::ForcePush)
    } else {
        None
    }
}

impl MergeStrategy {
    /// The name of this strategy.
    pub fn as_str(&self) -> (r: &'static str)
        ensures
            r@ == merge_strategy_text(*self),
    {
        match self {
            MergeStrategy::FastForward => "ff",
            MergeStrategy::Merge => "merge",
            MergeStrategy::Rebase => "rebase",
            MergeStrategy::ForcePush => "force_push",
        }
    }

    /// The strategy the given name denotes.
    pub fn parse(s: &str) -> (r: Result<MergeStrategy, String>)
        ensures
            match merge_strategy_of_text(s@) {
                Some(m) => r matches Ok(m2) && m2 == m,
                None => r matches Err(m) && m@ == "unknown merge strategy: "@ + s@,
            },
    {
        if str_eq(s, "ff") || str_eq(s, "fast_forward") || str_eq(s, "fast-forward") {
            Ok(MergeStrategy::FastForward)
        } else if str_eq(s, "merge") {
            Ok(MergeStrategy::Merge)
        } else if str_eq(s, "rebase") {
            Ok(MergeStrategy::Rebase)
        } else if str_eq(s, "force_push") || str_eq(s, "force-push") {
            Ok(MergeStrategy::ForcePush)
        } else {
            let mut m = String::from_str("unknown merge strategy: ");
            m.append(s);
            Err(m)
        }
    }
}

impl core::str::FromStr for MergeStrategy {
    type Err = String;

    fn from_str(s: &str) -> Result<MergeStrategy, String> {
        MergeStrategy::parse(s)
    }
}

/// What triggers a sync.
#[derive(Debug, Clone, PartialEq, Eq)]
pub enum SyncTrigger {
    Manual,
    Schedule { cron: String },
    Always,
}

/// The textual form of a trigger.
pub open spec fn sync_trigger_text(t: SyncTrigger) -> Seq<char> {
    match t {
        SyncTrigger::Manual => "manual"@,
        SyncTrigger::Schedule { cron } => "schedule:"@ + cron@,
        SyncTrigger::Always => "always"@,
    }
}

impl SyncTrigger {
    /// The textual form of this trigger.
    pub fn label(&self) -> (r: String)
        ensures
            r@ == sync_trigger_text(*self),
    {
        match self {
            SyncTrigger::Manual => String::from_str("manual"),
            SyncTrigger::Schedule { cron } => {
                let mut s = String::from_str("schedule:");
                s.append(cron.as_str());
                s
            },
            SyncTrigger::Always => String::from_str("always"),
        }
    }
}

/// Additional sync instructions.
#[derive(Debug, Clone, Default)]
pub struct SyncInstructions {
    pub branch_include: Vec<String>,
    pub branch_exclude: Vec<String>,
    pub sync_tags: bool,
}

/// A directed sync edge between two repositories.
#[derive(Debug, Clone)]
pub struct SyncLink {
    pub id: SyncLinkId,
    pub source_repo_id: RepoId,
    pub target_repo_id: RepoId,
    pub direction: SyncDirection,
    pub merge_strategy: MergeStrategy,
    pub trigger: SyncTrigger,
    pub instructions: SyncInstructions,
    pub enabled: bool,
}

impl SyncLink {
    /// A new enabled link, triggered manually, with empty instructions.
    pub fn new(
        source_repo_id: RepoId,
        target_repo_id: RepoId,
        direction: SyncDirection,
        merge_strategy: MergeStrategy,
    ) -> (r: SyncLink)
        ensures
            r.source_repo_id == source_repo_id,
            r.target_repo_id == target_repo_id,
            r.direction == direction,
            r.merge_strategy == merge_strategy,
            r.trigger == SyncTrigger::Manual,
            r.enabled,
            r.instructions.branch_include@.len() == 0,
            r.instructions.branch_exclude@.len() == 0,
            !r.instructions.sync_tags,
    {
        SyncLink {
            id: SyncLinkId::new(),
            source_repo_id,
            target_repo_id,
            direction,
            merge_strategy,
            trigger: SyncTrigger::Manual,
            instructions: SyncInstructions {
                branch_include: Vec::new(),
                branch_exclude: Vec::new(),
                sync_tags: false,
            },
            enabled: true,
        }
    }
}

} // verus!
