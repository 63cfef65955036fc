//! Hosting services: the kinds the system knows, and a registered host with
//! its API endpoint and credential key. API URLs are carried as plain text;
//! whatever performs requests parses them outside the library.

use vstd::prelude::*;
use vstd::string::StringExecFns;

use crate::text::{lower_char, lower_char_exec, lower_seq, str_eq, str_to_chars, chars_to_string};

verus! {

/// Unique identifier of a host, the 128 bits of a UUID.
#[derive(Debug, Clone, Copy, PartialEq, Eq, Hash, Structural)]
pub struct HostId(pub u128);

impl HostId {
    pub fn new() -> (r: Self) {
        HostId(crate::sys::fresh_uuid())
    }

    pub fn from_uuid(id: u128) -> (r: Self)
        ensures
            r.0 == id,
    {
        HostId(id)
    }
}

/// The kind of git hosting service.
#[derive(Debug, Clone, Copy, PartialEq, Eq, Structural)]
pub enum HostKind {
    GitHub,
    GitLab,
    Gitea,
    Bitbucket,
    AzureDevOps,
}

/// The textual name of a host kind.
pub open spec fn host_kind_text(k: HostKind) -> Seq<char> {
    match k {
        HostKind::GitHub => "github"@,
        HostKind::GitLab => "gitlab"@,
        HostKind::Gitea => "gitea"@,
        HostKind::Bitbucket => "bitbucket"@,
        HostKind::AzureDevOps => "azure_devops"@,
    }
}

/// The host kind a lower-cased name denotes, if any.
pub open spec fn host_kind_of_text(t: Seq<char>) -> Option<HostKind> {
    if t == "github"@ {
        Some(HostKind::GitHub)
    } else if t == "gitlab"@ {
        Some(HostKind::GitLab)
    } else if t == "gitea"@ {
        Some(HostKind::Gitea)
    } else if t == "bitbucket"@ {
        Some(HostKind::Bitbucket)
    } else if t == "azure_devops"@ || t == "azure-devops"@ || t == "azuredevops"@ {
        Some(HostKind::AzureDevOps)
    } else {
        None
    }
}

/// The default API URL of a host kind.
pub open spec fn default_api_url_text(k: HostKind) -> Seq<char> {
    match k {
        HostKind::GitHub => "https://api.github.com"@,
        HostKind::GitLab => "https://gitlab.com/api/v4"@,
        HostKind::Gitea => "https://gitea.com/api/v1"@,
        HostKind::Bitbucket => "https://api.bitbucket.org/2.0"@,
        HostKind::AzureDevOps => "https://dev.azure.com"@,
    }
}

impl HostKind {
    /// The name of this host kind.
    pub fn as_str(&self) -> (r: &'static str)
        ensures
            r@ == host_kind_text(*self),
    {
        match self {
            HostKind::GitHub => "github",
            HostKind::GitLab => "gitlab",
            HostKind::Gitea => "gitea",
            HostKind::Bitbucket => "bitbucket",
            HostKind::AzureDevOps => "azure_devops",
        }
    }

    /// The host kind the given name denotes, compared case-insensitively;
    /// an unknown name is reported in the error.
    pub fn parse(s: &str) -> (r: Result<HostKind, String>)
        ensures
            match host_kind_of_text(lower_seq(s@)) {
                Some(k) => r matches Ok(k2) && k2 == k,
                None => r matches Err(m) && m@ == "unknown host kind: "@ + s@,
            },
    {
        let cs = str_to_chars(s);
        let mut low: Vec<char> = Vec::new();
        let mut i: usize = 0;
        while i < cs.len()
            invariant
                cs@ == s@,
                i <= cs@.len(),
                low@.len() == i,
                forall|j: int| 0 <= j < i ==> low@[j] == lower_char(cs@[j]),
            decreases cs@.len() - i,
        {
            low.push(lower_char_exec(cs[i]));
            i = i + 1;
        }
        proof {
            assert(low@ =~= lower_seq(s@));
        }
        let lowered = chars_to_string(&low);
        let l = lowered.as_str();
        if str_eq(l, "github") {
            Ok(HostKind::GitHub)
        } else if str_eq(l, "gitlab") {
            Ok(HostKind::GitLab)
        } else if str_eq(l, "gitea") {
            Ok(HostKind::Gitea)
        } else if str_eq(l, "bitbucket") {
            Ok(HostKind::Bitbucket)
        } else if str_eq(l, "azure_devops") || str_eq(l, "azure-devops") || str_eq(
            l,
            "azuredevops",
        ) {
            Ok(HostKind::AzureDevOps)
        } else {
            let mut m = String::from_str("unknown host kind: ");
            m.append(s);
            Err(m)
        }
    }

    /// The default API URL for this host kind, as text.
    pub fn default_api_url(&self) -> (r: String)
        ensures
            r@ == default_api_url_text(*self),
    {
        match self {
            HostKind::GitHub => String::from_str("https://api.github.com"),
            HostKind::GitLab => String::from_str("https://gitlab.com/api/v4"),
            HostKind::Gitea => String::from_str("https://gitea.com/api/v1"),
            HostKind::Bitbucket => String::from_str("https://api.bitbucket.org/2.0"),
            HostKind::AzureDevOps => String::from_str("https://dev.azure.com"),
        }
    }
}

impl core::str::FromStr for HostKind {
    type Err = String;

    fn from_str(s: &str) -> Result<HostKind, String> {
        HostKind::parse(s)
    }
}

/// A registered git hosting service.
#[derive(Debug, Clone)]
pub struct Host {
    pub id: HostId,
    pub label: String,
    pub kind: HostKind,
    pub api_url: String,
    pub username: String,
    /// Key used to look up the token in the credential store.
    pub credential_key: String,
}

impl Host {
    /// A new host with the kind's default API URL and a credential key
    /// derived from the label.
    pub fn new(label: String, kind: HostKind, username: String) -> (r: Host)
        ensures
            r.label@ == label@,
            r.kind == kind,
            r.username@ == username@,
            r.api_url@ == default_api_url_text(kind),
            r.credential_key@ == "gitr:"@ + label@,
    {
        let api_url = kind.default_api_url();
        let mut credential_key = String::from_str("gitr:");
        credential_key.append(label.as_str());
        Host { id: HostId::new(), label, kind, api_url, username, credential_key }
    }
}

} // verus!
