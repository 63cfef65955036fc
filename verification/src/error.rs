//! The central error type. Each variant carries plain values, and
//! `describe` renders the message text that callers report; the exact text
//! of every message is pinned by `error_text`.

use vstd::prelude::*;
use vstd::string::StringExecFns;

use crate::text::dec_spec;
use crate::text::u64_to_string;

verus! {

/// Central error type of the system.
#[derive(Debug, Clone)]
pub enum GitrError {
    HostNotFound { label: String },
    HostAlreadyExists { label: String },
    RepoNotFound { name: String },
    AuthFailed { host: String, message: String },
    ApiError { status: u16, message: String },
    RateLimited { host: String, retry_after_secs: u64 },
    GitError { message: String },
    MergeConflict { branch: String, message: String },
    FastForwardFailed { branch: String, message: String },
    SyncLinkNotFound { id: String },
    CollectionNotFound { name: String },
    ProviderNotImplemented { kind: String },
    PathNotFound { path: String },
    Config { message: String },
    Database(String),
    Io(String),
    Serialization(String),
    CredentialError { message: String },
    Other(String),
}

/// The message text of an error.
pub open spec fn error_text(e: GitrError) -> Seq<char> {
    match e {
        GitrError::HostNotFound { label } => "host not found: "@ + label@,
        GitrError::HostAlreadyExists { label } => "host already exists: "@ + label@,
        GitrError::RepoNotFound { name } => "repo not found: "@ + name@,
        GitrError::AuthFailed { host, message } => "authentication failed for host "@ + host@
            + ": "@ + message@,
        GitrError::ApiError { status, message } => "API error ("@ + dec_spec(status as int)
            + "): "@ + message@,
        GitrError::RateLimited { host, retry_after_secs } => "rate limited by "@ + host@
            + " — retry after "@ + dec_spec(retry_after_secs as int) + "s"@,
        GitrError::GitError { message } => "git error: "@ + message@,
        GitrError::MergeConflict { branch, message } => "merge conflict on branch "@ + branch@
            + ": "@ + message@,
        GitrError::FastForwardFailed { branch, message } => "fast-forward failed on branch "@
            + branch@ + ": "@ + message@,
        GitrError::SyncLinkNotFound { id } => "sync link not found: "@ + id@,
        GitrError::CollectionNotFound { name } => "collection not found: "@ + name@,
        GitrError::ProviderNotImplemented { kind } => "provider not implemented: "@ + kind@,
        GitrError::PathNotFound { path } => "path not found: "@ + path@,
        GitrError::Config { message } => "config error: "@ + message@,
        GitrError::Database(m) => "database error: "@ + m@,
        GitrError::Io(m) => "io error: "@ + m@,
        GitrError::Serialization(m) => "serialization error: "@ + m@,
        GitrError::CredentialError { message } => "credential error: "@ + message@,
        GitrError::Other(m) => m@,
    }
}

impl GitrError {
    /// The message text of this error, as reported to a user.
    pub fn describe(&self) -> (r: String)
        ensures
            r@ == error_text(*self),
    {
        match self {
            GitrError::HostNotFound { label } => {
                let mut s = String::from_str("host not found: ");
                s.append(label.as_str());
                s
            },
            GitrError::HostAlreadyExists { label } => {
                let mut s = String::from_str("host already exists: ");
                s.append(label.as_str());
                s
            },
            GitrError::RepoNotFound { name } => {
                let mut s = String::from_str("repo not found: ");
                s.append(name.as_str());
                s
            },
            GitrError::AuthFailed { host, message } => {
                let mut s = String::from_str("authentication failed for host ");
                s.append(host.as_str());
                s.append(": ");
                s.append(message.as_str());
                s
            },
            GitrError::ApiError { status, message } => {
                let mut s = String::from_str("API error (");
                let d = u64_to_string(*status as u64);
                s.append(d.as_str());
                s.append("): ");
                s.append(message.as_str());
                s
            },
            GitrError::RateLimited { host, retry_after_secs } => {
                let mut s = String::from_str("rate limited by ");
                s.append(host.as_str());
                s.append(" — retry after ");
                let d = u64_to_string(*retry_after_secs);
                s.append(d.as_str());
                s.append("s");
                s
            },
            GitrError::GitError { message } => {
                let mut s = String::from_str("git error: ");
                s.append(message.as_str());
                s
            },
            GitrError::MergeConflict { branch, message } => {
                let mut s = String::from_str("merge conflict on branch ");
                s.append(branch.as_str());
                s.append(": ");
                s.append(message.as_str());
                s
            },
            GitrError::FastForwardFailed { branch, message } => {
                let mut s = String::from_str("fast-forward failed on branch ");
                s.append(branch.as_str());
                s.append(": ");
                s.append(message.as_str());
                s
            },
            GitrError::SyncLinkNotFound { id } => {
                let mut s = String::from_str("sync link not found: ");
                s.append(id.as_str());
                s
            },
            GitrError::CollectionNotFound { name } => {
                let mut s = String::from_str("collection not found: ");
                s.append(name.as_str());
                s
            },
            GitrError::ProviderNotImplemented { kind } => {
                let mut s = String::from_str("provider not implemented: ");
                s.append(kind.as_str());
                s
            },
            GitrError::PathNotFound { path } => {
                let mut s = String::from_str("path not found: ");
                s.append(path.as_str());
                s
            },
            GitrError::Config { message } => {
                let mut s = String::from_str("config error: ");
                s.append(message.as_str());
                s
            },
            GitrError::Database(m) => {
                let mut s = String::from_str("database error: ");
                s.append(m.as_str());
                s
            },
            GitrError::Io(m) => {
                let mut s = String::from_str("io error: ");
                s.append(m.as_str());
                s
            },
            GitrError::Serialization(m) => {
                let mut s = String::from_str("serialization error: ");
                s.append(m.as_str());
                s
            },
            GitrError::CredentialError { message } => {
                let mut s = String::from_str("credential error: ");
                s.append(message.as_str());
                s
            },
            GitrError::Other(m) => m.clone(),
        }
    }
}

} // verus!
