//! Verified core of a git fork tracker and synchronizer.
//!
//! The library covers repository identity reconciliation (URL-identity
//! normalization and three-way classification of local clones against a
//! hosting account's repository list) and the fork-synchronization state
//! machine together with its bounded-concurrency batch bookkeeping.
//! Filesystem walking, subprocess execution, networking and persistence live
//! outside the library; they hand plain values in and take plain values back.

pub mod auth;
pub mod collection;
pub mod config;
pub mod engine;
pub mod error;
pub mod fork_sync;
pub mod git_ops;
pub mod host;
pub mod reconcile;
pub mod remote;
pub mod repo;
pub mod scanner;
pub mod sync_link;
pub mod sync_state;
pub mod sys;
pub mod text;
pub mod urls;
