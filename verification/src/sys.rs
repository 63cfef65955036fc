//! Trusted bridges to the environment: the clock, fresh identifiers and the
//! home directory. Each result depends on the machine or the moment, so
//! nothing more is promised of it.

use vstd::prelude::*;

verus! {

/// Relies on `chrono::Utc::now`: the current time, as milliseconds since
/// the Unix epoch. The value depends on the clock, so nothing is promised
/// of it. `Utc::now` itself panics when the system clock stands before the
/// Unix epoch — an environment state no precondition can exclude.
#[verifier::external_body]
pub fn now_millis() -> i64 {
    chrono::Utc::now().timestamp_millis()
}

/// Relies on `uuid::Uuid::now_v7`: a fresh time-ordered identifier, carried
/// as its 128-bit value. The value depends on the clock and on randomness,
/// so nothing is promised of it. `now_v7` panics when the system clock
/// stands before the Unix epoch or the OS entropy source fails — environment
/// states no precondition can exclude.
#[verifier::external_body]
pub fn fresh_uuid() -> u128 {
    uuid::Uuid::now_v7().as_u128()
}

/// Relies on `dirs::home_dir`: the user's home directory, when the
/// environment defines one. The value depends on the environment, so
/// nothing is promised of it.
#[verifier::external_body]
pub fn home_dir_string() -> Option<String> {
    dirs::home_dir().map(|p| p.to_string_lossy().into_owned())
}

} // verus!
