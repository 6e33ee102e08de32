//! Values that come from the machine: random identifiers and the clock.

use vstd::prelude::*;

verus! {

/// The number of characters of a hyphenated identifier.
pub const ID_LEN: usize = 36;

/// Calls `uuid::Uuid::new_v4` and renders the identifier with its `Display`
/// impl. The identifier is random, so nothing is claimed about its content;
/// the hyphenated lower-case rendering always has 36 characters.
#[verifier::external_body]
pub(crate) fn random_id() -> (id: String)
    ensures
        id@.len() == ID_LEN,
{
    uuid::Uuid::new_v4().to_string()
}

/// Calls `chrono::Utc::now` and takes its `timestamp`: the seconds since the
/// Unix epoch by the system clock. Nothing is claimed about the value. (chrono
/// itself panics when the clock is set before the epoch.)
#[verifier::external_body]
pub(crate) fn unix_seconds() -> (now: i64) {
    chrono::Utc::now().timestamp()
}

} // verus!
