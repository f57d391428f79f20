//! Identifier generation.
//!
//! Identifiers are carried as 128-bit integers throughout the crate; this is
//! the one place where fresh ones are minted.

use vstd::prelude::*;

verus! {

/// Mint a fresh identifier.
///
/// Relies on `uuid::Uuid::now_v7` to produce a time-ordered, practically
/// unique identifier, returned as its 128-bit value. Nothing is promised of
/// the result: it depends on the clock and on randomness. The call aborts if
/// the system clock reads before the Unix epoch.
#[verifier::external_body]
pub fn fresh_id() -> u128 {
    uuid::Uuid::now_v7().as_u128()
}

} // verus!
