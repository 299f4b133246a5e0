//! Shared primitive aliases of the ledger and the coordinator.
//!
//! Identities, balances and timestamps are plain machine integers: an
//! identity is resolved by the hosting environment and handed in by the
//! caller, a balance is a count of the smallest value unit, and a timestamp
//! is a count of milliseconds.

use vstd::prelude::*;

verus! {

/// Identity of a participant, as resolved by the hosting environment.
pub type AccountId = u64;

/// An amount of the escrowed value unit.
pub type Balance = u128;

/// An absolute point in time, in milliseconds.
pub type Timestamp = u64;

} // verus!
