//! In-memory state manager for trading-account balances: an account store
//! indexed by trader and account id, a balance-mutation protocol with an
//! idempotency cache for retried requests, and an outbound queue of mutation
//! events for downstream persistence.

pub mod account;
pub mod clock;
pub mod events;
pub mod flows;
pub mod ids;
pub mod laws;
pub mod model;
pub mod process_id_cache;
pub mod responses;
pub mod search;
pub mod store;

use vstd::prelude::*;

verus! {

/// Result code carried in responses on success.
pub const RESULT_OK: i32 = 0;

} // verus!
