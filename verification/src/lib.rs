//! A verified model of an order-placing exchange contract: a closed execute
//! dispatcher over six user message tags, a sudo dispatcher over six
//! privileged chain callbacks, a reply correlator for asynchronous order
//! placement, a deterministic payload codec, and a versioned-storage guard
//! that gates migrations.
use vstd::prelude::*;

pub mod codec;
pub mod contract;
pub mod denom;
pub mod digits;
pub mod errors;
pub mod reply;
pub mod response;
pub mod strutil;
pub mod types;
pub mod version;

verus! {

/// Reply tag attached to the one sub-operation this contract queues:
/// asynchronous order placement.
pub const PLACE_ORDER_REPLY_ID: u64 = 1;

} // verus!
