//! Contact-form dispatch library: payload validation, message composition,
//! and the dual-channel aggregation policy for an email plus Telegram
//! notification service.

pub mod responses;
pub mod routes;
pub mod telegram;
pub mod utils;

use vstd::prelude::*;

verus! {

/// Timeout, in seconds, applied to each outbound channel request.
pub const REQUEST_TIMEOUT_SEC: u64 = 5;

} // verus!
