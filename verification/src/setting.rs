//! Policy constants of the service.

use vstd::prelude::*;

verus! {

/// Smallest number a short identifier is drawn from.
pub const SHORT_ID_MIN: u64 = 15_000_000;

/// Upper end of the sampling interval; it is never drawn itself.
pub const SHORT_ID_MAX: u64 = 3_500_000_000_000;

/// Longest time to live, in seconds, that a guest may ask for: thirty days.
pub const GUEST_MAX_TTL: u64 = 30 * 24 * 60 * 60;

/// Shortest time to live, in seconds, that anyone may ask for.
pub const MIN_TTL: u64 = 60;

/// `Cache-Control` value sent with every asset that is not an HTML page.
pub const CACHE_AGE_VALUE: &'static str = "max-age=14400";

} // verus!
