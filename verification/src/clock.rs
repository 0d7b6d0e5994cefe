//! Wall-clock readings and expiry.  The clock itself is outside the
//! library; the comparison against a deadline is its own.

use vstd::prelude::*;

verus! {

/// Relies on std::time::SystemTime::now and duration_since: seconds
/// since the Unix epoch, zero when the clock reads before it.
#[verifier::external_body]
pub fn current_timestamp() -> u64 {
    std::time::SystemTime::now()
        .duration_since(std::time::UNIX_EPOCH)
        .unwrap_or_default()
        .as_secs()
}

/// Relies on std::time::SystemTime::now and duration_since:
/// milliseconds since the Unix epoch, zero when the clock reads before
/// it, truncated to 64 bits.
#[verifier::external_body]
pub fn current_timestamp_millis() -> u64 {
    std::time::SystemTime::now()
        .duration_since(std::time::UNIX_EPOCH)
        .unwrap_or_default()
        .as_millis() as u64
}

/// Whether a moment `now` lies past the deadline `timestamp + ttl`.
pub fn expired_at(timestamp: u64, ttl_seconds: u64, now: u64) -> (r: bool)
    requires
        timestamp + ttl_seconds <= u64::MAX,
    ensures
        r == (now > timestamp + ttl_seconds),
{
    now > timestamp + ttl_seconds
}

/// Whether the clock now reads past `timestamp + ttl_seconds`.  What
/// the clock reads is not the library's to state; the comparison for a
/// given reading is `expired_at`.
pub fn is_expired(timestamp: u64, ttl_seconds: u64) -> bool
    requires
        timestamp + ttl_seconds <= u64::MAX,
{
    let now = current_timestamp();
    expired_at(timestamp, ttl_seconds, now)
}

} // verus!
