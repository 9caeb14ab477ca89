//! The system clock, read as whole units since the Unix epoch.

use vstd::prelude::*;

verus! {

/// Reads `SystemTime::now()` as whole seconds since the Unix epoch (0 for a
/// clock set before the epoch). Nothing is promised of the value: it is the
/// time.
#[verifier::external_body]
pub fn unix_seconds() -> u64 {
    std::time::SystemTime::now().duration_since(std::time::UNIX_EPOCH).unwrap_or_default().as_secs()
}

/// Reads `SystemTime::now()` as whole milliseconds since the Unix epoch (0
/// for a clock set before the epoch). Nothing is promised of the value: it
/// is the time.
#[verifier::external_body]
pub fn unix_millis() -> u128 {
    std::time::SystemTime::now().duration_since(std::time::UNIX_EPOCH).unwrap_or_default().as_millis()
}

} // verus!
