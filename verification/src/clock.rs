//! Monotonic time, read through the standard library's `Instant`. The
//! middleware records the instant just before it hands a request to the
//! downstream chain and measures the elapsed wall-clock milliseconds just
//! after the chain completes.

use vstd::prelude::*;

verus! {

#[verifier::external_type_specification]
#[verifier::external_body]
pub struct ExInstant(std::time::Instant);

/// Relies on `std::time::Instant::now`: an opaque reading of the monotonic
/// clock. Nothing is promised of the value; it only anchors a later
/// `elapsed`.
#[verifier::external_body]
pub(crate) fn monotonic_now() -> (r: std::time::Instant) {
    std::time::Instant::now()
}

/// Relies on `std::time::Instant::elapsed`: the monotonic time since the
/// instant, saturating to zero, never panicking. The clock never runs
/// backwards, so the reading spans exactly the window since the instant;
/// its numeric value depends on the machine and is not promised.
pub assume_specification[ std::time::Instant::elapsed ](start: &std::time::Instant) -> (d:
    core::time::Duration);

/// Relies on `core::time::Duration::as_millis`: the duration in whole
/// milliseconds. Nothing is promised of the value.
pub assume_specification[ core::time::Duration::as_millis ](d: &core::time::Duration) -> (r: u128);

/// The whole milliseconds since `start`, saturated to `u64`.
pub(crate) fn millis_since(start: &std::time::Instant) -> u64 {
    let d = start.elapsed();
    let ms = d.as_millis();
    if ms > u64::MAX as u128 {
        u64::MAX
    } else {
        ms as u64
    }
}

} // verus!
