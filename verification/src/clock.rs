//! Trusted boundary to the process clock.
//!
//! The rest of the library works on plain tick counts; only the items here
//! touch `std::time`. Nothing is assumed about what the clock returns: a
//! reading is an arbitrary value, and the generator's contracts state what
//! holds whatever came back.

use vstd::prelude::*;

verus! {

#[verifier::external_type_specification]
#[verifier::external_body]
pub struct ExInstant(std::time::Instant);

/// Relies on `std::time::Instant::now`: a reading of the monotonic clock.
/// Nothing is promised of the value.
#[verifier::external_body]
pub fn instant_now() -> std::time::Instant {
    std::time::Instant::now()
}

/// Relies on `std::time::Instant`'s `PartialOrd`: whether `a` is no later
/// than `b`. The operands are opaque, so nothing is promised of the result.
#[verifier::external_body]
pub fn instant_le(a: &std::time::Instant, b: &std::time::Instant) -> bool {
    *a <= *b
}

/// Relies on `std::time::Instant::elapsed`: the time since `earlier`,
/// measured at the moment of the call. Nothing is promised of the value.
#[verifier::external_body]
pub fn elapsed_since(earlier: &std::time::Instant) -> std::time::Duration {
    earlier.elapsed()
}

/// Relies on `std::time::Duration::as_millis`: the duration's whole
/// milliseconds. The duration is opaque, so nothing is promised of the result.
#[verifier::external_body]
pub fn duration_as_millis(d: &std::time::Duration) -> u128 {
    d.as_millis()
}

/// Relies on `std::time::Instant::elapsed` and `std::hint::spin_loop`:
/// busy-waits, re-reading the clock, until the milliseconds elapsed since
/// `epoch`, truncated to 64 bits and masked by `mask`, differ from `current`,
/// and returns that fresh masked reading. The two promises below restate the
/// loop's exit condition; nothing more is assumed of the clock. The wait is
/// bounded by the tick resolution under a functioning clock source.
#[verifier::external_body]
pub fn wait_for_masked_tick_change(epoch: &std::time::Instant, mask: u64, current: u64) -> (r: u64)
    ensures
        r != current,
        r <= mask,
{
    loop {
        let fresh = (epoch.elapsed().as_millis() as u64) & mask;
        if fresh != current {
            return fresh;
        }
        std::hint::spin_loop();
    }
}

} // verus!
