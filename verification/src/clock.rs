//! The generator's only contact with the outside world: reading the system
//! clock, measuring a wait, and yielding the processor while spinning.
//!
//! Nothing deterministic can be promised of a clock reading, so these
//! wrappers carry no `ensures` beyond what holds of every outcome; all
//! decisions taken on the values they return are made, and verified, in
//! [`crate::generator`].

use vstd::prelude::*;

verus! {

/// `std::time::Instant`, used only to bound the spin-wait; its value is
/// opaque and is carried through to `elapsed_millis`.
#[verifier::external_type_specification]
#[verifier::external_body]
pub struct ExInstant(std::time::Instant);

/// Milliseconds since the Unix epoch, as the system clock reports them.
///
/// Relies on `std::time::SystemTime::now` followed by
/// `duration_since(UNIX_EPOCH)`: `None` exactly when the clock reads earlier
/// than the Unix epoch, otherwise the elapsed milliseconds. The reading is
/// not monotonic and nothing relates one call to the next.
#[verifier::external_body]
pub(crate) fn unix_time_millis() -> (r: Option<u128>) {
    match std::time::SystemTime::now().duration_since(std::time::UNIX_EPOCH) {
        Ok(d) => Some(d.as_millis()),
        Err(_) => None,
    }
}

/// A reference point on the monotonic clock.
///
/// Relies on `std::time::Instant::now`.
#[verifier::external_body]
pub(crate) fn instant_now() -> (r: std::time::Instant) {
    std::time::Instant::now()
}

/// Whole milliseconds of the monotonic clock since `start`.
///
/// Relies on `std::time::Instant::elapsed` (and `Duration::as_millis` to
/// convert); how much time has passed cannot be promised.
#[verifier::external_body]
pub(crate) fn elapsed_millis(start: &std::time::Instant) -> (r: u128) {
    start.elapsed().as_millis()
}

/// A low-cost hint that the processor may relax while the generator spins.
///
/// Relies on `std::hint::spin_loop`; it computes nothing.
#[verifier::external_body]
pub(crate) fn spin_wait_hint() {
    std::hint::spin_loop()
}

} // verus!
