//! Points in time, counted from the origin of a monotonic clock.

use vstd::prelude::*;

verus! {

/// The largest number of nanoseconds that a monotonic clock can report: the
/// longest representable duration, `u64::MAX` seconds and 999 999 999 ns.
pub const MAX_CLOCK_NANOS: u128 = 18_446_744_073_709_551_615_999_999_999;

/// A point in time: how many nanoseconds after the origin of the clock it lies.
///
/// Readings of a clock are at most [`MAX_CLOCK_NANOS`]; points computed from
/// them (deadlines) may lie later.
#[derive(Clone, Copy, Debug, PartialEq, Eq, PartialOrd, Ord, Hash, Structural)]
pub struct Instant {
    pub nanos: u128,
}

impl Instant {
    /// Whether a clock can report this point.
    pub open spec fn is_reading(self) -> bool {
        self.nanos <= MAX_CLOCK_NANOS
    }
}

/// A source of the current time.
pub trait TimeProvider {
    /// The current time.
    fn now(&self) -> (now: Instant)
        ensures
            now.is_reading(),
    ;
}

/// Declares `std::time::Instant`, a reading of the machine's monotonic clock.
#[verifier::external_type_specification]
#[verifier::external_body]
pub struct ExInstant(std::time::Instant);

/// Calls `std::time::Instant::now`; nothing is claimed of what it reads.
#[verifier::external_body]
fn clock_origin() -> (origin: std::time::Instant)
{
    std::time::Instant::now()
}

/// Calls `std::time::Instant::elapsed` and gives the duration in whole
/// nanoseconds, which are at most those of the longest duration there is.
#[verifier::external_body]
fn nanos_since(origin: &std::time::Instant) -> (nanos: u128)
    ensures
        nanos <= MAX_CLOCK_NANOS,
{
    origin.elapsed().as_nanos()
}

/// The machine's monotonic clock, counted from the creation of the provider.
#[derive(Clone, Copy)]
pub struct DefaultTimeProvider {
    origin: std::time::Instant,
}

impl DefaultTimeProvider {
    /// Whether a reading of the machine's clock, taken against the origin of this
    /// provider, can give so many nanoseconds.
    pub closed spec fn reads(&self, nanos: u128) -> bool {
        call_ensures(nanos_since, (&self.origin,), nanos)
    }
}

impl Default for DefaultTimeProvider {
    /// A provider whose origin is the moment of this call. Nothing can be said
    /// of that moment: it is whatever the machine's clock shows.
    fn default() -> (provider: Self) {
        DefaultTimeProvider { origin: clock_origin() }
    }
}

impl TimeProvider for DefaultTimeProvider {
    /// What the machine's clock gives against the origin of this provider.
    fn now(&self) -> (now: Instant)
        ensures
            self.reads(now.nanos),
    {
        Instant { nanos: nanos_since(&self.origin) }
    }
}

} // verus!
