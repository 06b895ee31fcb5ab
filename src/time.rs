use vstd::prelude::*;

verus! {

/// Earliest instant that jiff represents, in nanoseconds since the Unix epoch.
pub const MIN_INSTANT_NANOS: i128 = -377_705_023_201_000_000_000;

/// Latest instant that jiff represents, in nanoseconds since the Unix epoch.
pub const MAX_INSTANT_NANOS: i128 = 253_402_207_200_999_999_999;

/// Nanoseconds in one minute.
pub const NANOS_PER_MINUTE: i128 = 60_000_000_000;

/// An instant, as a count of nanoseconds since the Unix epoch.
#[derive(Clone, Copy, Debug, PartialEq, Eq, Structural)]
pub struct Timestamp {
    pub nanosecond: i128,
}

/// A signed span of time, in nanoseconds.
#[derive(Clone, Copy, Debug, PartialEq, Eq, Structural)]
pub struct SignedDuration {
    pub nanos: i128,
}

/// Relies on jiff::Timestamp::now and Timestamp::as_nanosecond: the system
/// clock, which jiff keeps within its supported range.
#[verifier::external_body]
fn clock_nanos() -> (r: i128)
    ensures
        MIN_INSTANT_NANOS <= r <= MAX_INSTANT_NANOS,
{
    jiff::Timestamp::now().as_nanosecond()
}

impl Timestamp {
    /// The current instant, as the system clock reports it.
    pub fn now() -> (r: Timestamp)
        ensures
            MIN_INSTANT_NANOS <= r.nanosecond <= MAX_INSTANT_NANOS,
    {
        Timestamp { nanosecond: clock_nanos() }
    }

    /// The instant `n` nanoseconds after the Unix epoch.
    pub fn from_nanosecond(n: i128) -> (r: Timestamp)
        ensures
            r.nanosecond == n,
    {
        Timestamp { nanosecond: n }
    }

    /// Whether `self` is at or after the instant `start + span`.
    pub fn reached(&self, start: Timestamp, span: SignedDuration) -> (r: bool)
        ensures
            r == (self.nanosecond as int >= start.nanosecond + span.nanos),
    {
        match start.nanosecond.checked_add(span.nanos) {
            Some(end) => self.nanosecond >= end,
            None => span.nanos < 0,
        }
    }
}

impl SignedDuration {
    /// A span of `minutes` minutes.
    pub fn from_mins(minutes: i64) -> (r: SignedDuration)
        ensures
            r.nanos == minutes as int * NANOS_PER_MINUTE,
    {
        let m = minutes as i128;
        assert(-0x8000_0000_0000_0000 <= m <= 0x7fff_ffff_ffff_ffff);
        assert(m * NANOS_PER_MINUTE <= 0x7fff_ffff_ffff_ffff * 60_000_000_000) by (nonlinear_arith)
            requires m <= 0x7fff_ffff_ffff_ffff;
        assert(m * NANOS_PER_MINUTE >= -0x8000_0000_0000_0000 * 60_000_000_000) by (nonlinear_arith)
            requires m >= -0x8000_0000_0000_0000;
        SignedDuration { nanos: m * NANOS_PER_MINUTE }
    }
}

} // verus!
