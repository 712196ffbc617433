use std::time::Duration;
use std::time::Instant;
use vstd::prelude::*;

verus! {

/// Microseconds elapsed since the server's monotonic epoch.
pub type ServerTimeUs = u64;

#[verifier::external_type_specification]
#[verifier::external_body]
pub struct ExInstant(Instant);

/// Whole microseconds in a `Duration`, as `Duration::as_micros` reports them.
pub uninterp spec fn duration_micros(d: Duration) -> u128;

/// `Instant::now`: the current reading of the monotonic clock. Nothing is
/// claimed of the value.
#[verifier::external_body]
fn instant_now() -> Instant {
    Instant::now()
}

/// `Instant::elapsed`: time passed since `start`. It depends on when it is
/// called, so nothing is claimed of the value.
#[verifier::external_body]
fn instant_elapsed(start: &Instant) -> Duration {
    start.elapsed()
}

/// `Duration::as_micros`: the whole number of microseconds in `d`, given the
/// name `duration_micros`.
#[verifier::external_body]
pub(crate) fn duration_as_micros(d: &Duration) -> (r: u128)
    ensures
        r == duration_micros(*d),
{
    d.as_micros()
}

/// The value `duration_to_us` reports for a microsecond count: the count,
/// saturated at `u64::MAX`.
pub open spec fn saturate_micros(micros: u128) -> u64 {
    if micros > u64::MAX as u128 {
        u64::MAX
    } else {
        micros as u64
    }
}

/// The duration `Duration::from_millis` makes of `ms` milliseconds.
pub uninterp spec fn millis_duration(ms: u64) -> Duration;

/// `Duration::from_millis`: a duration of `ms` milliseconds, given the name
/// `millis_duration`; by its documentation it holds `ms * 1000` whole
/// microseconds.
#[verifier::external_body]
pub(crate) fn duration_from_millis(ms: u64) -> (d: Duration)
    ensures
        d == millis_duration(ms),
        duration_micros(d) == ms as int * 1000,
{
    Duration::from_millis(ms)
}

/// Saturates a microsecond count into a `u64`.
pub fn micros_to_u64(micros: u128) -> (r: u64)
    ensures
        r == saturate_micros(micros),
{
    if micros > u64::MAX as u128 {
        u64::MAX
    } else {
        micros as u64
    }
}

/// Whole microseconds in `d`, saturated at `u64::MAX`.
pub fn duration_to_us(d: Duration) -> (r: u64)
    ensures
        r == saturate_micros(duration_micros(d)),
{
    let micros = duration_as_micros(&d);
    micros_to_u64(micros)
}

/// Wraps the server's monotonic epoch. The only source of session time.
///
/// Deliberately does not wrap wall-clock time: a monotonic clock never moves
/// backwards, which wall-clock time can when the OS applies a correction.
#[derive(Debug, Clone, Copy)]
pub struct Clock {
    epoch: Instant,
}

impl Clock {
    /// A clock whose epoch is the moment of the call.
    pub fn new() -> (c: Self) {
        Clock { epoch: instant_now() }
    }

    /// Microseconds since this clock's epoch, saturated at `u64::MAX`: the
    /// whole microseconds of the `Duration` the monotonic clock reports as
    /// elapsed since the epoch. Which duration that is depends on when the
    /// call is made.
    pub fn now_us(&self) -> (r: ServerTimeUs)
        ensures
            exists|elapsed: Duration| r == saturate_micros(#[trigger] duration_micros(elapsed)),
    {
        let elapsed = instant_elapsed(&self.epoch);
        let r = duration_to_us(elapsed);
        assert(r == saturate_micros(duration_micros(elapsed)));
        r
    }
}

impl Default for Clock {
    fn default() -> (c: Self) {
        Clock::new()
    }
}

} // verus!
