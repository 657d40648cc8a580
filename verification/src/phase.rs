use vstd::prelude::*;

verus! {

/// Nanoseconds in one second.
pub const NANOS_PER_SECOND: i64 = 1_000_000_000;

/// The phase instant within the period, in nanoseconds: the second of the
/// minute reduced modulo the period, shifted back one whole second (so a
/// full period elapses before wraparound), plus the sub-second
/// nanoseconds.
pub open spec fn phase_ticks_spec(sec: int, nsec: int, period: int) -> int {
    (sec % period - 1) * 1_000_000_000 + nsec
}

/// Place a clock reading within a repeating period of `period` seconds.
/// Dividing the result by `period * 1_000_000_000` and multiplying by 2π
/// gives the rotation angle of the phase clock.
pub fn phase_ticks(sec: i32, nsec: i32, period: i32) -> (r: i64)
    requires
        1 <= period <= 60,
        0 <= sec <= 60,
        0 <= nsec < 1_000_000_000,
    ensures
        r == phase_ticks_spec(sec as int, nsec as int, period as int),
        -1_000_000_000 <= r < period * 1_000_000_000,
{
    let part_sec: i64 = (sec % period) as i64;
    (part_sec - 1) * NANOS_PER_SECOND + nsec as i64
}

/// Relies on time's `now`: per the documented ranges of the fields of
/// `Tm`, the seconds of the minute lie in `[0, 60]` (60 only on a leap
/// second) and the nanoseconds in `[0, 1_000_000_000)`.
#[verifier::external_body]
fn read_clock() -> (r: (i32, i32))
    ensures
        0 <= r.0 <= 60,
        0 <= r.1 < 1_000_000_000,
{
    let tm = time::now();
    (tm.tm_sec, tm.tm_nsec)
}

/// The phase instant now, for a period of `period` seconds: read the wall
/// clock and place the current instant within the period.  Whatever the
/// clock reads, the result lies in
/// `[-1_000_000_000, period * 1_000_000_000)`.
pub fn current_phase_ticks(period: i32) -> (r: i64)
    requires
        1 <= period <= 60,
    ensures
        -1_000_000_000 <= r < period * 1_000_000_000,
{
    let (sec, nsec) = read_clock();
    phase_ticks(sec, nsec, period)
}

/// Phase range law: for any valid period and any clock reading the phase
/// instant lies in `[-1_000_000_000, period * 1_000_000_000)`; whenever
/// the reduced second is nonzero it is also non-negative, so the derived
/// angle lies in `[0, 2π)`.  (At a period boundary the one-second shift
/// makes the instant negative for the first second of the period.)
pub proof fn lemma_phase_range(sec: int, nsec: int, period: int)
    requires
        1 <= period <= 60,
        0 <= sec <= 60,
        0 <= nsec < 1_000_000_000,
    ensures
        -1_000_000_000 <= phase_ticks_spec(sec, nsec, period) < period * 1_000_000_000,
        sec % period != 0 ==> 0 <= phase_ticks_spec(sec, nsec, period),
{
}

} // verus!
