//! Points in time, and the system clock.
use vstd::prelude::*;

verus! {

/// A point in time: whole seconds since the Unix epoch and the nanoseconds
/// past that second.
#[derive(Debug, Clone, Copy, PartialEq, Eq, PartialOrd, Ord, Hash, Structural)]
pub struct Timestamp {
    /// Whole seconds since 1970-01-01T00:00:00Z.
    pub secs: i64,
    /// Nanoseconds past `secs` (above 999,999,999 only during a leap second).
    pub nanos: u32,
}

/// A time that chrono can hold: the nanosecond part stays below two seconds,
/// and goes past one second only during a leap second, which chrono allows
/// only at the 59th second of a minute.
pub open spec fn is_clock_time(t: Timestamp) -> bool {
    &&& t.nanos < 2_000_000_000
    &&& t.nanos >= 1_000_000_000 ==> t.secs % 60 == 59
}

#[verifier::external_type_specification]
#[verifier::external_body]
pub struct ExSystemTime(std::time::SystemTime);

/// Calls `std::time::SystemTime::now`. Which instant it returns depends on
/// the clock, so nothing is stated of it.
#[verifier::external_body]
fn system_now() -> (t: std::time::SystemTime) {
    std::time::SystemTime::now()
}

/// Calls `SystemTime::duration_since` with `UNIX_EPOCH`, giving the
/// distance of `t` from the epoch as whole seconds and nanoseconds: `Ok`
/// when `t` is at or after the epoch, `Err` (with the distance back to it)
/// when it is before. A `Duration`'s sub-second part is below one second;
/// nothing else is stated, since the reading depends on the clock.
#[verifier::external_body]
fn duration_since_epoch(t: &std::time::SystemTime) -> (r: Result<(u64, u32), (u64, u32)>)
    ensures
        match r {
            Ok((_, nanos)) => nanos < 1_000_000_000,
            Err((_, nanos)) => nanos < 1_000_000_000,
        },
{
    match t.duration_since(std::time::UNIX_EPOCH) {
        Ok(d) => Ok((d.as_secs(), d.subsec_nanos())),
        Err(e) => Err((e.duration().as_secs(), e.duration().subsec_nanos())),
    }
}

/// Whole seconds as an `i64`, the largest `i64` standing for any larger
/// count.
pub open spec fn secs_i64(secs: u64) -> i64 {
    if secs > i64::MAX {
        i64::MAX
    } else {
        secs as i64
    }
}

/// The point in time at a distance from the epoch: `Ok((s, n))` lies `s`
/// seconds and `n` nanoseconds after it, `Err((s, n))` as far before it
/// (so the whole seconds round down and the nanoseconds stay non-negative).
pub open spec fn timestamp_at(offset: Result<(u64, u32), (u64, u32)>) -> Timestamp {
    match offset {
        Ok((secs, nanos)) => Timestamp { secs: secs_i64(secs), nanos },
        Err((secs, nanos)) => if nanos == 0 {
            Timestamp { secs: (-secs_i64(secs)) as i64, nanos: 0 }
        } else {
            Timestamp { secs: (-secs_i64(secs) - 1) as i64, nanos: (1_000_000_000 - nanos) as u32 }
        },
    }
}

/// The timestamp of a distance from the epoch (see [`timestamp_at`]); the
/// nanoseconds of the distance are below one second.
pub fn timestamp_from_epoch_offset(offset: Result<(u64, u32), (u64, u32)>) -> (t: Timestamp)
    requires
        match offset {
            Ok((_, nanos)) => nanos < 1_000_000_000,
            Err((_, nanos)) => nanos < 1_000_000_000,
        },
    ensures
        t == timestamp_at(offset),
        t.nanos < 1_000_000_000,
{
    match offset {
        Ok((secs, nanos)) => {
            let s: i64 = if secs > 9_223_372_036_854_775_807u64 { i64::MAX } else { secs as i64 };
            Timestamp { secs: s, nanos }
        },
        Err((secs, nanos)) => {
            let s: i64 = if secs > 9_223_372_036_854_775_807u64 { i64::MAX } else { secs as i64 };
            if nanos == 0 {
                Timestamp { secs: -s, nanos: 0 }
            } else {
                Timestamp { secs: -s - 1, nanos: 1_000_000_000 - nanos }
            }
        },
    }
}

/// The current time, read from the system clock. Which instant it is
/// depends on the clock and stays unsaid; it is always a time chrono can
/// hold as far as its nanoseconds go.
pub(crate) fn now() -> (t: Timestamp)
    ensures
        is_clock_time(t),
        t.nanos < 1_000_000_000,
{
    let reading = system_now();
    let offset = duration_since_epoch(&reading);
    timestamp_from_epoch_offset(offset)
}

} // verus!
