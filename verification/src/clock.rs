//! Reading the system clock, and UTC instants in the form `chrono` uses.
use vstd::prelude::*;

verus! {

/// A point in time as seconds since the Unix epoch plus the nanoseconds
/// past that second, the form in which `chrono` reports a UTC instant.
#[derive(Clone, Copy, Debug, PartialEq, Eq, Structural)]
pub struct UtcTimestamp {
    pub secs: i64,
    pub nanos: u32,
}

/// The last second of the year 9999, the latest instant that a timestamp of
/// this library holds.
pub const MAX_UTC_SECS: i64 = 253_402_300_799;

/// A timestamp that `chrono` can turn into a date: not before the epoch, not
/// after the year 9999, and less than a second of nanoseconds.
pub open spec fn utc_in_range(t: UtcTimestamp) -> bool {
    0 <= t.secs <= MAX_UTC_SECS && t.nanos < 1_000_000_000
}

/// Nanoseconds since the Unix epoch from the system clock (std's
/// `SystemTime::now` measured against `UNIX_EPOCH`, then
/// `Duration::as_nanos`), or `None` when the clock reads earlier than the
/// epoch. The value is the clock's; only its range is stated: a `Duration`
/// holds at most `u64::MAX` whole seconds.
#[verifier::external_body]
pub(crate) fn clock_nanos() -> (r: Option<u128>)
    ensures
        r matches Some(n) ==> n / 1_000_000_000 <= u64::MAX,
{
    match std::time::SystemTime::now().duration_since(std::time::UNIX_EPOCH) {
        Ok(d) => Some(d.as_nanos()),
        Err(_) => None,
    }
}

/// The instant `n` nanoseconds after the epoch, when a timestamp can hold it.
pub fn utc_from_nanos(n: u128) -> (r: Option<UtcTimestamp>)
    ensures
        n / 1_000_000_000 <= MAX_UTC_SECS ==> r == Some(
            UtcTimestamp { secs: (n / 1_000_000_000) as i64, nanos: (n % 1_000_000_000) as u32 },
        ),
        n / 1_000_000_000 > MAX_UTC_SECS ==> r is None,
        r matches Some(t) ==> utc_in_range(t),
{
    let secs = n / 1_000_000_000;
    if secs > 253_402_300_799 {
        return None;
    }
    Some(UtcTimestamp { secs: secs as i64, nanos: (n % 1_000_000_000) as u32 })
}

/// The current UTC time, read from the system clock. The value is the
/// clock's; it is always in range: when the clock reads a time that a
/// timestamp cannot hold (before 1970, or after the year 9999) the epoch is
/// given instead, where `chrono::Utc::now` would panic.
pub fn utc_now() -> (t: UtcTimestamp)
    ensures
        utc_in_range(t),
{
    match clock_nanos() {
        Some(n) => match utc_from_nanos(n) {
            Some(t) => t,
            None => UtcTimestamp { secs: 0, nanos: 0 },
        },
        None => UtcTimestamp { secs: 0, nanos: 0 },
    }
}

} // verus!
