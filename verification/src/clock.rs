//! Reading the current time, in microseconds since the Unix epoch.

use vstd::prelude::*;

verus! {

#[verifier::external_type_specification]
#[verifier::external_body]
pub struct ExSystemTime(std::time::SystemTime);

/// The last second that chrono's `DateTime<Utc>` represents
/// (`DateTime::<Utc>::MAX_UTC`, the end of 31 December 262142), in seconds
/// since the Unix epoch.
pub const LATEST_TIMESTAMP_SECS: u64 = 8_210_266_876_799;

/// Whether chrono's `DateTime::from_timestamp` accepts `secs` seconds and
/// `nanos` nanoseconds after the Unix epoch (`secs` not negative): the date
/// is at most `MAX_UTC`, and the nanosecond part is below one second, or
/// below two seconds when it stands for a leap second (in the last second
/// of a minute).
pub open spec fn in_chrono_range(secs: int, nanos: int) -> bool {
    &&& secs <= LATEST_TIMESTAMP_SECS
    &&& (nanos < 1_000_000_000 || (nanos < 2_000_000_000 && secs % 60 == 59))
}

/// The time of a clock `reading` (seconds and nanoseconds since the Unix
/// epoch) in microseconds, or `None` when there is no reading or chrono does
/// not represent it.
pub open spec fn reading_micros(reading: Option<(u64, u32)>) -> Option<int> {
    match reading {
        None => None,
        Some(r) => if in_chrono_range(r.0 as int, r.1 as int) {
            Some(r.0 * 1_000_000 + r.1 / 1000)
        } else {
            None
        },
    }
}

/// Reads the system clock with `std::time::SystemTime::now`. Nothing is
/// claimed of the value: it depends on the clock.
#[verifier::external_body]
fn system_time_now() -> (now: std::time::SystemTime) {
    std::time::SystemTime::now()
}

/// Measures `time` from the Unix epoch with
/// `SystemTime::duration_since(UNIX_EPOCH)`, and gives the `Duration` as its
/// whole seconds and the nanoseconds past them (`as_secs`,
/// `subsec_nanos`); `None` when `time` is before the epoch. The contract
/// claims only what `Duration` documents: the nanosecond part is below one
/// second. How the result follows from `time` is not stated, since the
/// contents of a `SystemTime` are not visible here.
#[verifier::external_body]
fn duration_since_unix_epoch(time: &std::time::SystemTime) -> (since: Option<(u64, u32)>)
    ensures
        since matches Some(d) ==> d.1 < 1_000_000_000,
{
    match time.duration_since(std::time::UNIX_EPOCH) {
        Ok(d) => Some((d.as_secs(), d.subsec_nanos())),
        Err(_) => None,
    }
}

/// Builds the time `secs` seconds and `nanos` nanoseconds after the Unix
/// epoch with `chrono::DateTime::from_timestamp` and reads it back in
/// microseconds with `timestamp_micros`. For `secs` not negative, the
/// contract states what chrono's source shows: `from_timestamp` gives a
/// time exactly when `in_chrono_range` holds, and that time reads back as
/// `secs * 1_000_000 + nanos / 1000`.
#[verifier::external_body]
fn timestamp_micros_of(secs: i64, nanos: u32) -> (micros: Option<i64>)
    ensures
        secs >= 0 ==> (micros is Some <==> in_chrono_range(secs as int, nanos as int)),
        secs >= 0 ==> (micros matches Some(m) ==> m == secs * 1_000_000 + nanos / 1000),
{
    match chrono::DateTime::from_timestamp(secs, nanos) {
        Some(t) => Some(t.timestamp_micros()),
        None => None,
    }
}

/// The current reading of the system clock: the seconds and nanoseconds
/// since the Unix epoch, or `None` when the clock is set before the epoch.
pub fn read_clock() -> (reading: Option<(u64, u32)>)
    ensures
        reading matches Some(r) ==> r.1 < 1_000_000_000,
{
    let now = system_time_now();
    duration_since_unix_epoch(&now)
}

/// The time of a clock `reading` in microseconds since the Unix epoch, as
/// chrono gives it: `None` when there is no reading, or when chrono does not
/// represent it (after `DateTime::<Utc>::MAX_UTC`, or with a nanosecond
/// part that is not a valid fraction or leap second); otherwise
/// `secs * 1_000_000 + nanos / 1000`.
pub fn micros_of_reading(reading: Option<(u64, u32)>) -> (micros: Option<i64>)
    ensures
        match reading_micros(reading) {
            Some(m) => micros matches Some(x) && x == m,
            None => micros is None,
        },
        micros matches Some(x) ==> x >= 0,
{
    match reading {
        None => None,
        Some(r) => {
            let (secs, nanos) = r;
            if secs <= LATEST_TIMESTAMP_SECS {
                timestamp_micros_of(secs as i64, nanos)
            } else {
                None
            }
        },
    }
}

} // verus!
