//! Readings of the two clocks: the monotonic one, by which a span's instants
//! are measured, and the wall clock, which dates its start.
//!
//! A reading depends on the moment at which it is taken, so nothing is
//! promised of it. What is then done with a reading is stated by the
//! functions that take one as an argument.

use vstd::prelude::*;
use vstd::std_specs::convert::FromSpecImpl;
use crate::endian::to_signed;
use crate::schema::RecordValue;
use crate::wire::decoder::signed_i64;

verus! {

#[verifier::external_type_specification]
#[verifier::external_body]
pub struct ExInstant(std::time::Instant);

#[verifier::external_type_specification]
#[verifier::external_body]
pub struct ExSystemTime(std::time::SystemTime);

/// `Instant::now` reads the monotonic clock.
pub assume_specification[ std::time::Instant::now ]() -> std::time::Instant;

/// `Instant::elapsed` measures the time since an earlier reading of the
/// monotonic clock.
pub assume_specification[ std::time::Instant::elapsed ](
    start: &std::time::Instant,
) -> std::time::Duration;

/// `SystemTime::now` reads the wall clock.
pub assume_specification[ std::time::SystemTime::now ]() -> std::time::SystemTime;

/// `Duration::as_nanos` counts the nanoseconds of a duration.
pub assume_specification[ std::time::Duration::as_nanos ](
    duration: &std::time::Duration,
) -> u128;

/// Measures with `SystemTime::duration_since` how long after the Unix epoch
/// `time` lies. The call fails for a time before the epoch; its error is
/// dropped.
#[verifier::external_body]
fn since_epoch(time: &std::time::SystemTime) -> Option<std::time::Duration> {
    time.duration_since(std::time::SystemTime::UNIX_EPOCH).ok()
}

/// The low 64 bits of a count of nanoseconds, as a span keeps its instants.
pub(crate) fn wrap_u64(nanos: u128) -> (low: u64)
    ensures
        low == nanos % 0x1_0000_0000_0000_0000,
{
    (nanos % 0x1_0000_0000_0000_0000u128) as u64
}

/// The low 64 bits of a count of nanoseconds, read in two's complement, as a
/// span keeps its wall-clock times.
pub(crate) fn wrap_i64(nanos: u128) -> (low: i64)
    ensures
        low == to_signed((nanos % 0x1_0000_0000_0000_0000) as nat, 8),
{
    signed_i64(wrap_u64(nanos))
}

/// The nanoseconds elapsed since `start`, on 64 bits.
pub(crate) fn elapsed_nanos(start: &std::time::Instant) -> u64 {
    wrap_u64(start.elapsed().as_nanos())
}

/// The nanoseconds from the Unix epoch to `time`: zero for a time before the
/// epoch.
pub(crate) fn epoch_nanos(time: &std::time::SystemTime) -> u128 {
    match since_epoch(time) {
        Some(duration) => duration.as_nanos(),
        None => 0,
    }
}

/// The nanoseconds from the Unix epoch to `time`, on 64 bits.
pub(crate) fn unix_nanos(time: &std::time::SystemTime) -> i64 {
    wrap_i64(epoch_nanos(time))
}

impl From<std::time::SystemTime> for RecordValue {
    /// The wall-clock time `value`, in nanoseconds since the Unix epoch.
    fn from(value: std::time::SystemTime) -> (r: RecordValue)
        ensures
            r is UnixTime,
    {
        RecordValue::UnixTime(unix_nanos(&value))
    }
}

impl FromSpecImpl<std::time::SystemTime> for RecordValue {
    /// How many nanoseconds a time counts is for the clock to say, so the
    /// conversion has no statement of its own.
    open spec fn obeys_from_spec() -> bool {
        false
    }

    open spec fn from_spec(value: std::time::SystemTime) -> RecordValue {
        arbitrary()
    }
}

} // verus!
