//! Calendar time as the native engine fills it in, and the typing of the
//! engine's answer.
//!
//! The engine is reached over the C ABI by the code around this library. What
//! it hands back is given to this module as plain values.

use libc::{c_int, c_long};
use vstd::prelude::*;

verus! {

/// A moment broken down into calendar fields: a snapshot with no tie back to the
/// engine that made it. The fields are those of C's `struct tm`, but for the
/// zone's name, which is left out because nothing bounds the lifetime of the
/// storage behind it.
#[derive(Clone, Copy, Debug, PartialEq, Eq, Structural)]
pub struct CalendarTime {
    /// Seconds after the minute.
    pub tm_sec: c_int,
    /// Minutes after the hour.
    pub tm_min: c_int,
    /// Hours since midnight.
    pub tm_hour: c_int,
    /// Day of the month, from 1.
    pub tm_mday: c_int,
    /// Months since January.
    pub tm_mon: c_int,
    /// Years since 1900.
    pub tm_year: c_int,
    /// Days since Sunday.
    pub tm_wday: c_int,
    /// Days since January 1.
    pub tm_yday: c_int,
    /// Above zero while daylight saving time is in effect, zero while not,
    /// below zero where that is not known.
    pub tm_isdst: c_int,
    /// Seconds east of UTC.
    pub tm_gmtoff: c_long,
}

/// A conversion that the engine gave up: the platform's last-error code as it
/// stood right after the call.
#[derive(Clone, Copy, Debug, PartialEq, Eq, Structural)]
pub struct ConversionError {
    /// The raw code of the operating system's error.
    pub code: i32,
}

/// Types the answer of the engine's conversion from seconds since the epoch to
/// calendar time.
///
/// The engine answers with a pointer, null on failure, and fills `out` on
/// success. `returned_null` says which it was, and `last_os_error` is the
/// platform's last-error code read after the call. A failure becomes an error
/// that carries the code; a success is `out` as the engine left it.
pub fn localtime(returned_null: bool, out: CalendarTime, last_os_error: i32) -> (result: Result<
    CalendarTime,
    ConversionError,
>)
    ensures
        returned_null ==> result == Err::<CalendarTime, ConversionError>(
            (ConversionError { code: last_os_error }),
        ),
        !returned_null ==> result == Ok::<CalendarTime, ConversionError>(out),
{
    if returned_null {
        Err(ConversionError { code: last_os_error })
    } else {
        Ok(out)
    }
}

} // verus!
