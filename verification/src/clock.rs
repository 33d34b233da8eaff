//! What is handed to the operating system to set the local clock, and what
//! its answer means.
//!
//! Setting the clock is a privileged call that changes the time for the
//! whole machine. The call itself is made by the program around this
//! library; here stand the two decisions on either side of it: the pair of
//! numbers that the call receives, and the reading of the error code that
//! the system leaves behind.

use vstd::prelude::*;
use vstd::string::StringExecFns;
use crate::text::{decimal, decimal_string};
use crate::timestamp::{CalendarTimestamp, Instant};

verus! {

/// Nanoseconds in one microsecond.
pub const NANOS_PER_MICRO: u32 = 1_000;

/// The argument of the system's time-setting call: seconds since the Unix
/// epoch and microseconds inside the second.
#[derive(Clone, Copy, Debug, PartialEq, Eq)]
pub struct TimeVal {
    /// Whole seconds since the Unix epoch.
    pub tv_sec: i64,
    /// Microseconds since the last second boundary, below one million.
    pub tv_usec: u32,
}

/// Why an attempt to set the clock failed.
#[derive(Clone, Copy, Debug, PartialEq, Eq)]
pub enum ClockError {
    /// The caller lacks the privilege to set the clock.
    PermissionDenied,
    /// The system reported another error, with this code; the code is
    /// never 0.
    Os(i32),
    /// The system this program runs on has no call that sets the clock.
    Unsupported,
}

/// The local clock, seen from the side of the decisions.
pub struct Clock;

impl Clock {
    /// The pair that sets the clock to `t`: its second, and its nanoseconds
    /// cut to whole microseconds.
    pub open spec fn spec_timeval(t: Instant) -> TimeVal {
        TimeVal { tv_sec: t.secs as i64, tv_usec: (t.nanos / (NANOS_PER_MICRO as int)) as u32 }
    }

    /// What an error code left behind by the time-setting call means: no
    /// code and code 0 mean success, every other code is a failure, and
    /// the code `denied` is the failure for want of privilege.
    pub open spec fn spec_outcome(os_error: Option<i32>, denied: i32) -> Result<(), ClockError> {
        match os_error {
            None => Ok(()),
            Some(code) => if code == 0 {
                Ok(())
            } else if code == denied {
                Err(ClockError::PermissionDenied)
            } else {
                Err(ClockError::Os(code))
            },
        }
    }

    /// Computes the argument of the time-setting call for target time `t`.
    pub fn timeval(t: &CalendarTimestamp) -> (tv: TimeVal)
        ensures
            tv == Self::spec_timeval(t@),
            tv.tv_sec == t@.secs,
            tv.tv_usec == t@.nanos / 1_000,
            tv.tv_usec < 1_000_000,
    {
        TimeVal { tv_sec: t.timestamp(), tv_usec: t.timestamp_subsec_nanos() / NANOS_PER_MICRO }
    }

    /// Reads the error code that the system holds after the time-setting
    /// call has returned, `None` where it holds none. `denied` is the code
    /// with which this system refuses a caller that lacks the privilege
    /// (`EPERM`).
    pub fn outcome(os_error: Option<i32>, denied: i32) -> (r: Result<(), ClockError>)
        ensures
            r == Self::spec_outcome(os_error, denied),
            r.is_ok() <==> (os_error.is_none() || os_error == Some(0i32)),
            r != Err::<(), ClockError>(ClockError::Unsupported),
    {
        match os_error {
            None => Ok(()),
            Some(code) => {
                if code == 0 {
                    Ok(())
                } else if code == denied {
                    Err(ClockError::PermissionDenied)
                } else {
                    Err(ClockError::Os(code))
                }
            },
        }
    }
}

impl ClockError {
    /// The text of [`ClockError::message`].
    pub open spec fn spec_message(self) -> Seq<char> {
        match self {
            ClockError::PermissionDenied => "Unable to set the time: permission denied"@,
            ClockError::Os(code) => "Unable to set the time: error "@ + decimal(code as int),
            ClockError::Unsupported => "Unable to set the time: not supported on this system"@,
        }
    }

    /// What to tell the user when the clock could not be set.
    pub fn message(&self) -> (text: String)
        ensures
            text@ == self.spec_message(),
    {
        match self {
            ClockError::PermissionDenied => String::from_str(
                "Unable to set the time: permission denied",
            ),
            ClockError::Os(code) => {
                let number = decimal_string(*code as i64);
                String::from_str("Unable to set the time: error ").concat(number.as_str())
            },
            ClockError::Unsupported => String::from_str(
                "Unable to set the time: not supported on this system",
            ),
        }
    }
}

} // verus!
