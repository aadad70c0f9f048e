//! The moment by which a call on a stream has to be done.

use crate::time::{Duration, Instant, NANOS_PER_MILLI};
use vstd::prelude::*;

verus! {

/// The length in milliseconds that a timeout stands for. A negative timeout
/// is read as the unsigned number with the same bits.
pub open spec fn timeout_millis(timeout: i32) -> int {
    if timeout >= 0 {
        timeout as int
    } else {
        timeout + 0x1_0000_0000_0000_0000
    }
}

/// The moment by which a call has to be done, if there is one.
#[derive(Clone, Copy, Debug, PartialEq, Eq, Structural)]
pub struct Deadline {
    pub expires_at: Option<Instant>,
}

impl Deadline {
    /// Whether `now` lies at or after the deadline.
    pub open spec fn is_expired(self, now: Instant) -> bool {
        self.expires_at matches Some(at) && at.nanos <= now.nanos
    }

    /// How long a `poll` started at `now` may wait, in milliseconds: without
    /// limit (`-1`) where there is no deadline, not at all once it has passed,
    /// else the whole milliseconds that are left, held between 1 and `i32::MAX`.
    pub open spec fn wait_millis(self, now: Instant) -> int {
        match self.expires_at {
            None => -1,
            Some(at) => if at.nanos <= now.nanos {
                0
            } else {
                let left = (at.nanos - now.nanos) / (NANOS_PER_MILLI as int);
                if left < 1 {
                    1
                } else if left > i32::MAX {
                    i32::MAX as int
                } else {
                    left
                }
            },
        }
    }

    /// The deadline of a call that starts at `now` under `timeout`
    /// milliseconds, or no deadline where there is no timeout.
    pub open spec fn spec_from_timeout(timeout: Option<i32>, now: Instant) -> Deadline {
        Deadline {
            expires_at: match timeout {
                None => None,
                Some(millis) => Some(
                    Instant {
                        nanos: (now.nanos + timeout_millis(millis) * NANOS_PER_MILLI) as u128,
                    },
                ),
            },
        }
    }

    /// The deadline of a call that starts at `now`: `timeout` milliseconds
    /// later, or none where there is no timeout.
    pub fn from_timeout(timeout: Option<i32>, now: Instant) -> (deadline: Deadline)
        requires
            timeout matches Some(millis) ==> now.nanos + timeout_millis(millis) * NANOS_PER_MILLI
                <= u128::MAX,
        ensures
            deadline == Deadline::spec_from_timeout(timeout, now),
            timeout is None <==> deadline.expires_at is None,
            deadline.expires_at matches Some(at) ==> at.nanos == now.nanos + timeout_millis(
                timeout->0,
            ) * NANOS_PER_MILLI,
    {
        let expires_at = match timeout {
            None => None,
            Some(millis) => {
                let span = Duration::from_millis(millis as u64);
                proof {
                    assert(millis >= 0 ==> millis as u64 == millis) by (bit_vector);
                    assert(millis < 0 ==> millis as u64 == millis + 0x1_0000_0000_0000_0000)
                        by (bit_vector);
                }
                Some(now.after(span))
            },
        };
        Deadline { expires_at }
    }

    /// How long a `poll` started at `now` may wait, in milliseconds.
    pub fn poll_timeout(self, now: Instant) -> (millis: i32)
        ensures
            millis == self.wait_millis(now),
    {
        match self.expires_at {
            None => -1,
            Some(expires_at) => {
                match expires_at.checked_duration_since(now) {
                    None => 0,
                    Some(remaining) => {
                        if remaining.is_zero() {
                            return 0;
                        }
                        let left: u128 = remaining.as_millis();
                        if left < 1 {
                            1
                        } else if left > i32::MAX as u128 {
                            i32::MAX
                        } else {
                            left as i32
                        }
                    },
                }
            },
        }
    }

    /// Whether the deadline has passed at `now`.
    pub fn expired(self, now: Instant) -> (expired: bool)
        ensures
            expired == self.is_expired(now),
    {
        match self.expires_at {
            None => false,
            Some(expires_at) => now.nanos >= expires_at.nanos,
        }
    }
}

} // verus!
