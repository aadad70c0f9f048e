//! The events that a stream waits for.

use vstd::prelude::*;

verus! {

/// The event bit of a device that has data to read.
pub const POLL_READABLE: i16 = 0x1;

/// The event bit of a device that takes data.
pub const POLL_WRITABLE: i16 = 0x4;

/// `libc::POLLIN`: the event bit of a device that has data to read. The
/// contract gives the bit that it has on Linux.
#[verifier::external_body]
pub(crate) fn pollin() -> (events: i16)
    ensures
        events == POLL_READABLE,
{
    libc::POLLIN
}

/// `libc::POLLOUT`: the event bit of a device that takes data. The contract
/// gives the bit that it has on Linux.
#[verifier::external_body]
pub(crate) fn pollout() -> (events: i16)
    ensures
        events == POLL_WRITABLE,
{
    libc::POLLOUT
}

} // verus!
