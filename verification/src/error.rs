//! Why a call on a stream failed.

use vstd::prelude::*;

verus! {

/// The error number of a device that is gone.
pub const ENODEV: i32 = 19;

/// The driver requests that a stream makes.
#[derive(Clone, Copy, Debug, PartialEq, Eq, Structural)]
pub enum Ioctl {
    StreamOn,
    StreamOff,
    QueueBuffer,
    DequeueBuffer,
}

impl Ioctl {
    /// The name of the request.
    pub open spec fn spec_name(self) -> Seq<char> {
        match self {
            Ioctl::StreamOn => "VIDIOC_STREAMON"@,
            Ioctl::StreamOff => "VIDIOC_STREAMOFF"@,
            Ioctl::QueueBuffer => "VIDIOC_QBUF"@,
            Ioctl::DequeueBuffer => "VIDIOC_DQBUF"@,
        }
    }

    /// The name of the request.
    pub fn name(self) -> (name: &'static str)
        ensures
            name@ == self.spec_name(),
    {
        match self {
            Ioctl::StreamOn => "VIDIOC_STREAMON",
            Ioctl::StreamOff => "VIDIOC_STREAMOFF",
            Ioctl::QueueBuffer => "VIDIOC_QBUF",
            Ioctl::DequeueBuffer => "VIDIOC_DQBUF",
        }
    }
}

/// The kinds of failure that a stream tells apart.
#[derive(Clone, Copy, Debug, PartialEq, Eq, Structural)]
pub enum ErrorKind {
    /// A signal arrived before the system call was done.
    Interrupted,
    /// The time for the call was over.
    TimedOut,
    /// Anything else.
    Other,
}

/// A failure of a system call, or of a call on a stream.
#[derive(Clone, Copy, Debug, PartialEq, Eq, Structural)]
pub struct Error {
    pub kind: ErrorKind,
    /// The system's error number, where the system reported the failure.
    pub code: Option<i32>,
    /// The request that ran out of time, where the stream reported the failure.
    pub context: Option<Ioctl>,
}

impl Error {
    /// The failure of a call that ran out of time while it waited for `ioctl`.
    pub open spec fn spec_timed_out(ioctl: Ioctl) -> Error {
        Error { kind: ErrorKind::TimedOut, code: None, context: Some(ioctl) }
    }

    /// The failure of a call that ran out of time while it waited for `ioctl`.
    pub fn timed_out(ioctl: Ioctl) -> (error: Error)
        ensures
            error == Error::spec_timed_out(ioctl),
    {
        Error { kind: ErrorKind::TimedOut, code: None, context: Some(ioctl) }
    }

    /// Whether a signal cut the system call short.
    pub open spec fn is_interruption(self) -> bool {
        self.kind is Interrupted
    }
}

} // verus!
