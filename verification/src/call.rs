//! Calls on a stream, taken one system call at a time.
//!
//! A [`Call`] is begun for a [`Goal`] and then waits in one [`Stage`] after
//! the other. In each stage it asks for a [`SystemCall`]; the [`Reply`] to that
//! takes it on, as [`Progress`] tells.

use crate::buffer::BufferRecord;
use crate::deadline::Deadline;
use crate::error::{Error, Ioctl};
use crate::time::Instant;
use vstd::prelude::*;

verus! {

/// What a call on a stream is to achieve.
#[derive(Clone, Copy, Debug, PartialEq, Eq, Structural)]
pub enum Goal {
    /// Start streaming.
    Start,
    /// Stop streaming.
    Stop,
    /// Hand a buffer to the driver to be filled.
    CaptureQueue { index: usize },
    /// Take a filled buffer back from the driver.
    CaptureDequeue,
    /// Get the next captured frame.
    CaptureNext,
    /// Hand a buffer to the driver to be shown.
    OutputQueue { index: usize },
    /// Take a shown buffer back from the driver.
    OutputDequeue,
    /// Get the next buffer to fill for output.
    OutputNext,
}

impl Goal {
    /// Whether the call moves on to the next frame.
    pub open spec fn is_next(self) -> bool {
        self is CaptureNext || self is OutputNext
    }
}

/// The system call that a call on a stream waits for.
#[derive(Clone, Copy, Debug, PartialEq, Eq, Structural)]
pub enum Stage {
    StreamOn,
    StreamOff,
    /// Queueing a buffer for capture.
    QueueCapture { index: usize },
    /// Waiting until the device takes output, to queue a buffer then.
    PollOutput { index: usize },
    /// Queueing a buffer for output.
    QueueOutput { index: usize },
    /// Waiting until the device has a captured frame.
    PollCapture,
    Dequeue,
}

impl Stage {
    /// The request that the stage is about, which a timeout is reported under.
    pub open spec fn spec_ioctl(self) -> Ioctl {
        match self {
            Stage::StreamOn => Ioctl::StreamOn,
            Stage::StreamOff => Ioctl::StreamOff,
            Stage::QueueCapture { .. } => Ioctl::QueueBuffer,
            Stage::PollOutput { .. } => Ioctl::QueueBuffer,
            Stage::QueueOutput { .. } => Ioctl::QueueBuffer,
            Stage::PollCapture => Ioctl::DequeueBuffer,
            Stage::Dequeue => Ioctl::DequeueBuffer,
        }
    }

    /// The buffer that the stage is about to hand to the driver, if any.
    pub open spec fn queues(self) -> Option<usize> {
        match self {
            Stage::QueueCapture { index } => Some(index),
            Stage::PollOutput { index } => Some(index),
            Stage::QueueOutput { index } => Some(index),
            _ => None,
        }
    }
}

/// A call on a stream that is not done yet.
#[derive(Clone, Copy, Debug, PartialEq, Eq, Structural)]
pub struct Call {
    pub goal: Goal,
    pub stage: Stage,
    /// The moment by which the whole call has to be done.
    pub deadline: Deadline,
}

/// What is asked of the system.
#[derive(Clone, Copy, Debug, PartialEq, Eq, Structural)]
pub enum Request {
    /// `VIDIOC_STREAMON` for buffers with this type code.
    StreamOn { type_: u32 },
    /// `VIDIOC_STREAMOFF` for buffers with this type code.
    StreamOff { type_: u32 },
    /// `VIDIOC_QBUF` with this record.
    QueueBuffer { record: BufferRecord },
    /// `VIDIOC_DQBUF` with this record.
    DequeueBuffer { record: BufferRecord },
    /// `poll` for these events, for at most this many milliseconds.
    Poll { events: i16, timeout: i32 },
}

/// A system call to make.
#[derive(Clone, Copy, Debug, PartialEq, Eq, Structural)]
pub struct SystemCall {
    /// The descriptor to make the call on.
    pub fd: i32,
    pub request: Request,
}

/// What the system answered.
#[derive(Clone, Copy, Debug, PartialEq, Eq)]
pub enum Reply {
    /// The answer to a request that hands nothing back.
    Ioctl(Result<(), Error>),
    /// The answer to `VIDIOC_DQBUF`: the record as the driver filled it.
    Dequeued(Result<BufferRecord, Error>),
    /// The answer to `poll`: the number of descriptors that are ready.
    Polled(Result<i32, Error>),
}

impl Reply {
    /// Whether this can be the answer to what `stage` asks for.
    pub open spec fn answers(self, stage: Stage) -> bool {
        match stage {
            Stage::PollOutput { .. } => self is Polled,
            Stage::PollCapture => self is Polled,
            Stage::Dequeue => self is Dequeued,
            _ => self is Ioctl,
        }
    }

    /// The failure that the system reported, if any.
    pub open spec fn failure(self) -> Option<Error> {
        match self {
            Reply::Ioctl(Err(error)) => Some(error),
            Reply::Dequeued(Err(error)) => Some(error),
            Reply::Polled(Err(error)) => Some(error),
            _ => None,
        }
    }

    /// Whether a signal cut the system call short.
    pub open spec fn is_interruption(self) -> bool {
        self.failure() matches Some(error) && error.is_interruption()
    }

    /// Whether the system did what it was asked for. A `poll` that finds
    /// nothing ready did not.
    pub open spec fn succeeded(self) -> bool {
        self.failure() is None && self != Reply::Polled(Ok(0))
    }
}

/// How one attempt at a system call ended.
#[derive(Debug, PartialEq, Eq)]
pub enum Attempt<T> {
    /// It was interrupted, and there is time to try again.
    Retry,
    /// It is over.
    Over(Result<T, Error>),
}

/// What a call on a stream achieved.
#[derive(Clone, Copy, Debug, PartialEq, Eq, Structural)]
pub enum Outcome {
    /// The stream was started or stopped, or the buffer was queued.
    Completed,
    /// The driver handed this buffer back.
    Dequeued { index: usize },
    /// This buffer is the caller's, until the next frame is asked for.
    Frame { index: usize },
}

/// Where a call on a stream stands after a reply.
#[derive(Clone, Copy, Debug, PartialEq, Eq)]
pub enum Progress {
    /// The call waits for another system call.
    Pending(Call),
    /// The call is done.
    Finished(Result<Outcome, Error>),
}

impl Deadline {
    /// How one attempt at a request ends that the system answered with `reply`
    /// at `now`: an interrupted one is tried again until the deadline has
    /// passed, and then runs out of time; any other answer stands.
    pub open spec fn ioctl_attempt<T>(
        self,
        ioctl: Ioctl,
        reply: Result<T, Error>,
        now: Instant,
    ) -> Attempt<T> {
        match reply {
            Err(error) => if !error.is_interruption() {
                Attempt::Over(Err(error))
            } else if self.is_expired(now) {
                Attempt::Over(Err(Error::spec_timed_out(ioctl)))
            } else {
                Attempt::Retry
            },
            Ok(value) => Attempt::Over(Ok(value)),
        }
    }

    /// How one attempt to wait for the device ends that `poll` answered with
    /// `reply` at `now`: it runs out of time where nothing is ready, and is
    /// otherwise judged as a request is.
    pub open spec fn poll_attempt(
        self,
        ioctl: Ioctl,
        reply: Result<i32, Error>,
        now: Instant,
    ) -> Attempt<()> {
        match reply {
            Ok(ready) => if ready == 0 {
                Attempt::Over(Err(Error::spec_timed_out(ioctl)))
            } else {
                Attempt::Over(Ok(()))
            },
            Err(error) => self.ioctl_attempt(ioctl, Err(error), now),
        }
    }
}

impl Call {
    /// How the attempt ends that the call waits for and that was answered with
    /// `reply` at `now`.
    pub open spec fn attempt(self, reply: Reply, now: Instant) -> Attempt<()> {
        let ioctl = self.stage.spec_ioctl();
        match reply {
            Reply::Ioctl(result) => self.deadline.ioctl_attempt(ioctl, result, now),
            Reply::Polled(result) => self.deadline.poll_attempt(ioctl, result, now),
            Reply::Dequeued(Ok(_)) => Attempt::Over(Ok(())),
            Reply::Dequeued(Err(error)) => self.deadline.ioctl_attempt(ioctl, Err(error), now),
        }
    }
}

} // verus!
