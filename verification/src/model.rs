//! The state of a stream, and how replies of the system change it.

use crate::buffer::{BufferRecord, Metadata, Timestamp, Type, MEMORY_MMAP};
use crate::call::{Attempt, Call, Goal, Outcome, Progress, Reply, Request, Stage};
use crate::deadline::Deadline;
use crate::poll::{POLL_READABLE, POLL_WRITABLE};
use crate::time::Instant;
use vstd::prelude::*;

verus! {

/// What a stream knows.
#[verifier::ext_equal]
pub struct StreamView {
    /// The descriptor of the device.
    pub fd: i32,
    /// The type of the buffers.
    pub buf_type: Type,
    /// For each buffer, whether the driver has it.
    pub queued: Seq<bool>,
    /// For each buffer, what is known of its contents.
    pub meta: Seq<Metadata>,
    /// How far the first queueing of all buffers has come.
    pub cursor: int,
    /// The buffer that the driver handed back last.
    pub current: int,
    /// The time that a call may take, in milliseconds.
    pub timeout: Option<i32>,
    /// Whether the stream was started.
    pub active: bool,
}

impl StreamView {
    /// The first position from `from` on that `queued` does not mark, or the
    /// length of `queued` where it marks them all.
    pub open spec fn first_unqueued(queued: Seq<bool>, from: int) -> int
        decreases queued.len() - from,
    {
        if 0 <= from < queued.len() && queued[from] {
            StreamView::first_unqueued(queued, from + 1)
        } else {
            from
        }
    }

    /// A stream over `count` buffers of which none was ever queued.
    pub open spec fn fresh(fd: i32, buf_type: Type, count: nat) -> StreamView {
        StreamView {
            fd,
            buf_type,
            queued: Seq::new(count, |i: int| false),
            meta: Seq::new(count, |i: int| Metadata::blank()),
            cursor: 0,
            current: 0,
            timeout: None,
            active: false,
        }
    }

    /// The number of buffers.
    pub open spec fn count(self) -> nat {
        self.queued.len()
    }

    /// What holds of every stream. The cursor never rests on a queued buffer.
    pub open spec fn wf(self) -> bool {
        &&& self.count() == self.meta.len()
        &&& self.count() <= u32::MAX
        &&& 0 <= self.cursor <= self.count()
        &&& self.cursor < self.count() ==> !self.queued[self.cursor]
        &&& 0 <= self.current
        &&& self.current < self.count() || self.current == 0
        &&& self.timeout matches Some(millis) ==> millis >= 0
    }

    /// The stream after the driver took buffer `index`.
    pub open spec fn with_queued(self, index: int) -> StreamView {
        let queued = self.queued.update(index, true);
        StreamView { queued, cursor: StreamView::first_unqueued(queued, self.cursor), ..self }
    }

    /// The stream after the driver took the buffers `indices`, in that order.
    pub open spec fn with_all_queued(self, indices: Seq<int>) -> StreamView
        decreases indices.len(),
    {
        if indices.len() == 0 {
            self
        } else {
            self.with_all_queued(indices.drop_last()).with_queued(indices.last())
        }
    }

    /// The stream after the driver handed a buffer back with `record`.
    pub open spec fn with_dequeued(self, record: BufferRecord) -> StreamView {
        StreamView {
            queued: self.queued.update(record.index as int, false),
            meta: self.meta.update(record.index as int, record.spec_metadata()),
            current: record.index as int,
            ..self
        }
    }

    /// The stream after the driver stopped it and let go of all buffers.
    pub open spec fn stopped(self) -> StreamView {
        StreamView {
            queued: Seq::new(self.count(), |i: int| false),
            cursor: 0,
            current: 0,
            active: false,
            ..self
        }
    }

    /// The stage in which a capture stream that was not started goes on: the
    /// first buffer that is still to be queued, or else the start itself.
    pub open spec fn startup_stage(self) -> Stage {
        if self.cursor < self.count() {
            Stage::QueueCapture { index: self.cursor as usize }
        } else {
            Stage::StreamOn
        }
    }

    /// The stage in which a call for `goal` begins.
    pub open spec fn first_stage(self, goal: Goal) -> Stage {
        match goal {
            Goal::Start => Stage::StreamOn,
            Goal::Stop => Stage::StreamOff,
            Goal::CaptureQueue { index } => Stage::QueueCapture { index },
            Goal::CaptureDequeue => Stage::PollCapture,
            Goal::CaptureNext => if !self.active {
                self.startup_stage()
            } else if !self.queued[self.current] {
                Stage::QueueCapture { index: self.current as usize }
            } else {
                Stage::PollCapture
            },
            Goal::OutputQueue { index } => Stage::PollOutput { index },
            Goal::OutputDequeue => Stage::Dequeue,
            Goal::OutputNext => if !self.active {
                Stage::StreamOn
            } else if !self.queued[self.current] {
                Stage::PollOutput { index: self.current as usize }
            } else {
                Stage::Dequeue
            },
        }
    }

    /// The call for `goal` that begins at `now`.
    pub open spec fn begun(self, goal: Goal, now: Instant) -> Call {
        Call {
            goal,
            stage: self.first_stage(goal),
            deadline: Deadline::spec_from_timeout(self.timeout, now),
        }
    }

    /// Whether a call for `goal` may begin. An output buffer has to exist, and
    /// so has the current buffer of a started stream.
    pub open spec fn may_begin(self, goal: Goal) -> bool {
        match goal {
            Goal::OutputQueue { index } => index < self.count(),
            Goal::CaptureNext | Goal::OutputNext => self.active ==> self.count() > 0,
            _ => true,
        }
    }

    /// Whether `call` can be under way on this stream.
    pub open spec fn admits(self, call: Call) -> bool {
        match (call.goal, call.stage) {
            (Goal::Start, Stage::StreamOn) => true,
            (Goal::Stop, Stage::StreamOff) => true,
            (Goal::CaptureQueue { index }, Stage::QueueCapture { index: i }) => i == index,
            (Goal::CaptureDequeue, Stage::PollCapture | Stage::Dequeue) => true,
            (Goal::CaptureNext, Stage::QueueCapture { index }) => {
                &&& index < self.count()
                &&& !self.queued[index as int]
                &&& index == (if self.active {
                    self.current
                } else {
                    self.cursor
                })
            },
            (Goal::CaptureNext, Stage::StreamOn) => !self.active && self.cursor == self.count(),
            (Goal::CaptureNext, Stage::PollCapture | Stage::Dequeue) => self.active,
            (Goal::OutputQueue { index }, Stage::PollOutput { index: i }) => i == index && i
                < self.count(),
            (Goal::OutputQueue { index }, Stage::QueueOutput { index: i }) => i == index && i
                < self.count(),
            (Goal::OutputDequeue, Stage::Dequeue) => true,
            (
                Goal::OutputNext,
                Stage::PollOutput { index } | Stage::QueueOutput { index },
            ) => self.active && index == self.current && index < self.count()
                && !self.queued[index as int],
            (Goal::OutputNext, Stage::StreamOn) => !self.active,
            (Goal::OutputNext, Stage::Dequeue) => self.active,
            _ => false,
        }
    }

    /// Whether `reply` can be the system's answer in `stage`. The driver takes
    /// and hands back only buffers that exist.
    pub open spec fn may_reply(self, stage: Stage, reply: Reply) -> bool {
        &&& reply.answers(stage)
        &&& match stage {
            Stage::QueueCapture { index } => reply.succeeded() ==> index < self.count(),
            Stage::Dequeue => reply matches Reply::Dequeued(Ok(record)) ==> record.index
                < self.count(),
            _ => true,
        }
    }

    /// A record of one of the stream's buffers with nothing filled in.
    pub open spec fn blank_record(self) -> BufferRecord {
        BufferRecord {
            index: 0,
            type_: self.buf_type.spec_code(),
            bytesused: 0,
            flags: 0,
            field: 0,
            timestamp: Timestamp { sec: 0, usec: 0 },
            sequence: 0,
            memory: MEMORY_MMAP,
        }
    }

    /// What `call` asks of the system at `now`.
    pub open spec fn request(self, call: Call, now: Instant) -> Request {
        match call.stage {
            Stage::StreamOn => Request::StreamOn { type_: self.buf_type.spec_code() },
            Stage::StreamOff => Request::StreamOff { type_: self.buf_type.spec_code() },
            Stage::QueueCapture { index } => Request::QueueBuffer {
                record: BufferRecord { index: index as u32, ..self.blank_record() },
            },
            Stage::PollOutput { .. } => Request::Poll {
                events: POLL_WRITABLE,
                timeout: call.deadline.wait_millis(now) as i32,
            },
            Stage::QueueOutput { index } => Request::QueueBuffer {
                record: BufferRecord {
                    index: index as u32,
                    bytesused: self.meta[index as int].bytesused,
                    field: self.meta[index as int].field,
                    ..self.blank_record()
                },
            },
            Stage::PollCapture => Request::Poll {
                events: POLL_READABLE,
                timeout: call.deadline.wait_millis(now) as i32,
            },
            Stage::Dequeue => Request::DequeueBuffer { record: self.blank_record() },
        }
    }

    /// The stream after the system did what `stage` asks for.
    pub open spec fn completed(self, stage: Stage, reply: Reply) -> StreamView {
        match (stage, reply) {
            (Stage::StreamOn, _) => StreamView { active: true, ..self },
            (Stage::StreamOff, _) => self.stopped(),
            (Stage::QueueCapture { index }, _) => self.with_queued(index as int),
            (Stage::QueueOutput { index }, _) => self.with_queued(index as int),
            (Stage::Dequeue, Reply::Dequeued(Ok(record))) => self.with_dequeued(record),
            _ => self,
        }
    }

    /// The stage that a call for `goal` enters once `stage` is behind it and
    /// has left the stream as it is now, or none where the call is done.
    pub open spec fn following(self, goal: Goal, stage: Stage) -> Option<Stage> {
        match (goal, stage) {
            (Goal::CaptureNext, Stage::QueueCapture { .. }) => if !self.active {
                Some(self.startup_stage())
            } else {
                Some(Stage::PollCapture)
            },
            (Goal::CaptureNext, Stage::StreamOn) => Some(Stage::PollCapture),
            (Goal::CaptureNext | Goal::CaptureDequeue, Stage::PollCapture) => Some(Stage::Dequeue),
            (Goal::OutputNext | Goal::OutputQueue { .. }, Stage::PollOutput { index }) => Some(
                Stage::QueueOutput { index },
            ),
            (Goal::OutputNext, Stage::QueueOutput { .. }) => Some(Stage::Dequeue),
            _ => None,
        }
    }

    /// What a call for `goal` has achieved when it is done.
    pub open spec fn outcome(self, goal: Goal) -> Outcome {
        match goal {
            Goal::CaptureDequeue | Goal::OutputDequeue => Outcome::Dequeued {
                index: self.current as usize,
            },
            Goal::CaptureNext | Goal::OutputNext => Outcome::Frame { index: self.current as usize },
            _ => Outcome::Completed,
        }
    }

    /// The most system calls that still have to succeed for `call`.
    pub open spec fn most_steps(self, call: Call) -> int {
        match (call.goal, call.stage) {
            (Goal::CaptureNext, Stage::QueueCapture { .. }) => if self.active {
                3
            } else {
                self.count() - self.cursor + 3
            },
            (Goal::CaptureNext, Stage::StreamOn) => 3,
            (_, Stage::PollCapture) => 2,
            (Goal::OutputNext, Stage::PollOutput { .. }) => 3,
            (_, Stage::PollOutput { .. }) => 2,
            (Goal::OutputNext, Stage::QueueOutput { .. }) => 2,
            _ => 1,
        }
    }

    /// The stream after `reply` reached `call`.
    pub open spec fn after(self, call: Call, reply: Reply) -> StreamView {
        if reply.succeeded() {
            self.completed(call.stage, reply)
        } else {
            self
        }
    }

    /// Where `call` stands after `reply` reached it at `now`.
    pub open spec fn progress(self, call: Call, reply: Reply, now: Instant) -> Progress {
        match call.attempt(reply, now) {
            Attempt::Retry => Progress::Pending(call),
            Attempt::Over(Err(error)) => Progress::Finished(Err(error)),
            Attempt::Over(Ok(_)) => {
                let after = self.completed(call.stage, reply);
                match after.following(call.goal, call.stage) {
                    Some(stage) => Progress::Pending(Call { stage, ..call }),
                    None => Progress::Finished(Ok(after.outcome(call.goal))),
                }
            },
        }
    }
}

} // verus!
