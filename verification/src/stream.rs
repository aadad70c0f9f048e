//! A stream of memory-mapped buffers.

use crate::buffer::{BufferRecord, Metadata, Timestamp, Type, MEMORY_MMAP};
use crate::call::{Attempt, Call, Goal, Outcome, Progress, Reply, Request, Stage, SystemCall};
use crate::deadline::Deadline;
use crate::device::{Device, Handle};
use crate::error::{Error, ErrorKind, Ioctl, ENODEV};
use crate::model::StreamView;
use crate::poll::{pollin, pollout};
use crate::time::{Clock, Duration, Instant, NANOS_PER_MILLI};
use std::sync::Arc;
use vstd::prelude::*;

verus! {

/// The number of buffers of a stream that was not given one.
pub const DEFAULT_BUFFER_COUNT: u32 = 4;

/// The buffers that a new stream needs from the driver.
#[derive(Debug)]
pub struct Allocation {
    handle: Arc<Handle>,
    buf_type: Type,
    buf_count: u32,
}

impl Allocation {
    /// The descriptor of the device.
    pub closed spec fn fd(self) -> i32 {
        self.handle.fd
    }

    /// The type of the buffers.
    pub closed spec fn spec_buf_type(self) -> Type {
        self.buf_type
    }

    /// The number of buffers.
    pub closed spec fn spec_buf_count(self) -> u32 {
        self.buf_count
    }

    /// The raw device handle.
    pub fn handle(&self) -> (handle: Arc<Handle>)
        ensures
            handle.fd == self.fd(),
    {
        self.handle.clone()
    }

    /// The type of the buffers to allocate.
    pub fn buf_type(&self) -> (buf_type: Type)
        ensures
            buf_type == self.spec_buf_type(),
    {
        self.buf_type
    }

    /// The number of buffers to ask for.
    pub fn buf_count(&self) -> (buf_count: u32)
        ensures
            buf_count == self.spec_buf_count(),
    {
        self.buf_count
    }

    /// The stream over the buffers that the driver allocated. The driver may
    /// have allocated another number than was asked for.
    pub fn finish(self, allocated: Result<u32, Error>) -> (stream: Result<Stream, Error>)
        ensures
            match allocated {
                Ok(count) => stream matches Ok(stream) && stream@.wf() && stream@
                    == StreamView::fresh(self.fd(), self.spec_buf_type(), count as nat),
                Err(error) => stream matches Err(e) && e == error,
            },
    {
        let count: u32 = match allocated {
            Ok(count) => count,
            Err(error) => {
                return Err(error);
            },
        };
        let mut buf_meta: Vec<Metadata> = Vec::new();
        buf_meta.resize(count as usize, Metadata::default());
        let buffer_queued: Vec<bool> = vec![false; count as usize];
        let stream = Stream {
            handle: self.handle,
            arena_index: 0,
            buffer_queued,
            capture_initial_queue_index: 0,
            buf_type: self.buf_type,
            buf_meta,
            timeout: None,
            active: false,
        };
        Ok(stream)
    }
}

/// Stream of mapped buffers
///
/// A stream keeps track of which buffers the driver has and decides which
/// system call comes next. The buffers themselves are known by their index.
#[derive(Debug)]
pub struct Stream {
    handle: Arc<Handle>,
    arena_index: usize,
    // True means the buffer has been successfully handed to the driver with
    // QBUF and should not be queued again before DQBUF returns it.
    buffer_queued: Vec<bool>,
    // Startup queueing can be interrupted after partial progress. This cursor
    // lets the next call resume without replaying successful QBUFs.
    capture_initial_queue_index: usize,
    buf_type: Type,
    buf_meta: Vec<Metadata>,
    timeout: Option<i32>,
    active: bool,
}

impl View for Stream {
    type V = StreamView;

    closed spec fn view(&self) -> StreamView {
        StreamView {
            fd: self.handle.fd,
            buf_type: self.buf_type,
            queued: self.buffer_queued@,
            meta: self.buf_meta@,
            cursor: self.capture_initial_queue_index as int,
            current: self.arena_index as int,
            timeout: self.timeout,
            active: self.active,
        }
    }
}

impl Stream {
    /// The allocation for a stream over four buffers of `dev`.
    pub fn new(dev: &Device, buf_type: Type) -> (allocation: Allocation)
        ensures
            allocation.fd() == dev.fd(),
            allocation.spec_buf_type() == buf_type,
            allocation.spec_buf_count() == 4,
    {
        Stream::with_buffers(dev, buf_type, DEFAULT_BUFFER_COUNT)
    }

    /// The allocation for a stream over `buf_count` buffers of `dev`.
    pub fn with_buffers(dev: &Device, buf_type: Type, buf_count: u32) -> (allocation: Allocation)
        ensures
            allocation.fd() == dev.fd(),
            allocation.spec_buf_type() == buf_type,
            allocation.spec_buf_count() == buf_count,
    {
        Allocation { handle: dev.handle(), buf_type, buf_count }
    }

    /// Returns the raw device handle
    pub fn handle(&self) -> (handle: Arc<Handle>)
        ensures
            handle.fd == self@.fd,
    {
        self.handle.clone()
    }

    /// Sets a timeout of the v4l file handle. It is kept in milliseconds, which
    /// have to fit an `i32`.
    pub fn set_timeout(&mut self, duration: Duration)
        requires
            old(self)@.wf(),
            duration.nanos / NANOS_PER_MILLI <= i32::MAX,
        ensures
            final(self)@.wf(),
            final(self)@ == (StreamView {
                timeout: Some((duration.nanos / NANOS_PER_MILLI) as i32),
                ..old(self)@
            }),
    {
        self.timeout = Some(duration.as_millis() as i32);
    }

    /// Clears the timeout of the v4l file handle.
    pub fn clear_timeout(&mut self)
        requires
            old(self)@.wf(),
        ensures
            final(self)@.wf(),
            final(self)@ == (StreamView { timeout: None, ..old(self)@ }),
    {
        self.timeout = None;
    }

    /// A record of one of the stream's buffers with nothing filled in.
    fn buffer_desc(&self) -> (record: BufferRecord)
        ensures
            record == self@.blank_record(),
    {
        BufferRecord {
            index: 0,
            type_: self.buf_type.code(),
            bytesused: 0,
            flags: 0,
            field: 0,
            timestamp: Timestamp { sec: 0, usec: 0 },
            sequence: 0,
            memory: MEMORY_MMAP,
        }
    }

    /// The deadline of a call that begins at `now`.
    fn timeout_deadline(&self, now: Instant) -> (deadline: Deadline)
        requires
            self@.wf(),
            now.readable(),
        ensures
            deadline == Deadline::spec_from_timeout(self@.timeout, now),
    {
        Deadline::from_timeout(self.timeout, now)
    }

    /// Notes that the driver took buffer `index`.
    fn mark_queued(&mut self, index: usize)
        requires
            old(self)@.wf(),
            index < old(self)@.count(),
        ensures
            final(self)@.wf(),
            final(self)@ == old(self)@.with_queued(index as int),
    {
        self.buffer_queued.set(index, true);
        let ghost queued = self.buffer_queued@;
        let ghost cursor = self.capture_initial_queue_index as int;
        while self.capture_initial_queue_index < self.buffer_queued.len()
            && self.buffer_queued[self.capture_initial_queue_index]
            invariant
                self.buffer_queued@ == queued,
                self.capture_initial_queue_index <= queued.len(),
                StreamView::first_unqueued(queued, self.capture_initial_queue_index as int)
                    == StreamView::first_unqueued(queued, cursor),
                self.handle == old(self).handle,
                self.arena_index == old(self).arena_index,
                self.buf_type == old(self).buf_type,
                self.buf_meta == old(self).buf_meta,
                self.timeout == old(self).timeout,
                self.active == old(self).active,
            decreases queued.len() - self.capture_initial_queue_index,
        {
            self.capture_initial_queue_index += 1;
        }
    }

    /// Notes that the driver handed buffer `index` back.
    fn mark_dequeued(&mut self, index: usize)
        requires
            old(self)@.wf(),
            index < old(self)@.count(),
        ensures
            final(self)@.wf(),
            final(self)@ == (StreamView {
                queued: old(self)@.queued.update(index as int, false),
                current: index as int,
                ..old(self)@
            }),
    {
        self.buffer_queued.set(index, false);
        self.arena_index = index;
    }

    /// Notes that the driver let go of all buffers.
    fn reset_buffer_state(&mut self)
        requires
            old(self)@.wf(),
        ensures
            final(self)@.wf(),
            final(self)@ == (StreamView { active: old(self)@.active, ..old(self)@.stopped() }),
    {
        self.capture_initial_queue_index = 0;
        self.arena_index = 0;
        let mut index: usize = 0;
        while index < self.buffer_queued.len()
            invariant
                self.buffer_queued@.len() == old(self).buffer_queued@.len(),
                index <= self.buffer_queued@.len(),
                forall|i: int| 0 <= i < index ==> !#[trigger] self.buffer_queued@[i],
                self.capture_initial_queue_index == 0,
                self.arena_index == 0,
                self.handle == old(self).handle,
                self.buf_type == old(self).buf_type,
                self.buf_meta == old(self).buf_meta,
                self.timeout == old(self).timeout,
                self.active == old(self).active,
            decreases self.buffer_queued@.len() - index,
        {
            self.buffer_queued.set(index, false);
            index += 1;
        }
        assert(self.buffer_queued@ =~= Seq::new(old(self)@.count(), |i: int| false));
    }

    /// Judges one attempt at `ioctl`: an interrupted one is to be repeated until the
    /// deadline has passed.
    fn ioctl_until<T>(
        deadline: Deadline,
        ioctl: Ioctl,
        reply: Result<T, Error>,
        now: Instant,
    ) -> (attempt: Attempt<T>)
        ensures
            attempt == deadline.ioctl_attempt(ioctl, reply, now),
    {
        match reply {
            Err(error) => {
                if error.kind == ErrorKind::Interrupted {
                    if deadline.expired(now) {
                        Attempt::Over(Err(Error::timed_out(ioctl)))
                    } else {
                        Attempt::Retry
                    }
                } else {
                    Attempt::Over(Err(error))
                }
            },
            Ok(value) => Attempt::Over(Ok(value)),
        }
    }

    /// Judges one attempt to wait until the device is ready for `ioctl`.
    fn poll_until(
        deadline: Deadline,
        ioctl: Ioctl,
        reply: Result<i32, Error>,
        now: Instant,
    ) -> (attempt: Attempt<()>)
        ensures
            attempt == deadline.poll_attempt(ioctl, reply, now),
    {
        match reply {
            Ok(ready) => {
                if ready == 0 {
                    Attempt::Over(Err(Error::timed_out(ioctl)))
                } else {
                    Attempt::Over(Ok(()))
                }
            },
            Err(error) => {
                if error.kind == ErrorKind::Interrupted {
                    if deadline.expired(now) {
                        Attempt::Over(Err(Error::timed_out(ioctl)))
                    } else {
                        Attempt::Retry
                    }
                } else {
                    Attempt::Over(Err(error))
                }
            },
        }
    }

    /// Takes in the reply to a request to start.
    fn start_until(
        &mut self,
        deadline: Deadline,
        reply: Result<(), Error>,
        now: Instant,
    ) -> (attempt: Attempt<()>)
        requires
            old(self)@.wf(),
        ensures
            final(self)@.wf(),
            final(self)@ == (if reply is Ok {
                StreamView { active: true, ..old(self)@ }
            } else {
                old(self)@
            }),
            attempt == deadline.ioctl_attempt(Ioctl::StreamOn, reply, now),
    {
        let attempt = Stream::ioctl_until(deadline, Ioctl::StreamOn, reply, now);
        if let Attempt::Over(Ok(())) = attempt {
            self.active = true;
        }
        attempt
    }

    /// Takes in the reply to a request to stop.
    fn stop_until(
        &mut self,
        deadline: Deadline,
        reply: Result<(), Error>,
        now: Instant,
    ) -> (attempt: Attempt<()>)
        requires
            old(self)@.wf(),
        ensures
            final(self)@.wf(),
            final(self)@ == (if reply is Ok {
                old(self)@.stopped()
            } else {
                old(self)@
            }),
            attempt == deadline.ioctl_attempt(Ioctl::StreamOff, reply, now),
    {
        let attempt = Stream::ioctl_until(deadline, Ioctl::StreamOff, reply, now);
        if let Attempt::Over(Ok(())) = attempt {
            self.active = false;
            self.reset_buffer_state();
        }
        attempt
    }

    /// Takes in the reply to a request to queue buffer `index` for capture.
    fn queue_capture_until(
        &mut self,
        index: usize,
        deadline: Deadline,
        reply: Result<(), Error>,
        now: Instant,
    ) -> (attempt: Attempt<()>)
        requires
            old(self)@.wf(),
            reply is Ok ==> index < old(self)@.count(),
        ensures
            final(self)@.wf(),
            final(self)@ == (if reply is Ok {
                old(self)@.with_queued(index as int)
            } else {
                old(self)@
            }),
            attempt == deadline.ioctl_attempt(Ioctl::QueueBuffer, reply, now),
    {
        let attempt = Stream::ioctl_until(deadline, Ioctl::QueueBuffer, reply, now);
        if let Attempt::Over(Ok(())) = attempt {
            self.mark_queued(index);
        }
        attempt
    }

    /// Takes in the reply to a request to queue buffer `index` for output. The wait
    /// for the device is a stage of its own, before this one.
    fn queue_output_until(
        &mut self,
        index: usize,
        deadline: Deadline,
        reply: Result<(), Error>,
        now: Instant,
    ) -> (attempt: Attempt<()>)
        requires
            old(self)@.wf(),
            index < old(self)@.count(),
        ensures
            final(self)@.wf(),
            final(self)@ == (if reply is Ok {
                old(self)@.with_queued(index as int)
            } else {
                old(self)@
            }),
            attempt == deadline.ioctl_attempt(Ioctl::QueueBuffer, reply, now),
    {
        let attempt = Stream::ioctl_until(deadline, Ioctl::QueueBuffer, reply, now);
        if let Attempt::Over(Ok(())) = attempt {
            self.mark_queued(index);
        }
        attempt
    }

    /// Takes in the reply to a request to dequeue.
    fn dequeue_until(
        &mut self,
        deadline: Deadline,
        reply: Result<BufferRecord, Error>,
        now: Instant,
    ) -> (attempt: Attempt<usize>)
        requires
            old(self)@.wf(),
            reply matches Ok(record) ==> record.index < old(self)@.count(),
        ensures
            final(self)@.wf(),
            match reply {
                Ok(record) => {
                    &&& final(self)@ == old(self)@.with_dequeued(record)
                    &&& attempt == Attempt::Over(Ok::<usize, Error>(record.index as usize))
                },
                Err(error) => {
                    &&& final(self)@ == old(self)@
                    &&& attempt == deadline.ioctl_attempt(
                        Ioctl::DequeueBuffer,
                        Err::<usize, Error>(error),
                        now,
                    )
                },
            },
    {
        match Stream::ioctl_until(deadline, Ioctl::DequeueBuffer, reply, now) {
            Attempt::Retry => Attempt::Retry,
            Attempt::Over(Err(error)) => Attempt::Over(Err(error)),
            Attempt::Over(Ok(record)) => {
                let index: usize = record.index as usize;
                self.mark_dequeued(index);
                self.buf_meta.set(index, record.metadata());
                Attempt::Over(Ok(index))
            },
        }
    }

    /// Where the start of a capture stream goes on. The cursor never rests on a
    /// buffer that the driver has, so there is none to pass over.
    fn ensure_capture_started_until(&self) -> (stage: Stage)
        requires
            self@.wf(),
        ensures
            stage == self@.startup_stage(),
    {
        if self.capture_initial_queue_index < self.buffer_queued.len() {
            Stage::QueueCapture { index: self.capture_initial_queue_index }
        } else {
            Stage::StreamOn
        }
    }

    /// Where a call for the next captured frame begins.
    fn capture_next(&self) -> (stage: Stage)
        requires
            self@.wf(),
            self@.may_begin(Goal::CaptureNext),
        ensures
            stage == self@.first_stage(Goal::CaptureNext),
    {
        if !self.active {
            self.ensure_capture_started_until()
        } else if !self.buffer_queued[self.arena_index] {
            Stage::QueueCapture { index: self.arena_index }
        } else {
            Stage::PollCapture
        }
    }

    /// Where a call for the next output buffer begins. A buffer is queued only
    /// once the caller has filled it: the first call comes just after the buffers
    /// have been allocated, so it hands out an empty one.
    fn output_next(&self) -> (stage: Stage)
        requires
            self@.wf(),
            self@.may_begin(Goal::OutputNext),
        ensures
            stage == self@.first_stage(Goal::OutputNext),
    {
        if !self.active {
            Stage::StreamOn
        } else if !self.buffer_queued[self.arena_index] {
            Stage::PollOutput { index: self.arena_index }
        } else {
            Stage::Dequeue
        }
    }

    /// Whether a call for `goal` may begin.
    pub fn can_begin(&self, goal: Goal) -> (can: bool)
        ensures
            can == self@.may_begin(goal),
    {
        match goal {
            Goal::OutputQueue { index } => index < self.buffer_queued.len(),
            Goal::CaptureNext => !self.active || self.buffer_queued.len() > 0,
            Goal::OutputNext => !self.active || self.buffer_queued.len() > 0,
            _ => true,
        }
    }

    /// Whether `reply` can be the answer that `call` waits for.
    pub fn can_take(&self, call: &Call, reply: &Reply) -> (can: bool)
        ensures
            can == self@.may_reply(call.stage, *reply),
    {
        match (call.stage, *reply) {
            (Stage::StreamOn, Reply::Ioctl(_)) => true,
            (Stage::StreamOff, Reply::Ioctl(_)) => true,
            (Stage::QueueCapture { .. }, Reply::Ioctl(Err(_))) => true,
            (Stage::QueueCapture { index }, Reply::Ioctl(Ok(_))) => index
                < self.buffer_queued.len(),
            (Stage::PollOutput { .. }, Reply::Polled(_)) => true,
            (Stage::QueueOutput { .. }, Reply::Ioctl(_)) => true,
            (Stage::PollCapture, Reply::Polled(_)) => true,
            (Stage::Dequeue, Reply::Dequeued(Err(_))) => true,
            (Stage::Dequeue, Reply::Dequeued(Ok(record))) => (record.index as usize)
                < self.buffer_queued.len(),
            _ => false,
        }
    }

    /// Begins a call for `goal` at `now`.
    pub fn begin_at(&self, goal: Goal, now: Instant) -> (call: Call)
        requires
            self@.wf(),
            self@.may_begin(goal),
            now.readable(),
        ensures
            call == self@.begun(goal, now),
            self@.admits(call),
    {
        let stage = match goal {
            Goal::Start => Stage::StreamOn,
            Goal::Stop => Stage::StreamOff,
            Goal::CaptureQueue { index } => Stage::QueueCapture { index },
            Goal::CaptureDequeue => Stage::PollCapture,
            Goal::CaptureNext => self.capture_next(),
            Goal::OutputQueue { index } => Stage::PollOutput { index },
            Goal::OutputDequeue => Stage::Dequeue,
            Goal::OutputNext => self.output_next(),
        };
        Call { goal, stage, deadline: self.timeout_deadline(now) }
    }

    /// Begins a call for `goal` now.
    pub fn begin(&self, goal: Goal, clock: &mut Clock) -> (call: Call)
        requires
            self@.wf(),
            self@.may_begin(goal),
            old(clock).wf(),
        ensures
            final(clock).read_once_since(*old(clock)),
            final(clock).told_time_since(*old(clock)),
            call == self@.begun(goal, final(clock)@.last()),
            self@.admits(call),
    {
        let now = clock.now();
        self.begin_at(goal, now)
    }

    /// The system call that `call` waits for, made at `now`.
    pub fn system_call_at(&self, call: &Call, now: Instant) -> (system_call: SystemCall)
        requires
            self@.wf(),
            self@.admits(*call),
        ensures
            system_call.fd == self@.fd,
            system_call.request == self@.request(*call, now),
    {
        let request = match call.stage {
            Stage::StreamOn => Request::StreamOn { type_: self.buf_type.code() },
            Stage::StreamOff => Request::StreamOff { type_: self.buf_type.code() },
            Stage::QueueCapture { index } => Request::QueueBuffer {
                record: BufferRecord { index: index as u32, ..self.buffer_desc() },
            },
            Stage::PollOutput { .. } => Request::Poll {
                events: pollout(),
                timeout: call.deadline.poll_timeout(now),
            },
            Stage::QueueOutput { index } => Request::QueueBuffer {
                record: BufferRecord {
                    index: index as u32,
                    // The driver reads 0 bytes in use as a full buffer.
                    bytesused: self.buf_meta[index].bytesused,
                    field: self.buf_meta[index].field,
                    ..self.buffer_desc()
                },
            },
            Stage::PollCapture => Request::Poll {
                events: pollin(),
                timeout: call.deadline.poll_timeout(now),
            },
            Stage::Dequeue => Request::DequeueBuffer { record: self.buffer_desc() },
        };
        SystemCall { fd: self.handle.fd, request }
    }

    /// The system call that `call` waits for, made now.
    pub fn system_call(&self, call: &Call, clock: &mut Clock) -> (system_call: SystemCall)
        requires
            self@.wf(),
            self@.admits(*call),
            old(clock).wf(),
        ensures
            final(clock).read_once_since(*old(clock)),
            final(clock).told_time_since(*old(clock)),
            system_call.fd == self@.fd,
            system_call.request == self@.request(*call, final(clock)@.last()),
    {
        let now = clock.now();
        self.system_call_at(call, now)
    }

    /// Takes `call` on with the system's `reply`, which came at `now`.
    pub fn advance_at(&mut self, call: Call, reply: Reply, now: Instant) -> (progress: Progress)
        requires
            old(self)@.wf(),
            old(self)@.admits(call),
            old(self)@.may_reply(call.stage, reply),
        ensures
            final(self)@.wf(),
            final(self)@ == old(self)@.after(call, reply),
            progress == old(self)@.progress(call, reply, now),
            progress matches Progress::Pending(next) ==> final(self)@.admits(next),
    {
        let attempt = match (call.stage, reply) {
            (Stage::StreamOn, Reply::Ioctl(result)) => self.start_until(call.deadline, result, now),
            (Stage::StreamOff, Reply::Ioctl(result)) => self.stop_until(call.deadline, result, now),
            (Stage::QueueCapture { index }, Reply::Ioctl(result)) => self.queue_capture_until(
                index,
                call.deadline,
                result,
                now,
            ),
            (Stage::PollOutput { .. }, Reply::Polled(result)) => Stream::poll_until(
                call.deadline,
                Ioctl::QueueBuffer,
                result,
                now,
            ),
            (Stage::QueueOutput { index }, Reply::Ioctl(result)) => self.queue_output_until(
                index,
                call.deadline,
                result,
                now,
            ),
            (Stage::PollCapture, Reply::Polled(result)) => Stream::poll_until(
                call.deadline,
                Ioctl::DequeueBuffer,
                result,
                now,
            ),
            (Stage::Dequeue, Reply::Dequeued(result)) => match self.dequeue_until(
                call.deadline,
                result,
                now,
            ) {
                Attempt::Retry => Attempt::Retry,
                Attempt::Over(Ok(_)) => Attempt::Over(Ok(())),
                Attempt::Over(Err(error)) => Attempt::Over(Err(error)),
            },
            _ => {
                assert(false);
                Attempt::Retry
            },
        };
        match attempt {
            Attempt::Retry => Progress::Pending(call),
            Attempt::Over(Err(error)) => Progress::Finished(Err(error)),
            Attempt::Over(Ok(())) => {
                let following = match (call.goal, call.stage) {
                    (Goal::CaptureNext, Stage::QueueCapture { .. }) => if !self.active {
                        Some(self.ensure_capture_started_until())
                    } else {
                        Some(Stage::PollCapture)
                    },
                    (Goal::CaptureNext, Stage::StreamOn) => Some(Stage::PollCapture),
                    (Goal::CaptureNext, Stage::PollCapture) => Some(Stage::Dequeue),
                    (Goal::CaptureDequeue, Stage::PollCapture) => Some(Stage::Dequeue),
                    (Goal::OutputQueue { .. }, Stage::PollOutput { index }) => Some(
                        Stage::QueueOutput { index },
                    ),
                    (Goal::OutputNext, Stage::PollOutput { index }) => Some(
                        Stage::QueueOutput { index },
                    ),
                    (Goal::OutputNext, Stage::QueueOutput { .. }) => Some(Stage::Dequeue),
                    _ => None,
                };
                match following {
                    Some(stage) => Progress::Pending(Call { stage, ..call }),
                    None => Progress::Finished(Ok(self.outcome(call.goal))),
                }
            },
        }
    }

    /// Takes `call` on with the system's `reply`, which just came.
    pub fn advance(&mut self, call: Call, reply: Reply, clock: &mut Clock) -> (progress: Progress)
        requires
            old(self)@.wf(),
            old(self)@.admits(call),
            old(self)@.may_reply(call.stage, reply),
            old(clock).wf(),
        ensures
            final(clock).read_once_since(*old(clock)),
            final(clock).told_time_since(*old(clock)),
            final(self)@.wf(),
            final(self)@ == old(self)@.after(call, reply),
            progress == old(self)@.progress(call, reply, final(clock)@.last()),
            progress matches Progress::Pending(next) ==> final(self)@.admits(next),
    {
        let now = clock.now();
        self.advance_at(call, reply, now)
    }

    /// What a call for `goal` has achieved when it is done.
    fn outcome(&self, goal: Goal) -> (outcome: Outcome)
        ensures
            outcome == self@.outcome(goal),
    {
        match goal {
            Goal::CaptureDequeue => Outcome::Dequeued { index: self.arena_index },
            Goal::OutputDequeue => Outcome::Dequeued { index: self.arena_index },
            Goal::CaptureNext => Outcome::Frame { index: self.arena_index },
            Goal::OutputNext => Outcome::Frame { index: self.arena_index },
            _ => Outcome::Completed,
        }
    }

    /// The frame that the stream is at: the index of its buffer and what is
    /// known of it.
    pub fn frame(&self) -> (frame: (usize, &Metadata))
        requires
            self@.wf(),
            self@.count() > 0,
        ensures
            frame.0 == self@.current,
            *frame.1 == self@.meta[self@.current],
    {
        (self.arena_index, &self.buf_meta[self.arena_index])
    }

    /// The frame that the stream is at, to be filled in: the index of its
    /// buffer and what is known of it.
    pub fn frame_mut(&mut self) -> (frame: (usize, &mut Metadata))
        requires
            old(self)@.wf(),
            old(self)@.count() > 0,
        ensures
            frame.0 == old(self)@.current,
            *frame.1 == old(self)@.meta[old(self)@.current],
            final(self)@.wf(),
            final(self)@ == (StreamView {
                meta: old(self)@.meta.update(old(self)@.current, *final(frame.1)),
                ..old(self)@
            }),
    {
        let index: usize = self.arena_index;
        (index, &mut self.buf_meta[index])
    }

    /// What is left to report when a stream goes away and was stopped with
    /// this result. That the device is gone is no failure: most likely it was
    /// unplugged or its connection broke down.
    pub fn drop_failure(stopped: Result<Outcome, Error>) -> (failure: Option<Error>)
        ensures
            failure == (match stopped {
                Ok(_) => None,
                Err(error) => if error.code == Some(19i32) {
                    None
                } else {
                    Some(error)
                },
            }),
    {
        match stopped {
            Ok(_) => None,
            Err(error) => match error.code {
                Some(code) => if code == ENODEV {
                    None
                } else {
                    Some(error)
                },
                None => Some(error),
            },
        }
    }
}

} // verus!
