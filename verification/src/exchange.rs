//! What one exchange with the system says and does: what is asked for, what a
//! success changes, what becomes of a failure, and what is asked for next.

use crate::buffer::{BufferRecord, Metadata, Timestamp, Type};
use crate::call::{Call, Goal, Outcome, Progress, Reply, Request, Stage};
use crate::deadline::Deadline;
use crate::error::{Error, ErrorKind, Ioctl};
use crate::laws::cursor_stops_at_first_unqueued;
use crate::model::StreamView;
use crate::time::{Clock, Instant};
use vstd::prelude::*;

verus! {

/// Whether `reply` reports `error`.
pub open spec fn reports(reply: Reply, error: Error) -> bool {
    ||| reply == Reply::Ioctl(Err(error))
    ||| reply == Reply::Dequeued(Err(error))
    ||| reply == Reply::Polled(Err(error))
}

/// Whether `reply` is of the kind that answers `request`.
pub open spec fn fits(reply: Reply, request: Request) -> bool {
    match request {
        Request::Poll { .. } => reply is Polled,
        Request::DequeueBuffer { .. } => reply is Dequeued,
        _ => reply is Ioctl,
    }
}

/// Whether the driver reads nothing out of `record` but which buffer it is
/// about, how much of it is in use and in which field order.
pub open spec fn says_no_more(record: BufferRecord, stream: StreamView) -> bool {
    &&& record.type_ == stream.buf_type.spec_code()
    &&& record.memory == 1
    &&& record.flags == 0
    &&& record.sequence == 0
    &&& record.timestamp.sec == 0
    &&& record.timestamp.usec == 0
}

/// No two types of buffers have one code, and none has the code 0.
pub proof fn types_have_codes_of_their_own(a: Type, b: Type)
    ensures
        a.spec_code() == b.spec_code() ==> a == b,
        a.spec_code() != 0,
{
}

/// A call that is to queue a buffer asks the driver to take that very buffer.
/// For capture nothing is said of what it holds; for output the driver is told
/// what the user filled in. An index that does not fit the driver's record is
/// cut to its low bits.
pub proof fn queue_request_hands_over_its_buffer(
    stream: StreamView,
    call: Call,
    index: usize,
    now: Instant,
)
    requires
        stream.wf(),
        stream.admits(call),
        call.stage == (Stage::QueueCapture { index }) || call.stage == (Stage::QueueOutput {
            index,
        }),
    ensures
        stream.request(call, now) matches Request::QueueBuffer { record } && {
            &&& index < stream.count() ==> record.index == index
            &&& record.index as int == index as int % 0x1_0000_0000
            &&& says_no_more(record, stream)
            &&& call.stage is QueueCapture ==> record.bytesused == 0 && record.field == 0
            &&& call.stage is QueueOutput ==> {
                &&& index < stream.count()
                &&& record.bytesused == stream.meta[index as int].bytesused
                &&& record.field == stream.meta[index as int].field
            }
        },
{
    let wide = index as u64;
    assert(wide as u32 == wide % 0x1_0000_0000) by (bit_vector);
}

/// A call that is to start, to stop or to take a buffer back asks the driver for
/// that, for the stream's type of buffers. Which buffer comes back is left to the
/// driver.
pub proof fn other_requests_name_the_type(stream: StreamView, call: Call, now: Instant)
    ensures
        match call.stage {
            Stage::StreamOn => stream.request(call, now) matches Request::StreamOn { type_ }
                && type_ == stream.buf_type.spec_code(),
            Stage::StreamOff => stream.request(call, now) matches Request::StreamOff { type_ }
                && type_ == stream.buf_type.spec_code(),
            Stage::Dequeue => stream.request(call, now) matches Request::DequeueBuffer { record }
                && says_no_more(record, stream) && record.index == 0 && record.bytesused == 0
                && record.field == 0,
            _ => true,
        },
{
}

/// Every wait for the device ends with the call's deadline. A call without a
/// deadline waits without limit, and no other does. The wait is empty exactly
/// when the deadline has passed. Else it lasts at least one millisecond, no longer
/// than what is left, and for all that is left but a part of a millisecond,
/// unless more is left than `poll` can be told. A wait for a captured frame is for
/// data to read, a wait to queue for output is for room to write.
pub proof fn every_wait_lasts_until_the_deadline(stream: StreamView, call: Call, now: Instant)
    requires
        call.stage is PollCapture || call.stage is PollOutput,
    ensures
        stream.request(call, now) matches Request::Poll { events, timeout } && {
            &&& call.stage is PollCapture ==> events == 0x1
            &&& call.stage is PollOutput ==> events == 0x4
            &&& call.deadline.expires_at is None <==> timeout == -1
            &&& call.deadline.expires_at matches Some(at) ==> {
                &&& timeout >= 0
                &&& timeout == 0 <==> now.nanos >= at.nanos
                &&& timeout > 1 ==> timeout * 1_000_000 <= at.nanos - now.nanos
                &&& timeout < i32::MAX ==> (timeout + 1) * 1_000_000 > at.nanos - now.nanos
            }
        },
{
}

/// A call waits for the device exactly in the stages that wait.
pub proof fn only_waits_wait(stream: StreamView, call: Call, now: Instant)
    ensures
        stream.request(call, now) is Poll <==> call.stage is PollCapture
            || call.stage is PollOutput,
{
}

/// A deadline has passed from its moment on, and not before. Where there is none
/// it never passes.
pub proof fn deadline_passes_at_its_moment(deadline: Deadline, now: Instant)
    ensures
        deadline.expires_at is None ==> !deadline.is_expired(now),
        deadline.expires_at matches Some(at) ==> {
            &&& deadline.is_expired(at)
            &&& now.nanos > at.nanos ==> deadline.is_expired(now)
            &&& now.nanos < at.nanos ==> !deadline.is_expired(now)
        },
{
}

/// The deadline lies as many milliseconds after the begin as the timeout says,
/// where a negative timeout stands for the unsigned 64-bit number with the same
/// low bits.
pub proof fn deadline_lies_a_timeout_after_the_begin(timeout: Option<i32>, begun: Instant)
    requires
        begun.nanos + 0x1_0000_0000_0000_0000 * 1_000_000 <= u128::MAX,
    ensures
        timeout is None <==> Deadline::spec_from_timeout(timeout, begun).expires_at is None,
        timeout matches Some(millis) ==> {
            let span = Deadline::spec_from_timeout(timeout, begun).expires_at->0.nanos
                - begun.nanos;
            &&& 0 <= span < 0x1_0000_0000_0000_0000 * 1_000_000
            &&& span % 1_000_000 == 0
            &&& (span / 1_000_000 - millis) % 0x1_0000_0000_0000_0000 == 0
        },
{
}

/// A call begins with the deadline that the stream's timeout sets, whatever it
/// is for.
pub proof fn every_call_begins_under_the_timeout(stream: StreamView, goal: Goal, begun: Instant)
    requires
        stream.wf(),
        begun.readable(),
    ensures
        ({
            let call = stream.begun(goal, begun);
            &&& call.goal == goal
            &&& call.deadline.expires_at is None <==> stream.timeout is None
            &&& stream.timeout matches Some(millis) ==> call.deadline.expires_at->0.nanos
                == begun.nanos + millis * 1_000_000
        }),
{
}

/// Once the driver has taken a buffer, the stream takes that buffer, and no
/// other, to be with the driver. The start goes on at the first buffer from where
/// it was that is still to be queued. Nothing else changes.
pub proof fn queueing_changes_that_buffer_only(
    stream: StreamView,
    call: Call,
    now: Instant,
    i: int,
)
    requires
        stream.wf(),
        stream.admits(call),
        stream.request(call, now) is QueueBuffer,
        stream.request(call, now)->QueueBuffer_record.index < stream.count(),
        stream.may_reply(call.stage, Reply::Ioctl(Ok(()))),
        0 <= i < stream.count(),
    ensures
        ({
            let after = stream.after(call, Reply::Ioctl(Ok(())));
            let taken = stream.request(call, now)->QueueBuffer_record.index;
            &&& after.queued.len() == stream.queued.len()
            &&& after.queued[i] == (i == taken || stream.queued[i])
            &&& stream.cursor <= after.cursor <= stream.count()
            &&& stream.cursor <= i < after.cursor ==> after.queued[i]
            &&& after.cursor < stream.count() ==> !after.queued[after.cursor]
            &&& after.meta == stream.meta
            &&& after.current == stream.current
            &&& after.active == stream.active
            &&& after.timeout == stream.timeout
            &&& after.fd == stream.fd
            &&& after.buf_type == stream.buf_type
        }),
{
    match call.stage {
        Stage::QueueCapture { index } | Stage::QueueOutput { index } => {
            cursor_stops_at_first_unqueued(
                stream.queued.update(index as int, true),
                stream.cursor,
            );
        },
        _ => {},
    }
}

/// Once the driver has handed a buffer back, the stream stands at it, takes it
/// to be with the user, and knows of it what the driver reported, field by
/// field. Of the other buffers, and of the rest of the stream, nothing changes.
pub proof fn dequeueing_changes_that_buffer_only(
    stream: StreamView,
    call: Call,
    record: BufferRecord,
    i: int,
)
    requires
        stream.wf(),
        call.stage is Dequeue,
        record.index < stream.count(),
        0 <= i < stream.count(),
    ensures
        ({
            let after = stream.after(call, Reply::Dequeued(Ok(record)));
            let back = record.index as int;
            &&& after.queued.len() == stream.queued.len()
            &&& after.meta.len() == stream.meta.len()
            &&& after.current == back
            &&& after.queued[i] == (i != back && stream.queued[i])
            &&& i != back ==> after.meta[i] == stream.meta[i]
            &&& after.meta[back].bytesused == record.bytesused
            &&& after.meta[back].flags == record.flags
            &&& after.meta[back].field == record.field
            &&& after.meta[back].timestamp.sec == record.timestamp.sec
            &&& after.meta[back].timestamp.usec == record.timestamp.usec
            &&& after.meta[back].sequence == record.sequence
            &&& after.cursor == stream.cursor
            &&& after.active == stream.active
            &&& after.timeout == stream.timeout
            &&& after.fd == stream.fd
            &&& after.buf_type == stream.buf_type
        }),
{
}

/// Once the driver has started the stream, the stream takes itself to be
/// started, and nothing else changes.
pub proof fn starting_changes_that_only(stream: StreamView, call: Call)
    requires
        call.stage is StreamOn,
    ensures
        ({
            let after = stream.after(call, Reply::Ioctl(Ok(())));
            &&& after.active
            &&& after.queued == stream.queued
            &&& after.meta == stream.meta
            &&& after.cursor == stream.cursor
            &&& after.current == stream.current
            &&& after.timeout == stream.timeout
            &&& after.fd == stream.fd
            &&& after.buf_type == stream.buf_type
        }),
{
}

/// Once the driver has stopped the stream, no buffer is with the driver, and a
/// start begins with the first buffer again. What is known of the buffers stays.
pub proof fn stopping_lets_go_of_all_buffers(stream: StreamView, call: Call, i: int)
    requires
        call.stage is StreamOff,
    ensures
        ({
            let after = stream.after(call, Reply::Ioctl(Ok(())));
            &&& !after.active
            &&& after.queued.len() == stream.queued.len()
            &&& 0 <= i < stream.count() ==> !after.queued[i]
            &&& after.cursor == 0
            &&& after.current == 0
            &&& after.meta == stream.meta
            &&& after.timeout == stream.timeout
            &&& after.fd == stream.fd
            &&& after.buf_type == stream.buf_type
        }),
{
}

/// What a failed system call and what a wait leave behind is the stream as it
/// was.
pub proof fn failures_and_waits_leave_the_stream(
    stream: StreamView,
    call: Call,
    reply: Reply,
    error: Error,
)
    requires
        reports(reply, error) || reply is Polled,
        reply is Polled ==> call.stage is PollCapture || call.stage is PollOutput,
    ensures
        stream.after(call, reply) == stream,
{
}

/// A system call that a signal cut short before the deadline is made again, and
/// the call waits for it as it did.
pub proof fn interrupted_in_time_is_tried_again(
    stream: StreamView,
    call: Call,
    reply: Reply,
    error: Error,
    now: Instant,
)
    requires
        reports(reply, error),
        error.kind == ErrorKind::Interrupted,
        call.deadline.expires_at matches Some(at) ==> now.nanos < at.nanos,
    ensures
        stream.progress(call, reply, now) == Progress::Pending(call),
{
}

/// A system call that a signal cut short when the deadline had passed ends the
/// call as out of time. The failure names the request that was made or waited
/// for, and no error number.
pub proof fn interrupted_too_late_is_out_of_time(
    stream: StreamView,
    call: Call,
    reply: Reply,
    error: Error,
    now: Instant,
)
    requires
        reports(reply, error),
        error.kind == ErrorKind::Interrupted,
        call.deadline.expires_at matches Some(at) && now.nanos >= at.nanos,
    ensures
        stream.progress(call, reply, now) matches Progress::Finished(Err(failure)) && {
            &&& failure.kind == ErrorKind::TimedOut
            &&& failure.code is None
            &&& failure.context == Some(awaited(stream.request(call, now)))
        },
{
}

/// The request that `request` makes or waits for.
pub open spec fn awaited(request: Request) -> Ioctl {
    match request {
        Request::StreamOn { .. } => Ioctl::StreamOn,
        Request::StreamOff { .. } => Ioctl::StreamOff,
        Request::QueueBuffer { .. } => Ioctl::QueueBuffer,
        Request::DequeueBuffer { .. } => Ioctl::DequeueBuffer,
        Request::Poll { events, .. } => if events == 0x4 {
            Ioctl::QueueBuffer
        } else {
            Ioctl::DequeueBuffer
        },
    }
}

/// A failure that is no interruption ends the call at once and is reported as
/// the system reported it, whatever the time.
pub proof fn other_failures_are_reported_as_they_are(
    stream: StreamView,
    call: Call,
    reply: Reply,
    error: Error,
    now: Instant,
)
    requires
        reports(reply, error),
        error.kind != ErrorKind::Interrupted,
    ensures
        stream.progress(call, reply, now) matches Progress::Finished(Err(failure)) && {
            &&& failure.kind == error.kind
            &&& failure.code == error.code
            &&& failure.context == error.context
        },
{
}

/// A wait that finds nothing ready ends the call as out of time. The failure
/// names the request that the wait was for.
pub proof fn vain_wait_is_out_of_time(stream: StreamView, call: Call, now: Instant)
    requires
        call.stage is PollCapture || call.stage is PollOutput,
    ensures
        stream.progress(call, Reply::Polled(Ok(0)), now) matches Progress::Finished(Err(failure))
            && {
            &&& failure.kind == ErrorKind::TimedOut
            &&& failure.code is None
            &&& failure.context == Some(awaited(stream.request(call, now)))
        },
{
}

/// A call is never given up or tried again once the system did what it asks
/// for, however late that is: it goes on, or ends well.
pub proof fn success_counts_whenever_it_comes(
    stream: StreamView,
    call: Call,
    reply: Reply,
    now: Instant,
    later: Instant,
)
    requires
        stream.wf(),
        stream.admits(call),
        stream.may_reply(call.stage, reply),
        match reply {
            Reply::Ioctl(result) => result is Ok,
            Reply::Dequeued(result) => result is Ok,
            Reply::Polled(result) => result is Ok && result->Ok_0 != 0,
        },
    ensures
        stream.progress(call, reply, now) == stream.progress(call, reply, later),
        match stream.progress(call, reply, now) {
            Progress::Pending(next) => next.stage != call.stage && next.goal == call.goal
                && next.deadline == call.deadline,
            Progress::Finished(result) => result is Ok,
        },
{
    if let Stage::QueueCapture { index } = call.stage {
        cursor_stops_at_first_unqueued(stream.queued.update(index as int, true), stream.cursor);
    }
}

/// Exactly these calls may begin: to queue an output buffer, where it exists; to
/// get the next frame, unless the stream was started without buffers; and every
/// other call.
pub proof fn calls_that_may_begin(stream: StreamView, goal: Goal)
    ensures
        goal matches Goal::OutputQueue { index } ==> (stream.may_begin(goal) <==> index
            < stream.queued.len()),
        goal is CaptureNext || goal is OutputNext ==> (stream.may_begin(goal) <==> !stream.active
            || stream.queued.len() > 0),
        goal is Start || goal is Stop || goal is CaptureQueue || goal is CaptureDequeue
            || goal is OutputDequeue ==> stream.may_begin(goal),
{
}

/// Exactly these replies are taken: those of the kind that was asked for, unless
/// the driver claims to have taken or to hand back a buffer that does not exist.
pub proof fn replies_that_are_taken(stream: StreamView, call: Call, reply: Reply, now: Instant)
    requires
        stream.wf(),
        stream.admits(call),
    ensures
        stream.may_reply(call.stage, reply) <==> {
            &&& fits(reply, stream.request(call, now))
            &&& reply matches Reply::Dequeued(Ok(record)) ==> record.index < stream.queued.len()
            &&& reply matches Reply::Ioctl(Ok(_)) ==> (call.stage matches Stage::QueueCapture {
                index,
            } ==> index < stream.queued.len())
        },
{
}

/// To start and to stop each take one request.
pub proof fn start_and_stop_take_one_request(stream: StreamView, begun: Instant, now: Instant)
    ensures
        ({
            let start = stream.begun(Goal::Start, begun);
            let stop = stream.begun(Goal::Stop, begun);
            let done = Reply::Ioctl(Ok(()));
            &&& stream.request(start, now) is StreamOn
            &&& stream.progress(start, done, now) == Progress::Finished(
                Ok::<Outcome, Error>(Outcome::Completed),
            )
            &&& stream.request(stop, now) is StreamOff
            &&& stream.progress(stop, done, now) == Progress::Finished(
                Ok::<Outcome, Error>(Outcome::Completed),
            )
        }),
{
}

/// To queue a buffer for capture takes one request, which hands that buffer
/// over.
pub proof fn capture_queue_hands_the_buffer_over(
    stream: StreamView,
    index: usize,
    begun: Instant,
    now: Instant,
)
    requires
        stream.wf(),
        index < stream.count(),
    ensures
        ({
            let call = stream.begun(Goal::CaptureQueue { index }, begun);
            let done = Reply::Ioctl(Ok(()));
            &&& stream.request(call, now) matches Request::QueueBuffer { record } && record.index
                == index
            &&& stream.progress(call, done, now) == Progress::Finished(
                Ok::<Outcome, Error>(Outcome::Completed),
            )
            &&& stream.after(call, done).queued[index as int]
        }),
{
}

/// To queue a buffer for output waits until the device takes data, and then
/// hands that buffer over, with what is known of it.
pub proof fn output_queue_waits_and_hands_the_buffer_over(
    stream: StreamView,
    index: usize,
    ready: i32,
    begun: Instant,
    now: Instant,
)
    requires
        stream.wf(),
        index < stream.count(),
        ready != 0,
    ensures
        ({
            let call = stream.begun(Goal::OutputQueue { index }, begun);
            let done = Reply::Ioctl(Ok(()));
            &&& stream.request(call, now) matches Request::Poll { events, .. } && events == 0x4
            &&& stream.progress(call, Reply::Polled(Ok(ready)), now) matches Progress::Pending(next)
                && {
                &&& next.deadline == call.deadline
                &&& stream.request(next, now) matches Request::QueueBuffer { record } && record.index
                    == index && record.bytesused == stream.meta[index as int].bytesused
                    && record.field == stream.meta[index as int].field
                &&& stream.progress(next, done, now) == Progress::Finished(
                    Ok::<Outcome, Error>(Outcome::Completed),
                )
                &&& stream.after(next, done).queued[index as int]
            }
        }),
{
}

/// To take a buffer back waits for a captured frame, for capture, and then, as at
/// once for output, asks for whichever buffer the driver has. The user gets the
/// buffer that the driver names.
pub proof fn dequeue_gives_the_buffer_that_comes_back(
    stream: StreamView,
    ready: i32,
    record: BufferRecord,
    begun: Instant,
    now: Instant,
)
    requires
        stream.wf(),
        record.index < stream.count(),
        ready != 0,
    ensures
        ({
            let capture = stream.begun(Goal::CaptureDequeue, begun);
            let output = stream.begun(Goal::OutputDequeue, begun);
            let back = Reply::Dequeued(Ok(record));
            let given = Progress::Finished(
                Ok::<Outcome, Error>(Outcome::Dequeued { index: record.index as usize }),
            );
            &&& stream.request(capture, now) matches Request::Poll { events, .. } && events == 0x1
            &&& stream.progress(capture, Reply::Polled(Ok(ready)), now) matches Progress::Pending(
                next,
            ) && {
                &&& next.deadline == capture.deadline
                &&& stream.request(next, now) is DequeueBuffer
                &&& stream.progress(next, back, now) == given
            }
            &&& stream.request(output, now) is DequeueBuffer
            &&& stream.progress(output, back, now) == given
        }),
{
}

/// A call for the next captured frame on a stream that was not started queues
/// the buffer at the cursor where there is one, and else starts the stream. It
/// goes on in the same way after each buffer that the driver took.
pub proof fn capture_starts_with_what_is_left_to_queue(
    stream: StreamView,
    begun: Instant,
    now: Instant,
)
    requires
        stream.wf(),
        !stream.active,
    ensures
        ({
            let call = stream.begun(Goal::CaptureNext, begun);
            let done = Reply::Ioctl(Ok(()));
            if stream.cursor < stream.count() {
                let after = stream.after(call, done);
                &&& stream.request(call, now) matches Request::QueueBuffer { record }
                    && record.index == stream.cursor
                &&& after.cursor > stream.cursor
                &&& stream.progress(call, done, now) matches Progress::Pending(next)
                    && next.deadline == call.deadline && if after.cursor < stream.count() {
                    after.request(next, now) matches Request::QueueBuffer { record } && record.index
                        == after.cursor
                } else {
                    after.request(next, now) is StreamOn
                }
            } else {
                &&& stream.request(call, now) is StreamOn
                &&& stream.progress(call, done, now) matches Progress::Pending(next)
                    && next.deadline == call.deadline && (stream.after(call, done).request(next, now)
                    matches Request::Poll { events, .. } && events == 0x1)
            }
        }),
{
    if stream.cursor < stream.count() {
        cursor_stops_at_first_unqueued(stream.queued.update(stream.cursor, true), stream.cursor);
    }
}

/// A call for the next captured frame on a started stream hands the current
/// buffer back first, where the user has it, and then waits for a frame.
pub proof fn capture_gives_the_current_buffer_back_first(
    stream: StreamView,
    begun: Instant,
    now: Instant,
)
    requires
        stream.wf(),
        stream.active,
        stream.count() > 0,
    ensures
        ({
            let call = stream.begun(Goal::CaptureNext, begun);
            let done = Reply::Ioctl(Ok(()));
            if stream.queued[stream.current] {
                stream.request(call, now) matches Request::Poll { events, .. } && events == 0x1
            } else {
                &&& stream.request(call, now) matches Request::QueueBuffer { record }
                    && record.index == stream.current
                &&& stream.progress(call, done, now) matches Progress::Pending(next)
                    && next.deadline == call.deadline && (stream.after(call, done).request(next, now)
                    matches Request::Poll { events, .. } && events == 0x1)
            }
        }),
{
}

/// A call for the next captured frame that finds a frame ready takes back
/// whichever buffer the driver has. The user gets the buffer that the driver
/// names, with what the driver reported of it, field by field.
pub proof fn captured_frame_is_what_the_driver_reported(
    stream: StreamView,
    call: Call,
    ready: i32,
    record: BufferRecord,
    now: Instant,
)
    requires
        stream.wf(),
        call.goal is CaptureNext,
        call.stage is PollCapture,
        record.index < stream.count(),
        ready != 0,
    ensures
        stream.progress(call, Reply::Polled(Ok(ready)), now) matches Progress::Pending(next) && {
            let back = Reply::Dequeued(Ok(record));
            let after = stream.after(next, back);
            &&& next.deadline == call.deadline
            &&& stream.request(next, now) is DequeueBuffer
            &&& stream.progress(next, back, now) == Progress::Finished(
                Ok::<Outcome, Error>(Outcome::Frame { index: record.index as usize }),
            )
            &&& after.current == record.index
            &&& after.meta[after.current].bytesused == record.bytesused
            &&& after.meta[after.current].flags == record.flags
            &&& after.meta[after.current].field == record.field
            &&& after.meta[after.current].timestamp == record.timestamp
            &&& after.meta[after.current].sequence == record.sequence
        },
{
}

/// What the user filled in reaches the driver: on a started stream whose current
/// buffer is with the user, a call for the next output buffer waits until the
/// device takes data, hands that buffer over with the bytes in use and the field
/// order that the user filled in, takes a buffer back, and gives the user the one
/// that the driver names.
pub proof fn filled_buffer_reaches_the_driver(
    stream: StreamView,
    metadata: Metadata,
    ready: i32,
    record: BufferRecord,
    begun: Instant,
    now: Instant,
)
    requires
        stream.wf(),
        stream.active,
        stream.count() > 0,
        !stream.queued[stream.current],
        record.index < stream.count(),
        ready != 0,
    ensures
        ({
            let filled = StreamView {
                meta: stream.meta.update(stream.current, metadata),
                ..stream
            };
            let call = filled.begun(Goal::OutputNext, begun);
            &&& filled.request(call, now) matches Request::Poll { events, .. } && events == 0x4
            &&& filled.progress(call, Reply::Polled(Ok(ready)), now) matches Progress::Pending(queue)
                && {
                let queued = filled.after(queue, Reply::Ioctl(Ok(())));
                &&& queue.deadline == call.deadline
                &&& filled.request(queue, now) matches Request::QueueBuffer { record: sent } && {
                    &&& sent.index == stream.current
                    &&& sent.bytesused == metadata.bytesused
                    &&& sent.field == metadata.field
                    &&& says_no_more(sent, stream)
                }
                &&& filled.progress(queue, Reply::Ioctl(Ok(())), now) matches Progress::Pending(
                    dequeue,
                ) && {
                    &&& dequeue.deadline == call.deadline
                    &&& queued.queued[stream.current]
                    &&& queued.request(dequeue, now) is DequeueBuffer
                    &&& queued.progress(dequeue, Reply::Dequeued(Ok(record)), now)
                        == Progress::Finished(
                        Ok::<Outcome, Error>(Outcome::Frame { index: record.index as usize }),
                    )
                }
            }
        }),
{
    cursor_stops_at_first_unqueued(
        stream.queued.update(stream.current, true),
        stream.cursor,
    );
}

/// A call for the next output buffer on a started stream whose current buffer is
/// with the driver only takes a buffer back.
pub proof fn output_takes_back_what_is_with_the_driver(
    stream: StreamView,
    record: BufferRecord,
    begun: Instant,
    now: Instant,
)
    requires
        stream.wf(),
        stream.active,
        stream.count() > 0,
        stream.queued[stream.current],
        record.index < stream.count(),
    ensures
        ({
            let call = stream.begun(Goal::OutputNext, begun);
            &&& stream.request(call, now) is DequeueBuffer
            &&& stream.progress(call, Reply::Dequeued(Ok(record)), now) == Progress::Finished(
                Ok::<Outcome, Error>(Outcome::Frame { index: record.index as usize }),
            )
        }),
{
}

/// The first call for an output buffer asks for the start alone, and gives the
/// user the current buffer.
pub proof fn first_output_call_asks_for_the_start_alone(
    stream: StreamView,
    begun: Instant,
    now: Instant,
)
    requires
        stream.wf(),
        !stream.active,
    ensures
        ({
            let call = stream.begun(Goal::OutputNext, begun);
            &&& stream.request(call, now) is StreamOn
            &&& stream.progress(call, Reply::Ioctl(Ok(())), now) matches Progress::Finished(
                Ok(Outcome::Frame { index }),
            ) && index == stream.current
        }),
{
}

/// A new stream has as many buffers as the driver allocated. None is with the
/// driver, nothing is known of any, no time is set, and it was not started. A
/// buffer that was never filled in is handed over for output as one of which all
/// is in use: with 0 bytes in use.
pub proof fn new_stream_knows_nothing(fd: i32, buf_type: Type, count: nat, i: int)
    requires
        0 <= i < count,
    ensures
        ({
            let stream = StreamView::fresh(fd, buf_type, count);
            let metadata = stream.meta[i];
            &&& stream.fd == fd
            &&& stream.buf_type == buf_type
            &&& stream.queued.len() == count
            &&& stream.meta.len() == count
            &&& !stream.queued[i]
            &&& metadata.bytesused == 0
            &&& metadata.flags == 0
            &&& metadata.field == 0
            &&& metadata.timestamp == (Timestamp { sec: 0, usec: 0 })
            &&& metadata.sequence == 0
            &&& stream.cursor == 0
            &&& stream.current == 0
            &&& stream.timeout is None
            &&& !stream.active
        }),
{
}

/// A stream without buffers is as new a stream as any.
pub proof fn new_stream_may_be_empty(fd: i32, buf_type: Type)
    ensures
        ({
            let stream = StreamView::fresh(fd, buf_type, 0);
            &&& stream.queued.len() == 0
            &&& stream.meta.len() == 0
            &&& stream.fd == fd
            &&& stream.buf_type == buf_type
            &&& stream.cursor == 0
            &&& stream.current == 0
            &&& stream.timeout is None
            &&& !stream.active
        }),
{
}

/// A call that signals keep cutting short ends when its time is over. The call
/// began with one reading of a clock, and the system call that was cut short is
/// judged by a later reading of the same clock. Once the system reports that the
/// timeout has passed since the begin, the call ends as out of time; as long as
/// no reading says so, it is tried again.
pub proof fn interrupted_call_ends_when_its_time_is_over(
    stream: StreamView,
    goal: Goal,
    began: Clock,
    before: Clock,
    after: Clock,
    call: Call,
    reply: Reply,
    error: Error,
)
    requires
        stream.wf(),
        stream.timeout is Some,
        began@.len() > 0,
        began@.last().readable(),
        call.goal == goal,
        call.deadline == stream.begun(goal, began@.last()).deadline,
        after.told_time_since(before),
        reports(reply, error),
        error.kind == ErrorKind::Interrupted,
    ensures
        after.reports().last().1 - began@.last().nanos >= stream.timeout->0 * 1_000_000 ==> (
        stream.progress(call, reply, after@.last()) matches Progress::Finished(Err(failure))
            && failure.kind == ErrorKind::TimedOut),
        after@.last().nanos - began@.last().nanos < stream.timeout->0 * 1_000_000
            ==> stream.progress(call, reply, after@.last()) == Progress::Pending(call),
{
}

} // verus!
