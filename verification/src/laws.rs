//! What holds of a stream over any number of calls.
//!
//! A [`Session`] is a stream together with what the driver did for it. It runs
//! on [`Event`]s: the calls that its user makes and the replies of the system,
//! in any order in which they can come.

use crate::buffer::{BufferRecord, Metadata, Type};
use crate::call::{Call, Goal, Outcome, Progress, Reply, Request, Stage};
use crate::deadline::Deadline;
use crate::error::{Error, Ioctl};
use crate::model::StreamView;
use crate::time::{Instant, NANOS_PER_MILLI};
use vstd::prelude::*;

verus! {

/// Something that happens to a stream.
pub enum Event {
    /// The user begins a call.
    Begin { goal: Goal, now: Instant },
    /// The system answers the call that is under way.
    Reply { reply: Reply, now: Instant },
    /// The user sets or clears the timeout.
    SetTimeout { timeout: Option<i32> },
    /// The user fills in what is known of the current buffer.
    FillIn { metadata: Metadata },
}

impl Event {
    /// Whether the event is a system call that a signal cut short.
    pub open spec fn is_interruption(self) -> bool {
        self matches Event::Reply { reply, .. } && reply.is_interruption()
    }

    /// Whether the event is the begin of a call that only takes a buffer back.
    pub open spec fn dequeues_by_hand(self) -> bool {
        self matches Event::Begin { goal, .. } && (goal is CaptureDequeue || goal is OutputDequeue)
    }

    /// Whether the event is the begin of a call for a goal other than the next
    /// captured frame or a stop.
    pub open spec fn leaves_plain_capture(self) -> bool {
        self matches Event::Begin { goal, .. } && !(goal is CaptureNext || goal is Stop)
    }
}

/// A stream, the call that is under way on it, and what happened so far.
pub struct Session {
    pub stream: StreamView,
    pub call: Option<Call>,
    /// Whether the driver is streaming.
    pub streaming: bool,
    /// The buffers that the driver took and neither handed back nor let go of.
    pub held: Set<int>,
    /// The buffers that the driver took since the stream last stopped, in order.
    pub taken: Seq<int>,
    /// The records with which the driver handed buffers back, in order.
    pub returned: Seq<BufferRecord>,
    /// The buffers that the user got, in order, with what was known of them.
    pub delivered: Seq<(usize, Metadata)>,
    /// How the calls ended, in order.
    pub results: Seq<Result<Outcome, Error>>,
}

impl Session {
    /// The session of a new stream over `count` buffers.
    pub open spec fn fresh(fd: i32, buf_type: Type, count: u32) -> Session {
        Session {
            stream: StreamView::fresh(fd, buf_type, count as nat),
            call: None,
            streaming: false,
            held: Set::empty(),
            taken: Seq::empty(),
            returned: Seq::empty(),
            delivered: Seq::empty(),
            results: Seq::empty(),
        }
    }

    /// Whether `event` can happen now. One call is under way at a time.
    pub open spec fn allows(self, event: Event) -> bool {
        match event {
            Event::Begin { goal, now } => self.call is None && self.stream.may_begin(goal)
                && now.readable(),
            Event::Reply { reply, .. } => self.call matches Some(call) && self.stream.may_reply(
                call.stage,
                reply,
            ),
            Event::SetTimeout { timeout } => self.call is None && (timeout matches Some(millis)
                ==> millis >= 0),
            Event::FillIn { .. } => self.call is None && self.stream.count() > 0,
        }
    }

    /// The session after the driver did what `request` asks for and answered with
    /// `reply`.
    pub open spec fn driver_did(self, request: Request, reply: Reply) -> Session {
        match (request, reply) {
            (Request::QueueBuffer { record }, Reply::Ioctl(Ok(_))) => Session {
                held: self.held.insert(record.index as int),
                taken: self.taken.push(record.index as int),
                ..self
            },
            (Request::DequeueBuffer { .. }, Reply::Dequeued(Ok(record))) => Session {
                held: self.held.remove(record.index as int),
                returned: self.returned.push(record),
                ..self
            },
            (Request::StreamOn { .. }, Reply::Ioctl(Ok(_))) => Session { streaming: true, ..self },
            (Request::StreamOff { .. }, Reply::Ioctl(Ok(_))) => Session {
                streaming: false,
                held: Set::empty(),
                taken: Seq::empty(),
                ..self
            },
            _ => self,
        }
    }

    /// The session after the call that was under way ended with `result`.
    pub open spec fn ended(self, result: Result<Outcome, Error>) -> Session {
        Session {
            call: None,
            results: self.results.push(result),
            delivered: match result {
                Ok(Outcome::Dequeued { index } | Outcome::Frame { index }) => self.delivered.push(
                    (index, self.stream.meta[index as int]),
                ),
                _ => self.delivered,
            },
            ..self
        }
    }

    /// The session after `event`.
    pub open spec fn next(self, event: Event) -> Session {
        match event {
            Event::Begin { goal, now } => Session {
                call: Some(self.stream.begun(goal, now)),
                ..self
            },
            Event::Reply { reply, now } => {
                let call = self.call->0;
                let progress = self.stream.progress(call, reply, now);
                let driven = self.driver_did(self.stream.request(call, now), reply);
                let updated = Session { stream: self.stream.after(call, reply), ..driven };
                match progress {
                    Progress::Pending(next) => Session { call: Some(next), ..updated },
                    Progress::Finished(result) => updated.ended(result),
                }
            },
            Event::SetTimeout { timeout } => Session {
                stream: StreamView { timeout, ..self.stream },
                ..self
            },
            Event::FillIn { metadata } => Session {
                stream: StreamView {
                    meta: self.stream.meta.update(self.stream.current, metadata),
                    ..self.stream
                },
                ..self
            },
        }
    }

    /// The session after all of `events`.
    pub open spec fn run(self, events: Seq<Event>) -> Session
        decreases events.len(),
    {
        if events.len() == 0 {
            self
        } else {
            self.run(events.drop_last()).next(events.last())
        }
    }

    /// Whether `events` can happen one after the other.
    pub open spec fn possible(self, events: Seq<Event>) -> bool
        decreases events.len(),
    {
        events.len() > 0 ==> {
            &&& self.possible(events.drop_last())
            &&& self.run(events.drop_last()).allows(events.last())
        }
    }

    /// Whether each interruption in `events` comes before the deadline of the
    /// call that it hits.
    pub open spec fn interrupted_in_time(self, events: Seq<Event>) -> bool
        decreases events.len(),
    {
        events.len() > 0 ==> {
            &&& self.interrupted_in_time(events.drop_last())
            &&& events.last() matches Event::Reply { reply, now } ==> (reply.is_interruption()
                ==> !self.run(events.drop_last()).call->0.deadline.is_expired(now))
        }
    }

    /// `events` with the interruptions left out.
    pub open spec fn undisturbed(events: Seq<Event>) -> Seq<Event>
        decreases events.len(),
    {
        if events.len() == 0 {
            events
        } else if events.last().is_interruption() {
            Session::undisturbed(events.drop_last())
        } else {
            Session::undisturbed(events.drop_last()).push(events.last())
        }
    }

    /// What holds of every session.
    pub open spec fn inv(self) -> bool {
        &&& self.stream.wf()
        &&& self.call matches Some(call) ==> self.stream.admits(call)
        &&& self.stream.active == self.streaming
        &&& forall|i: int| #[trigger]
            self.held.contains(i) <==> 0 <= i < self.stream.count() && self.stream.queued[i]
    }

    /// Whether each call for an output buffer in `events` comes after the stream
    /// was started.
    pub open spec fn output_after_start(self, events: Seq<Event>) -> bool
        decreases events.len(),
    {
        events.len() > 0 ==> {
            &&& self.output_after_start(events.drop_last())
            &&& events.last() matches Event::Begin { goal, .. } ==> (goal is OutputNext
                ==> self.run(events.drop_last()).stream.active)
        }
    }

    /// Whether a buffer that the user got is the one of `record`, with what the
    /// driver reported of it.
    pub open spec fn delivers(delivered: (usize, Metadata), record: BufferRecord) -> bool {
        &&& delivered.0 == record.index
        &&& delivered.1.bytesused == record.bytesused
        &&& delivered.1.flags == record.flags
        &&& delivered.1.field == record.field
        &&& delivered.1.timestamp == record.timestamp
        &&& delivered.1.sequence == record.sequence
    }

    /// What holds while output buffers are asked for on started streams only.
    pub open spec fn delivery_inv(self) -> bool {
        &&& self.delivered.len() == self.returned.len()
        &&& forall|i: int|
            0 <= i < self.returned.len() ==> Session::delivers(
                #[trigger] self.delivered[i],
                self.returned[i],
            )
        &&& self.call matches Some(call) ==> !(call.goal is OutputNext && call.stage is StreamOn)
    }

    /// Whether the call under way is one for the next captured frame and waits
    /// for it.
    pub open spec fn awaits_capture(self) -> bool {
        self.call matches Some(call) && call.goal is CaptureNext && (call.stage is PollCapture
            || call.stage is Dequeue)
    }

    /// Whether the driver hands buffers back in `events` only while the stream is
    /// started.
    pub open spec fn returns_while_started(self, events: Seq<Event>) -> bool
        decreases events.len(),
    {
        events.len() > 0 ==> {
            &&& self.returns_while_started(events.drop_last())
            &&& events.last() matches Event::Reply { reply: Reply::Dequeued(Ok(_)), .. }
                ==> self.run(events.drop_last()).stream.active
        }
    }

    /// What holds while buffers come back from started streams only: before the
    /// start all buffers up to the cursor are queued, and a call that waits for a
    /// captured frame has left its buffer with the driver.
    pub open spec fn capture_inv(self) -> bool {
        &&& !self.stream.active ==> forall|i: int|
            0 <= i < self.stream.cursor ==> #[trigger] self.stream.queued[i]
        &&& self.awaits_capture() && self.stream.count() > 0
            ==> self.stream.queued[self.stream.current]
    }

    /// What holds of a call for the next output buffer: once it waits for a
    /// buffer to come back, the current one is with the driver.
    pub open spec fn output_inv(self) -> bool {
        self.call matches Some(call) ==> (call.goal is OutputNext && call.stage is Dequeue
            ==> self.stream.current < self.stream.count()
            && self.stream.queued[self.stream.current])
    }

    /// What holds while only captured frames and stops were asked for: the
    /// buffers that a stream took before it was started are the first ones, each
    /// once and in order, and a started stream took all of them that way first.
    pub open spec fn plain_capture_inv(self) -> bool {
        &&& if self.stream.active {
            self.taken.len() >= self.stream.count()
        } else {
            self.taken.len() == self.stream.cursor
        }
        &&& forall|i: int|
            0 <= i < self.taken.len() && i < self.stream.count() ==> #[trigger] self.taken[i] == i
        &&& !self.stream.active ==> forall|i: int|
            0 <= i < self.stream.count() ==> #[trigger] self.stream.queued[i] == (i
                < self.stream.cursor)
        &&& self.call matches Some(call) ==> call.goal is CaptureNext || call.goal is Stop
    }
}

/// The cursor moves past queued buffers only, and stops at the first one that
/// is not queued, or at the end.
pub proof fn cursor_stops_at_first_unqueued(queued: Seq<bool>, from: int)
    requires
        0 <= from <= queued.len(),
    ensures
        from <= StreamView::first_unqueued(queued, from) <= queued.len(),
        forall|i: int|
            from <= i < StreamView::first_unqueued(queued, from) ==> #[trigger] queued[i],
        StreamView::first_unqueued(queued, from) < queued.len()
            ==> !queued[StreamView::first_unqueued(queued, from)],
    decreases queued.len() - from,
{
    if from < queued.len() && queued[from] {
        cursor_stops_at_first_unqueued(queued, from + 1);
    }
}

/// Where more buffers are queued, the cursor gets as far from the first stop
/// under fewer as it does from the start.
proof fn cursor_may_stop_on_the_way(fewer: Seq<bool>, more: Seq<bool>, from: int)
    requires
        0 <= from <= fewer.len(),
        fewer.len() == more.len(),
        forall|i: int| 0 <= i < fewer.len() && #[trigger] fewer[i] ==> more[i],
    ensures
        StreamView::first_unqueued(more, StreamView::first_unqueued(fewer, from))
            == StreamView::first_unqueued(more, from),
    decreases fewer.len() - from,
{
    if from < fewer.len() && fewer[from] {
        cursor_may_stop_on_the_way(fewer, more, from + 1);
    }
}

/// `queued` with the buffers `indices` marked too.
spec fn also_marked(queued: Seq<bool>, indices: Seq<int>) -> Seq<bool> {
    Seq::new(queued.len(), |i: int| queued[i] || indices.contains(i))
}

/// What marking leaves depends on which buffers were marked alone.
proof fn marking_goes_by_what_is_marked(stream: StreamView, indices: Seq<int>)
    requires
        0 <= stream.cursor <= stream.count(),
        forall|k: int|
            0 <= k < indices.len() ==> 0 <= #[trigger] indices[k] < stream.count(),
    ensures
        ({
            let queued = also_marked(stream.queued, indices);
            indices.len() > 0 ==> stream.with_all_queued(indices) == (StreamView {
                queued,
                cursor: StreamView::first_unqueued(queued, stream.cursor),
                ..stream
            })
        }),
    decreases indices.len(),
{
    if indices.len() > 0 {
        let before = indices.drop_last();
        let last = indices.last();
        let queued = also_marked(stream.queued, indices);
        let fewer = stream.with_all_queued(before).queued;
        marking_goes_by_what_is_marked(stream, before);
        assert forall|i: int| #[trigger] indices.contains(i) <==> before.contains(i) || i
            == last by {
            if indices.contains(i) && i != last {
                let k = choose|k: int| 0 <= k < indices.len() && indices[k] == i;
                assert(before[k] == i);
            }
            if before.contains(i) {
                let k = choose|k: int| 0 <= k < before.len() && before[k] == i;
                assert(indices[k] == i);
            }
            assert(indices[indices.len() - 1] == last);
        }
        assert(fewer.update(last, true) =~= queued);
        if before.len() > 0 {
            cursor_may_stop_on_the_way(fewer, queued, stream.cursor);
        }
    }
}

/// In which order buffers are marked as queued, and how often each, makes no
/// difference.
pub proof fn marking_order_does_not_matter(stream: StreamView, a: Seq<int>, b: Seq<int>)
    requires
        0 <= stream.cursor <= stream.count(),
        forall|k: int| 0 <= k < a.len() ==> 0 <= #[trigger] a[k] < stream.count(),
        forall|k: int| 0 <= k < b.len() ==> 0 <= #[trigger] b[k] < stream.count(),
        forall|i: int| #[trigger] a.contains(i) <==> b.contains(i),
    ensures
        stream.with_all_queued(a) == stream.with_all_queued(b),
{
    marking_goes_by_what_is_marked(stream, a);
    marking_goes_by_what_is_marked(stream, b);
    if a.len() > 0 {
        assert(a.contains(a[0]));
    }
    if b.len() > 0 {
        assert(b.contains(b[0]));
        assert(a.contains(b[0]));
    }
    assert(also_marked(stream.queued, a) =~= also_marked(stream.queued, b));
}

/// Two buffers can be marked as queued in either order.
pub proof fn marking_commutes(stream: StreamView, i: int, j: int)
    requires
        0 <= stream.cursor <= stream.count(),
        0 <= i < stream.count(),
        0 <= j < stream.count(),
    ensures
        stream.with_queued(i).with_queued(j) == stream.with_queued(j).with_queued(i),
{
    let both = stream.queued.update(i, true).update(j, true);
    assert(both =~= stream.queued.update(j, true).update(i, true));
    cursor_may_stop_on_the_way(stream.queued.update(i, true), both, stream.cursor);
    cursor_may_stop_on_the_way(stream.queued.update(j, true), both, stream.cursor);
}

/// To mark a buffer as queued twice is to mark it once.
pub proof fn marking_twice_is_marking_once(stream: StreamView, i: int)
    requires
        0 <= stream.cursor <= stream.count(),
        0 <= i < stream.count(),
    ensures
        stream.with_queued(i).with_queued(i) == stream.with_queued(i),
{
    let queued = stream.queued.update(i, true);
    assert(queued.update(i, true) =~= queued);
    cursor_may_stop_on_the_way(queued, queued, stream.cursor);
}

/// Once every buffer of a stopped stream was marked as queued, in whatever
/// order, all of them are queued and the cursor has come to the end.
pub proof fn marking_all_brings_the_cursor_to_the_end(stream: StreamView, indices: Seq<int>)
    requires
        forall|k: int|
            0 <= k < indices.len() ==> 0 <= #[trigger] indices[k] < stream.count(),
        forall|i: int| 0 <= i < stream.count() ==> #[trigger] indices.contains(i),
    ensures
        ({
            let marked = stream.stopped().with_all_queued(indices);
            &&& marked.cursor == stream.count()
            &&& marked.count() == stream.count()
            &&& forall|i: int| 0 <= i < stream.count() ==> #[trigger] marked.queued[i]
        }),
{
    let marked = stream.stopped().with_all_queued(indices);
    marking_goes_by_what_is_marked(stream.stopped(), indices);
    if stream.count() > 0 {
        assert(indices.contains(0));
        cursor_stops_at_first_unqueued(marked.queued, 0);
        assert forall|i: int| 0 <= i < stream.count() implies #[trigger] marked.queued[i] by {
            assert(indices.contains(i));
        }
    } else if indices.len() > 0 {
        assert(0 <= indices[0] < stream.count());
    }
}

proof fn next_keeps_inv(session: Session, event: Event)
    requires
        session.inv(),
        session.allows(event),
    ensures
        session.next(event).inv(),
        session.next(event).stream.count() == session.stream.count(),
{
    if let Event::Reply { reply, now } = event {
        let call = session.call->0;
        if reply.succeeded() {
            match call.stage {
                Stage::QueueCapture { index } | Stage::QueueOutput { index } => {
                    cursor_stops_at_first_unqueued(
                        session.stream.queued.update(index as int, true),
                        session.stream.cursor,
                    );
                },
                _ => {},
            }
        }
    }
}

proof fn run_keeps_inv(session: Session, events: Seq<Event>)
    requires
        session.inv(),
        session.possible(events),
    ensures
        session.run(events).inv(),
        session.run(events).stream.count() == session.stream.count(),
    decreases events.len(),
{
    if events.len() > 0 {
        run_keeps_inv(session, events.drop_last());
        next_keeps_inv(session.run(events.drop_last()), events.last());
    }
}

/// Whatever happens to a stream, it stays well-formed, the call under way
/// fits it, it takes itself to be started exactly when the driver is streaming,
/// and it takes a buffer to be queued exactly when the driver has it: when the
/// last of the requests about it that succeeded handed it over.
pub proof fn queued_buffers_are_those_the_driver_holds(
    fd: i32,
    buf_type: Type,
    count: u32,
    events: Seq<Event>,
)
    requires
        Session::fresh(fd, buf_type, count).possible(events),
    ensures
        ({
            let session = Session::fresh(fd, buf_type, count).run(events);
            &&& session.stream.wf()
            &&& session.call matches Some(call) ==> session.stream.admits(call)
            &&& session.stream.active == session.streaming
            &&& forall|i: int| #[trigger]
                session.held.contains(i) <==> 0 <= i < session.stream.count()
                    && session.stream.queued[i]
        }),
{
    run_keeps_inv(Session::fresh(fd, buf_type, count), events);
}

/// A call for the next frame never hands the driver a buffer that the driver
/// already has, whatever failed or was interrupted before.
pub proof fn next_never_queues_a_held_buffer(
    fd: i32,
    buf_type: Type,
    count: u32,
    events: Seq<Event>,
)
    requires
        Session::fresh(fd, buf_type, count).possible(events),
    ensures
        ({
            let session = Session::fresh(fd, buf_type, count).run(events);
            session.call matches Some(call) ==> call.goal.is_next() ==> (call.stage.queues()
                matches Some(index) ==> !session.held.contains(index as int))
        }),
{
    run_keeps_inv(Session::fresh(fd, buf_type, count), events);
}

/// System calls that a signal cuts short before the deadline leave no trace:
/// the session ends up as it does without them.
pub proof fn interruptions_leave_no_trace(session: Session, events: Seq<Event>)
    requires
        session.possible(events),
        session.interrupted_in_time(events),
    ensures
        session.possible(Session::undisturbed(events)),
        session.run(Session::undisturbed(events)) == session.run(events),
    decreases events.len(),
{
    if events.len() > 0 {
        let before = events.drop_last();
        let last = events.last();
        interruptions_leave_no_trace(session, before);
        if !last.is_interruption() {
            let calm = Session::undisturbed(before);
            assert(calm.push(last).drop_last() =~= calm);
        }
    }
}

/// No call ever ends with the report that it was interrupted.
pub proof fn no_call_reports_an_interruption(
    fd: i32,
    buf_type: Type,
    count: u32,
    events: Seq<Event>,
)
    ensures
        forall|i: int|
            0 <= i < Session::fresh(fd, buf_type, count).run(events).results.len() ==> (
            #[trigger] Session::fresh(fd, buf_type, count).run(events).results[i] matches Err(error)
                ==> !error.is_interruption()),
    decreases events.len(),
{
    if events.len() > 0 {
        no_call_reports_an_interruption(fd, buf_type, count, events.drop_last());
    }
}

proof fn next_keeps_plain_capture(session: Session, event: Event)
    requires
        session.inv(),
        session.plain_capture_inv(),
        session.allows(event),
        !event.leaves_plain_capture(),
    ensures
        session.next(event).plain_capture_inv(),
{
    if let Event::Reply { reply, now } = event {
        let call = session.call->0;
        if reply.succeeded() {
            if let Stage::QueueCapture { index } = call.stage {
                let queued = session.stream.queued.update(index as int, true);
                cursor_stops_at_first_unqueued(queued, session.stream.cursor);
                if !session.stream.active {
                    let cursor = StreamView::first_unqueued(queued, session.stream.cursor);
                    if cursor > session.stream.cursor + 1 {
                        assert(queued[session.stream.cursor + 1]);
                    }
                }
            }
        }
    }
}

proof fn run_keeps_plain_capture(session: Session, events: Seq<Event>)
    requires
        session.inv(),
        session.plain_capture_inv(),
        session.possible(events),
        forall|i: int| 0 <= i < events.len() ==> !(#[trigger] events[i]).leaves_plain_capture(),
    ensures
        session.run(events).inv(),
        session.run(events).plain_capture_inv(),
    decreases events.len(),
{
    if events.len() > 0 {
        run_keeps_plain_capture(session, events.drop_last());
        next_keeps_inv(session.run(events.drop_last()), events.last());
        next_keeps_plain_capture(session.run(events.drop_last()), events.last());
    }
}

/// However often the start of a capture stream fails or is interrupted, the
/// calls for the next frame together queue each buffer once and in order: what
/// the driver took is never queued again, and the call under way goes on with
/// the buffer that comes after it. The stream is started only when the driver
/// has them all. The same holds again after each stop.
pub proof fn startup_queues_each_buffer_once(
    fd: i32,
    buf_type: Type,
    count: u32,
    events: Seq<Event>,
)
    requires
        Session::fresh(fd, buf_type, count).possible(events),
        forall|i: int| 0 <= i < events.len() ==> !(#[trigger] events[i]).leaves_plain_capture(),
    ensures
        ({
            let session = Session::fresh(fd, buf_type, count).run(events);
            let stream = session.stream;
            &&& forall|i: int|
                0 <= i < session.taken.len() && i < count ==> #[trigger] session.taken[i] == i
            &&& stream.active ==> session.taken.len() >= count
            &&& !stream.active ==> {
                &&& session.taken.len() <= count
                &&& forall|i: int| #[trigger]
                    session.held.contains(i) <==> 0 <= i < session.taken.len()
                &&& session.call matches Some(call) ==> {
                    &&& call.stage.queues() matches Some(index) ==> index == session.taken.len()
                    &&& call.stage is StreamOn ==> session.taken.len() == count
                }
            }
        }),
{
    let start = Session::fresh(fd, buf_type, count);
    run_keeps_plain_capture(start, events);
    run_keeps_inv(start, events);
}

/// A call for the next captured frame that fails while it waits for the frame,
/// with its buffer left with the driver, is taken up again by the next such
/// call: it waits again, and queues nothing. What came before does not matter.
pub proof fn failed_wait_is_taken_up_again(
    session: Session,
    reply: Reply,
    now: Instant,
    later: Instant,
)
    requires
        session.inv(),
        session.awaits_capture(),
        session.held.contains(session.stream.current),
        session.allows(Event::Reply { reply, now }),
        session.stream.progress(session.call->0, reply, now) matches Progress::Finished(Err(_)),
    ensures
        ({
            let after = session.next(Event::Reply { reply, now });
            &&& after.call is None
            &&& after.stream == session.stream
            &&& after.stream.may_begin(Goal::CaptureNext)
            &&& after.stream.begun(Goal::CaptureNext, later).stage is PollCapture
        }),
{
}

proof fn run_keeps_capture(session: Session, events: Seq<Event>)
    requires
        session.inv(),
        session.capture_inv(),
        session.possible(events),
        session.returns_while_started(events),
    ensures
        session.run(events).inv(),
        session.run(events).capture_inv(),
        session.run(events).stream.count() == session.stream.count(),
    decreases events.len(),
{
    if events.len() > 0 {
        let before = session.run(events.drop_last());
        run_keeps_capture(session, events.drop_last());
        next_keeps_inv(before, events.last());
        if let Event::Reply { reply, now } = events.last() {
            match before.call->0.stage {
                Stage::QueueCapture { index } | Stage::QueueOutput { index } => {
                    if reply.succeeded() {
                        cursor_stops_at_first_unqueued(
                            before.stream.queued.update(index as int, true),
                            before.stream.cursor,
                        );
                    }
                },
                _ => {},
            }
        }
    }
}

/// Where no buffer is taken back by hand, buffers come back only while the
/// stream is started: the calls for the next frame see to that.
pub proof fn next_dequeues_from_started_streams_only(
    fd: i32,
    buf_type: Type,
    count: u32,
    events: Seq<Event>,
)
    requires
        Session::fresh(fd, buf_type, count).possible(events),
        forall|i: int| 0 <= i < events.len() ==> !(#[trigger] events[i]).dequeues_by_hand(),
    ensures
        Session::fresh(fd, buf_type, count).returns_while_started(events),
        Session::fresh(fd, buf_type, count).run(events).call matches Some(call) ==> !(
        call.goal is CaptureDequeue || call.goal is OutputDequeue),
    decreases events.len(),
{
    if events.len() > 0 {
        next_dequeues_from_started_streams_only(fd, buf_type, count, events.drop_last());
        run_keeps_inv(Session::fresh(fd, buf_type, count), events.drop_last());
        assert(!events[events.len() - 1].dequeues_by_hand());
    }
}

/// A call that waits for the next captured frame has left its buffer with the
/// driver, whatever calls were made, failed or were interrupted before. Left out
/// are drivers that hand a buffer back before the stream was started.
pub proof fn waiting_call_left_its_buffer_with_the_driver(
    fd: i32,
    buf_type: Type,
    count: u32,
    events: Seq<Event>,
)
    requires
        count > 0,
        Session::fresh(fd, buf_type, count).possible(events),
        Session::fresh(fd, buf_type, count).returns_while_started(events),
        Session::fresh(fd, buf_type, count).run(events).awaits_capture(),
    ensures
        ({
            let session = Session::fresh(fd, buf_type, count).run(events);
            &&& session.inv()
            &&& session.held.contains(session.stream.current)
        }),
{
    run_keeps_capture(Session::fresh(fd, buf_type, count), events);
}

proof fn run_keeps_output(session: Session, events: Seq<Event>)
    requires
        session.inv(),
        session.output_inv(),
        session.possible(events),
    ensures
        session.run(events).inv(),
        session.run(events).output_inv(),
    decreases events.len(),
{
    if events.len() > 0 {
        run_keeps_output(session, events.drop_last());
        next_keeps_inv(session.run(events.drop_last()), events.last());
    }
}

/// A call for the next output buffer that fails is taken up again where it
/// failed, whatever came before. Where it waited for a buffer to come back, the
/// one that was filled is with the driver: the next such call waits again, and
/// queues nothing. Where the filled buffer was still to be queued, the next call
/// queues it, and where the stream was still to be started, it starts it.
pub proof fn failed_output_is_taken_up_again(
    fd: i32,
    buf_type: Type,
    count: u32,
    events: Seq<Event>,
    reply: Reply,
    now: Instant,
    later: Instant,
)
    requires
        Session::fresh(fd, buf_type, count).possible(events),
        ({
            let session = Session::fresh(fd, buf_type, count).run(events);
            &&& session.call matches Some(call) && call.goal is OutputNext
            &&& session.allows(Event::Reply { reply, now })
            &&& session.stream.progress(session.call->0, reply, now) matches Progress::Finished(
                Err(_),
            )
        }),
    ensures
        ({
            let before = Session::fresh(fd, buf_type, count).run(events);
            let after = before.next(Event::Reply { reply, now });
            &&& after.call is None
            &&& after.stream == before.stream
            &&& after.stream.may_begin(Goal::OutputNext)
            &&& after.stream.begun(Goal::OutputNext, later).stage == match before.call->0.stage {
                Stage::QueueOutput { index } => Stage::PollOutput { index },
                stage => stage,
            }
        }),
{
    run_keeps_output(Session::fresh(fd, buf_type, count), events);
}

/// A capture stream whose buffers are all queued, and whose start failed, is
/// only started by the next call for a frame: that call asks for nothing but
/// the start until the driver has started the stream, and queues nothing. If
/// the start succeeds, the stream is active and the call waits for a frame; if
/// it fails again, the stream is still not active and all buffers are still
/// queued.
pub proof fn failed_start_is_tried_again(
    stream: StreamView,
    failed: Call,
    failure: Reply,
    failed_at: Instant,
    begun: Instant,
    asked: Instant,
    reply: Reply,
    now: Instant,
)
    requires
        stream.wf(),
        stream.admits(failed),
        failed.goal is CaptureNext,
        failed.stage is StreamOn,
        forall|i: int| 0 <= i < stream.count() ==> #[trigger] stream.queued[i],
        stream.progress(failed, failure, failed_at) matches Progress::Finished(Err(_)),
        reply.answers(Stage::StreamOn),
    ensures
        ({
            let left = stream.after(failed, failure);
            let call = left.begun(Goal::CaptureNext, begun);
            let after = left.after(call, reply);
            &&& left == stream
            &&& !left.active
            &&& left.may_begin(Goal::CaptureNext)
            &&& call.stage is StreamOn
            &&& left.request(call, asked) == (Request::StreamOn {
                type_: stream.buf_type.spec_code(),
            })
            &&& after == (StreamView { active: reply.succeeded(), ..stream })
            &&& match left.progress(call, reply, now) {
                Progress::Pending(next) => next == (Call {
                    stage: if reply.succeeded() {
                        Stage::PollCapture
                    } else {
                        Stage::StreamOn
                    },
                    ..call
                }),
                Progress::Finished(result) => result is Err && !reply.succeeded(),
            }
        }),
{
}

/// The user gets every buffer that the driver hands back, once and in the
/// driver's order, with what the driver reported of it. Left out is the call for
/// an output buffer on a stream that was not started: it hands out a buffer
/// without the driver.
pub proof fn returned_buffers_are_delivered_in_order(
    fd: i32,
    buf_type: Type,
    count: u32,
    events: Seq<Event>,
)
    requires
        Session::fresh(fd, buf_type, count).possible(events),
        Session::fresh(fd, buf_type, count).output_after_start(events),
    ensures
        ({
            let session = Session::fresh(fd, buf_type, count).run(events);
            &&& session.delivered.len() == session.returned.len()
            &&& forall|i: int|
                0 <= i < session.returned.len() ==> {
                    let (index, metadata) = #[trigger] session.delivered[i];
                    let record = session.returned[i];
                    &&& index == record.index
                    &&& metadata.bytesused == record.bytesused
                    &&& metadata.flags == record.flags
                    &&& metadata.field == record.field
                    &&& metadata.timestamp == record.timestamp
                    &&& metadata.sequence == record.sequence
                }
        }),
{
    run_keeps_delivery(Session::fresh(fd, buf_type, count), events);
}

proof fn run_keeps_delivery(session: Session, events: Seq<Event>)
    requires
        session.inv(),
        session.delivery_inv(),
        session.possible(events),
        session.output_after_start(events),
    ensures
        session.run(events).delivery_inv(),
    decreases events.len(),
{
    if events.len() > 0 {
        run_keeps_delivery(session, events.drop_last());
        run_keeps_inv(session, events.drop_last());
    }
}

/// Where the driver numbers the frames that it hands back in rising order, the
/// user gets them in rising order.
pub proof fn frames_rise_as_the_driver_numbers_them(
    fd: i32,
    buf_type: Type,
    count: u32,
    events: Seq<Event>,
)
    requires
        Session::fresh(fd, buf_type, count).possible(events),
        Session::fresh(fd, buf_type, count).output_after_start(events),
        ({
            let returned = Session::fresh(fd, buf_type, count).run(events).returned;
            forall|i: int, j: int|
                0 <= i < j < returned.len() ==> #[trigger] returned[i].sequence
                    < #[trigger] returned[j].sequence
        }),
    ensures
        ({
            let delivered = Session::fresh(fd, buf_type, count).run(events).delivered;
            forall|i: int, j: int|
                0 <= i < j < delivered.len() ==> #[trigger] delivered[i].1.sequence
                    < #[trigger] delivered[j].1.sequence
        }),
{
    returned_buffers_are_delivered_in_order(fd, buf_type, count, events);
    let session = Session::fresh(fd, buf_type, count).run(events);
    assert forall|i: int, j: int| 0 <= i < j < session.delivered.len() implies #[trigger]
        session.delivered[i].1.sequence < #[trigger] session.delivered[j].1.sequence by {
        assert(session.returned[i].sequence < session.returned[j].sequence);
    }
}

/// A buffer that the driver hands back is the user's: the call ends with it,
/// the driver no longer has it, and the stream stands at it with what the driver
/// reported.
pub proof fn returned_buffer_is_the_users(session: Session, record: BufferRecord, now: Instant)
    requires
        session.inv(),
        session.call matches Some(call) && call.stage is Dequeue,
        session.allows(Event::Reply { reply: Reply::Dequeued(Ok(record)), now }),
    ensures
        ({
            let after = session.next(Event::Reply { reply: Reply::Dequeued(Ok(record)), now });
            &&& after.call is None
            &&& after.results.last() == Ok::<Outcome, Error>(
                if session.call->0.goal.is_next() {
                    Outcome::Frame { index: record.index as usize }
                } else {
                    Outcome::Dequeued { index: record.index as usize }
                },
            )
            &&& !after.held.contains(record.index as int)
            &&& !after.stream.queued[record.index as int]
            &&& after.stream.current == record.index
            &&& after.stream.meta[record.index as int].bytesused == record.bytesused
            &&& after.stream.meta[record.index as int].flags == record.flags
            &&& after.stream.meta[record.index as int].field == record.field
            &&& after.stream.meta[record.index as int].timestamp == record.timestamp
            &&& after.stream.meta[record.index as int].sequence == record.sequence
        }),
{
}

/// The reply that makes a call fail leaves the stream as it was: what the call
/// achieved before stays.
pub proof fn failure_changes_nothing(stream: StreamView, call: Call, reply: Reply, now: Instant)
    requires
        stream.progress(call, reply, now) matches Progress::Finished(Err(_)),
    ensures
        stream.after(call, reply) == stream,
{
}

/// A call keeps its goal and its deadline from begin to end.
pub proof fn call_keeps_goal_and_deadline(
    stream: StreamView,
    call: Call,
    reply: Reply,
    now: Instant,
)
    ensures
        stream.progress(call, reply, now) matches Progress::Pending(next) ==> next.goal == call.goal
            && next.deadline == call.deadline,
{
}

/// Each success brings a call closer to its end, and the last one ends it well.
pub proof fn success_brings_a_call_on(stream: StreamView, call: Call, reply: Reply, now: Instant)
    requires
        stream.wf(),
        stream.admits(call),
        stream.may_reply(call.stage, reply),
        reply.succeeded(),
    ensures
        match stream.progress(call, reply, now) {
            Progress::Pending(next) => stream.after(call, reply).most_steps(next)
                < stream.most_steps(call),
            Progress::Finished(result) => result is Ok,
        },
{
    if let Stage::QueueCapture { index } = call.stage {
        cursor_stops_at_first_unqueued(stream.queued.update(index as int, true), stream.cursor);
    }
}

/// A call is done after at most as many successes as there are buffers, and
/// three more.
pub proof fn call_needs_few_successes(stream: StreamView, goal: Goal, now: Instant)
    requires
        stream.wf(),
        stream.may_begin(goal),
    ensures
        1 <= stream.most_steps(stream.begun(goal, now)) <= stream.count() + 3,
{
}

/// A call that the stream reports as out of time either waited for the device
/// in vain or was interrupted when its deadline had passed.
pub proof fn timeouts_come_from_the_deadline(
    stream: StreamView,
    call: Call,
    reply: Reply,
    now: Instant,
    ioctl: Ioctl,
)
    requires
        reply.failure() matches Some(error) ==> error.context is None,
    ensures
        stream.progress(call, reply, now) == Progress::Finished(
            Err::<Outcome, Error>(Error::spec_timed_out(ioctl)),
        ) <==> {
            &&& ioctl == call.stage.spec_ioctl()
            &&& reply == Reply::Polled(Ok(0)) || reply.is_interruption()
                && call.deadline.is_expired(now)
        },
{
}

/// Without a timeout a call has no deadline: it never expires, and waits for
/// the device without limit.
pub proof fn no_timeout_means_no_deadline(
    stream: StreamView,
    goal: Goal,
    begun: Instant,
    now: Instant,
)
    requires
        stream.timeout is None,
    ensures
        !stream.begun(goal, begun).deadline.is_expired(now),
        stream.begun(goal, begun).deadline.wait_millis(now) == -1,
{
}

/// A call under a timeout expires exactly when that time has passed since it
/// began.
pub proof fn timeout_is_the_time_that_a_call_has(
    stream: StreamView,
    goal: Goal,
    begun: Instant,
    now: Instant,
)
    requires
        stream.wf(),
        stream.timeout is Some,
        begun.readable(),
    ensures
        stream.begun(goal, begun).deadline.is_expired(now) <==> now.nanos - begun.nanos
            >= stream.timeout->0 * NANOS_PER_MILLI,
{
}

/// A `poll` under a deadline waits for a limited time. It waits not at all
/// exactly when the deadline has passed, and else no longer than what is left,
/// but for at least one millisecond. It waits for all that is left but a part of
/// a millisecond, unless more is left than it can be told.
pub proof fn poll_waits_until_the_deadline(deadline: Deadline, now: Instant)
    requires
        deadline.expires_at is Some,
    ensures
        0 <= deadline.wait_millis(now) <= i32::MAX,
        deadline.wait_millis(now) == 0 <==> deadline.is_expired(now),
        deadline.wait_millis(now) > 1 ==> deadline.wait_millis(now) * NANOS_PER_MILLI
            <= deadline.expires_at->0.nanos - now.nanos,
        deadline.wait_millis(now) < i32::MAX ==> (deadline.wait_millis(now) + 1) * NANOS_PER_MILLI
            > deadline.expires_at->0.nanos - now.nanos,
{
}

/// The later a `poll` is made, the shorter it may wait, or as long.
pub proof fn poll_never_waits_longer_later(deadline: Deadline, now: Instant, later: Instant)
    requires
        now.nanos <= later.nanos,
    ensures
        deadline.wait_millis(later) <= deadline.wait_millis(now),
{
}

/// Under a timeout no `poll` of a call may wait for longer than the timeout.
pub proof fn poll_waits_no_longer_than_the_timeout(
    stream: StreamView,
    goal: Goal,
    begun: Instant,
    now: Instant,
)
    requires
        stream.wf(),
        stream.timeout is Some,
        begun.readable(),
        begun.nanos <= now.nanos,
    ensures
        0 <= stream.begun(goal, begun).deadline.wait_millis(now) <= stream.timeout->0,
{
}

/// A deadline that has passed stays passed.
pub proof fn expiry_is_final(deadline: Deadline, now: Instant, later: Instant)
    requires
        deadline.is_expired(now),
        now.nanos <= later.nanos,
    ensures
        deadline.is_expired(later),
{
}

/// A stopped stream is as new, but for its timeout and for what is known of its
/// buffers.
pub proof fn stopped_stream_is_as_new(stream: StreamView)
    ensures
        stream.stopped() == (StreamView {
            meta: stream.meta,
            timeout: stream.timeout,
            ..StreamView::fresh(stream.fd, stream.buf_type, stream.count())
        }),
{
}

/// The first call for an output buffer starts the stream and hands out the
/// current buffer, and neither queues nor dequeues.
pub proof fn first_output_buffer_comes_without_the_driver(
    stream: StreamView,
    begun: Instant,
    now: Instant,
)
    requires
        !stream.active,
    ensures
        ({
            let call = stream.begun(Goal::OutputNext, begun);
            let reply = Reply::Ioctl(Ok(()));
            &&& call.stage is StreamOn
            &&& stream.after(call, reply) == (StreamView { active: true, ..stream })
            &&& stream.progress(call, reply, now) == Progress::Finished(
                Ok::<Outcome, Error>(Outcome::Frame { index: stream.current as usize }),
            )
        }),
{
}

} // verus!
