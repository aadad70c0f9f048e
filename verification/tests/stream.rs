//! Calls on a stream, reply by reply.

use v4l_stream::buffer::{BufferRecord, Metadata, Timestamp, Type};
use v4l_stream::call::{Call, Goal, Outcome, Progress, Reply, Request, Stage};
use v4l_stream::device::Device;
use v4l_stream::error::{Error, ErrorKind, Ioctl};
use v4l_stream::stream::Stream;
use v4l_stream::time::{Clock, Duration, Instant};

const OK: Reply = Reply::Ioctl(Ok(()));
const READY: Reply = Reply::Polled(Ok(1));
const NOTHING: Reply = Reply::Polled(Ok(0));

fn at(nanos: u128) -> Instant {
    Instant { nanos }
}

fn failure(code: i32) -> Error {
    Error {
        kind: ErrorKind::Other,
        code: Some(code),
        context: None,
    }
}

fn interruption() -> Error {
    Error {
        kind: ErrorKind::Interrupted,
        code: Some(4),
        context: None,
    }
}

fn timed_out(ioctl: Ioctl) -> Progress {
    Progress::Finished(Err(Error {
        kind: ErrorKind::TimedOut,
        code: None,
        context: Some(ioctl),
    }))
}

fn blank(type_: u32) -> BufferRecord {
    BufferRecord {
        index: 0,
        type_,
        bytesused: 0,
        flags: 0,
        field: 0,
        timestamp: Timestamp { sec: 0, usec: 0 },
        sequence: 0,
        memory: 1,
    }
}

fn filled(index: u32, sequence: u32) -> BufferRecord {
    BufferRecord {
        index,
        bytesused: 640,
        flags: 0x2001,
        field: 3,
        timestamp: Timestamp { sec: 11, usec: 22 },
        sequence,
        ..blank(1)
    }
}

fn dequeued(index: u32, sequence: u32) -> Reply {
    Reply::Dequeued(Ok(filled(index, sequence)))
}

fn stream(buf_type: Type, count: u32) -> Stream {
    let dev = Device::new(9);
    Stream::with_buffers(&dev, buf_type, count)
        .finish(Ok(count))
        .expect("stream")
}

fn pending(progress: Progress) -> Call {
    match progress {
        Progress::Pending(call) => call,
        Progress::Finished(result) => panic!("finished: {result:?}"),
    }
}

/// Runs a call on the given replies, all at time 0, and tells in which stages
/// it waited and how it ended.
fn run(stream: &mut Stream, goal: Goal, replies: &[Reply]) -> (Vec<Stage>, Progress) {
    assert!(stream.can_begin(goal));
    let call = stream.begin_at(goal, at(0));
    let mut stages = vec![call.stage];
    let mut progress = Progress::Pending(call);
    for reply in replies {
        let call = pending(progress);
        assert!(stream.can_take(&call, reply));
        progress = stream.advance_at(call, *reply, at(0));
        if let Progress::Pending(next) = progress {
            assert_eq!(next.goal, goal);
            assert_eq!(next.deadline, call.deadline);
            stages.push(next.stage);
        }
    }
    (stages, progress)
}

fn queue_capture(index: usize) -> Stage {
    Stage::QueueCapture { index }
}

/// A started capture stream over two buffers that has delivered buffer 0.
fn started_capture() -> Stream {
    let mut stream = stream(Type::VideoCapture, 2);
    let (_, progress) = run(
        &mut stream,
        Goal::CaptureNext,
        &[OK, OK, OK, READY, dequeued(0, 1)],
    );
    assert_eq!(
        progress,
        Progress::Finished(Ok(Outcome::Frame { index: 0 }))
    );
    stream
}

#[test]
fn new_stream_asks_for_four_buffers() {
    let dev = Device::new(5);
    let allocation = Stream::new(&dev, Type::VideoOutput);
    assert_eq!(allocation.buf_count(), 4);
    assert_eq!(allocation.buf_type(), Type::VideoOutput);
    assert_eq!(allocation.handle().fd, 5);
    let allocation = Stream::with_buffers(&dev, Type::MetaCapture, 17);
    assert_eq!(allocation.buf_count(), 17);
    assert_eq!(allocation.buf_type(), Type::MetaCapture);
    assert_eq!(allocation.finish(Ok(3)).expect("stream").handle().fd, 5);
    assert_eq!(dev.handle().fd, 5);
}

#[test]
fn failed_allocation_fails_the_stream() {
    let dev = Device::new(5);
    let error = Stream::new(&dev, Type::VideoCapture)
        .finish(Err(failure(12)))
        .unwrap_err();
    assert_eq!(error, failure(12));
}

#[test]
fn driver_may_allocate_fewer_buffers() {
    let dev = Device::new(5);
    let mut stream = Stream::new(&dev, Type::VideoCapture)
        .finish(Ok(1))
        .expect("stream");
    let (stages, _) = run(&mut stream, Goal::CaptureNext, &[OK]);
    assert_eq!(stages, vec![queue_capture(0), Stage::StreamOn]);
}

#[test]
fn first_captured_frame_queues_all_buffers_and_starts() {
    let mut stream = stream(Type::VideoCapture, 3);
    let (stages, progress) = run(
        &mut stream,
        Goal::CaptureNext,
        &[OK, OK, OK, OK, READY, dequeued(2, 40)],
    );
    assert_eq!(
        stages,
        vec![
            queue_capture(0),
            queue_capture(1),
            queue_capture(2),
            Stage::StreamOn,
            Stage::PollCapture,
            Stage::Dequeue,
        ]
    );
    assert_eq!(
        progress,
        Progress::Finished(Ok(Outcome::Frame { index: 2 }))
    );
    let (index, metadata) = stream.frame();
    assert_eq!(index, 2);
    assert_eq!(
        *metadata,
        Metadata {
            bytesused: 640,
            flags: 0x2001,
            field: 3,
            timestamp: Timestamp { sec: 11, usec: 22 },
            sequence: 40,
        }
    );
}

#[test]
fn later_captured_frames_give_the_last_buffer_back_first() {
    let mut stream = started_capture();
    let (stages, progress) = run(
        &mut stream,
        Goal::CaptureNext,
        &[OK, READY, dequeued(1, 2)],
    );
    assert_eq!(
        stages,
        vec![queue_capture(0), Stage::PollCapture, Stage::Dequeue]
    );
    assert_eq!(
        progress,
        Progress::Finished(Ok(Outcome::Frame { index: 1 }))
    );
}

#[test]
fn startup_resumes_where_it_failed() {
    let mut stream = stream(Type::VideoCapture, 3);
    let (stages, progress) = run(
        &mut stream,
        Goal::CaptureNext,
        &[OK, Reply::Ioctl(Err(failure(5)))],
    );
    assert_eq!(stages, vec![queue_capture(0), queue_capture(1)]);
    assert_eq!(progress, Progress::Finished(Err(failure(5))));
    let (stages, progress) = run(
        &mut stream,
        Goal::CaptureNext,
        &[OK, OK, Reply::Ioctl(Err(failure(5)))],
    );
    assert_eq!(
        stages,
        vec![queue_capture(1), queue_capture(2), Stage::StreamOn]
    );
    assert_eq!(progress, Progress::Finished(Err(failure(5))));
    let (stages, _) = run(&mut stream, Goal::CaptureNext, &[OK]);
    assert_eq!(stages, vec![Stage::StreamOn, Stage::PollCapture]);
}

#[test]
fn startup_passes_over_buffers_that_were_queued_by_hand() {
    let mut stream = stream(Type::VideoCapture, 4);
    for index in [1, 0] {
        let (stages, progress) = run(&mut stream, Goal::CaptureQueue { index }, &[OK]);
        assert_eq!(stages, vec![queue_capture(index)]);
        assert_eq!(progress, Progress::Finished(Ok(Outcome::Completed)));
    }
    run(&mut stream, Goal::CaptureQueue { index: 3 }, &[OK]);
    let (stages, _) = run(&mut stream, Goal::CaptureNext, &[OK]);
    assert_eq!(stages, vec![queue_capture(2), Stage::StreamOn]);
}

#[test]
fn failed_wait_does_not_queue_the_buffer_again() {
    let mut stream = started_capture();
    let (stages, progress) = run(&mut stream, Goal::CaptureNext, &[OK, NOTHING]);
    assert_eq!(stages, vec![queue_capture(0), Stage::PollCapture]);
    assert_eq!(progress, timed_out(Ioctl::DequeueBuffer));
    let (stages, progress) = run(
        &mut stream,
        Goal::CaptureNext,
        &[READY, Reply::Dequeued(Err(failure(5)))],
    );
    assert_eq!(stages, vec![Stage::PollCapture, Stage::Dequeue]);
    assert_eq!(progress, Progress::Finished(Err(failure(5))));
    let (stages, progress) = run(&mut stream, Goal::CaptureNext, &[READY, dequeued(1, 2)]);
    assert_eq!(stages, vec![Stage::PollCapture, Stage::Dequeue]);
    assert_eq!(
        progress,
        Progress::Finished(Ok(Outcome::Frame { index: 1 }))
    );
}

#[test]
fn failed_wait_after_a_start_by_hand_does_not_queue_again() {
    let mut stream = stream(Type::VideoCapture, 2);
    run(&mut stream, Goal::Start, &[OK]);
    let (stages, progress) = run(&mut stream, Goal::CaptureNext, &[OK, NOTHING]);
    assert_eq!(stages, vec![queue_capture(0), Stage::PollCapture]);
    assert_eq!(progress, timed_out(Ioctl::DequeueBuffer));
    let (stages, progress) = run(&mut stream, Goal::CaptureNext, &[READY, dequeued(0, 1)]);
    assert_eq!(stages, vec![Stage::PollCapture, Stage::Dequeue]);
    assert_eq!(
        progress,
        Progress::Finished(Ok(Outcome::Frame { index: 0 }))
    );
}

#[test]
fn output_hands_out_an_empty_buffer_first() {
    let mut stream = stream(Type::VideoOutput, 2);
    let (stages, progress) = run(&mut stream, Goal::OutputNext, &[OK]);
    assert_eq!(stages, vec![Stage::StreamOn]);
    assert_eq!(
        progress,
        Progress::Finished(Ok(Outcome::Frame { index: 0 }))
    );
    assert_eq!(*stream.frame().1, Metadata::default());
}

#[test]
fn output_queues_what_the_caller_filled_in() {
    let mut stream = stream(Type::VideoOutput, 2);
    run(&mut stream, Goal::OutputNext, &[OK]);
    let (index, metadata) = stream.frame_mut();
    assert_eq!(index, 0);
    metadata.bytesused = 77;
    metadata.field = 5;
    metadata.flags = 6;
    let call = stream.begin_at(Goal::OutputNext, at(0));
    assert_eq!(call.stage, Stage::PollOutput { index: 0 });
    assert_eq!(
        stream.system_call_at(&call, at(0)).request,
        Request::Poll {
            events: libc::POLLOUT,
            timeout: -1,
        }
    );
    let call = pending(stream.advance_at(call, READY, at(0)));
    assert_eq!(call.stage, Stage::QueueOutput { index: 0 });
    let system_call = stream.system_call_at(&call, at(0));
    assert_eq!(system_call.fd, 9);
    assert_eq!(
        system_call.request,
        Request::QueueBuffer {
            record: BufferRecord {
                bytesused: 77,
                field: 5,
                ..blank(2)
            },
        }
    );
    let call = pending(stream.advance_at(call, OK, at(0)));
    assert_eq!(call.stage, Stage::Dequeue);
    assert_eq!(
        stream.advance_at(call, dequeued(1, 3), at(0)),
        Progress::Finished(Ok(Outcome::Frame { index: 1 }))
    );
    assert_eq!(stream.frame().0, 1);
}

#[test]
fn failed_output_dequeue_does_not_queue_again() {
    let mut stream = stream(Type::VideoOutput, 2);
    run(&mut stream, Goal::OutputNext, &[OK]);
    let (_, progress) = run(
        &mut stream,
        Goal::OutputNext,
        &[READY, OK, Reply::Dequeued(Err(failure(5)))],
    );
    assert_eq!(progress, Progress::Finished(Err(failure(5))));
    let (stages, progress) = run(&mut stream, Goal::OutputNext, &[dequeued(0, 1)]);
    assert_eq!(stages, vec![Stage::Dequeue]);
    assert_eq!(
        progress,
        Progress::Finished(Ok(Outcome::Frame { index: 0 }))
    );
}

#[test]
fn failed_output_queueing_is_tried_again() {
    let mut stream = stream(Type::VideoOutput, 2);
    let (_, progress) = run(
        &mut stream,
        Goal::OutputNext,
        &[Reply::Ioctl(Err(failure(5)))],
    );
    assert_eq!(progress, Progress::Finished(Err(failure(5))));
    let (stages, _) = run(&mut stream, Goal::OutputNext, &[OK]);
    assert_eq!(stages, vec![Stage::StreamOn]);
    let (_, progress) = run(
        &mut stream,
        Goal::OutputNext,
        &[READY, Reply::Ioctl(Err(failure(5)))],
    );
    assert_eq!(progress, Progress::Finished(Err(failure(5))));
    let (stages, _) = run(&mut stream, Goal::OutputNext, &[]);
    assert_eq!(stages, vec![Stage::PollOutput { index: 0 }]);
}

#[test]
fn failed_start_asks_for_the_start_alone() {
    let mut stream = stream(Type::VideoCapture, 2);
    stream.set_timeout(Duration::from_secs(0));
    let (_, progress) = run(
        &mut stream,
        Goal::CaptureNext,
        &[OK, OK, Reply::Ioctl(Err(interruption()))],
    );
    assert_eq!(progress, timed_out(Ioctl::StreamOn));
    for _ in 0..2 {
        let (stages, progress) = run(
            &mut stream,
            Goal::CaptureNext,
            &[Reply::Ioctl(Err(failure(5)))],
        );
        assert_eq!(stages, vec![Stage::StreamOn]);
        assert_eq!(progress, Progress::Finished(Err(failure(5))));
    }
    let (stages, _) = run(&mut stream, Goal::CaptureNext, &[OK]);
    assert_eq!(stages, vec![Stage::StreamOn, Stage::PollCapture]);
}

#[test]
fn buffers_can_be_queued_in_any_order() {
    let orders = [
        vec![0, 1, 2],
        vec![0, 2, 1],
        vec![1, 0, 2],
        vec![1, 2, 0],
        vec![2, 0, 1],
        vec![2, 1, 0],
        vec![1, 1, 0, 2, 0],
    ];
    for order in orders {
        let mut stream = stream(Type::VideoCapture, 3);
        for index in order {
            run(&mut stream, Goal::CaptureQueue { index }, &[OK]);
        }
        let (stages, _) = run(&mut stream, Goal::CaptureNext, &[]);
        assert_eq!(stages, vec![Stage::StreamOn]);
    }
}

#[test]
fn single_steps_do_one_thing_each() {
    let mut capture = stream(Type::VideoCapture, 2);
    let (stages, progress) = run(&mut capture, Goal::Start, &[OK]);
    assert_eq!(stages, vec![Stage::StreamOn]);
    assert_eq!(progress, Progress::Finished(Ok(Outcome::Completed)));
    let (stages, progress) = run(&mut capture, Goal::CaptureDequeue, &[READY, dequeued(1, 1)]);
    assert_eq!(stages, vec![Stage::PollCapture, Stage::Dequeue]);
    assert_eq!(
        progress,
        Progress::Finished(Ok(Outcome::Dequeued { index: 1 }))
    );
    let mut output = stream(Type::VideoOutput, 2);
    let (stages, progress) = run(&mut output, Goal::OutputQueue { index: 1 }, &[READY, OK]);
    assert_eq!(
        stages,
        vec![
            Stage::PollOutput { index: 1 },
            Stage::QueueOutput { index: 1 },
        ]
    );
    assert_eq!(progress, Progress::Finished(Ok(Outcome::Completed)));
    let (stages, progress) = run(&mut output, Goal::OutputDequeue, &[dequeued(1, 1)]);
    assert_eq!(stages, vec![Stage::Dequeue]);
    assert_eq!(
        progress,
        Progress::Finished(Ok(Outcome::Dequeued { index: 1 }))
    );
}

#[test]
fn stop_lets_go_of_all_buffers() {
    let mut stream = started_capture();
    run(&mut stream, Goal::CaptureNext, &[OK, READY, dequeued(1, 2)]);
    let (stages, progress) = run(&mut stream, Goal::Stop, &[OK]);
    assert_eq!(stages, vec![Stage::StreamOff]);
    assert_eq!(progress, Progress::Finished(Ok(Outcome::Completed)));
    assert_eq!(stream.frame().0, 0);
    assert_eq!(stream.frame().1.sequence, 1);
    let (stages, _) = run(&mut stream, Goal::CaptureNext, &[OK, OK]);
    assert_eq!(
        stages,
        vec![queue_capture(0), queue_capture(1), Stage::StreamOn]
    );
}

#[test]
fn failed_stop_changes_nothing() {
    let mut stream = started_capture();
    let (_, progress) = run(&mut stream, Goal::Stop, &[Reply::Ioctl(Err(failure(5)))]);
    assert_eq!(progress, Progress::Finished(Err(failure(5))));
    let (stages, _) = run(&mut stream, Goal::CaptureNext, &[]);
    assert_eq!(stages, vec![queue_capture(0)]);
}

#[test]
fn interruption_is_retried_until_the_deadline() {
    let interrupted = Reply::Ioctl(Err(interruption()));
    let mut stream = stream(Type::VideoCapture, 2);
    stream.set_timeout(Duration::from_millis(20));
    let call = stream.begin_at(Goal::CaptureNext, at(1_000_000));
    assert_eq!(call.deadline.expires_at, Some(at(21_000_000)));
    let retried = stream.advance_at(call, interrupted, at(20_999_999));
    assert_eq!(retried, Progress::Pending(call));
    let late = stream.advance_at(call, interrupted, at(21_000_000));
    assert_eq!(late, timed_out(Ioctl::QueueBuffer));
    // Success counts even when it comes late.
    let call = pending(stream.advance_at(call, OK, at(90_000_000)));
    assert_eq!(call.stage, queue_capture(1));
}

#[test]
fn each_request_runs_out_of_time_under_its_name() {
    let mut stream = stream(Type::VideoCapture, 2);
    stream.set_timeout(Duration::from_secs(0));
    let interrupted = Reply::Ioctl(Err(interruption()));
    let cases = [
        (Goal::Start, interrupted, Ioctl::StreamOn, "VIDIOC_STREAMON"),
        (Goal::Stop, interrupted, Ioctl::StreamOff, "VIDIOC_STREAMOFF"),
        (
            Goal::CaptureQueue { index: 0 },
            interrupted,
            Ioctl::QueueBuffer,
            "VIDIOC_QBUF",
        ),
        (
            Goal::CaptureDequeue,
            Reply::Polled(Err(interruption())),
            Ioctl::DequeueBuffer,
            "VIDIOC_DQBUF",
        ),
        (
            Goal::OutputQueue { index: 0 },
            NOTHING,
            Ioctl::QueueBuffer,
            "VIDIOC_QBUF",
        ),
        (
            Goal::OutputDequeue,
            Reply::Dequeued(Err(interruption())),
            Ioctl::DequeueBuffer,
            "VIDIOC_DQBUF",
        ),
    ];
    for (goal, reply, ioctl, name) in cases {
        let (_, progress) = run(&mut stream, goal, &[reply]);
        assert_eq!(progress, timed_out(ioctl));
        assert_eq!(ioctl.name(), name);
    }
}

#[test]
fn without_a_timeout_interruptions_are_always_retried() {
    let mut stream = stream(Type::VideoCapture, 2);
    stream.set_timeout(Duration::from_millis(1));
    stream.clear_timeout();
    let call = stream.begin_at(Goal::CaptureDequeue, at(0));
    assert_eq!(call.deadline.expires_at, None);
    assert_eq!(
        stream.system_call_at(&call, at(5)).request,
        Request::Poll {
            events: libc::POLLIN,
            timeout: -1,
        }
    );
    let reply = Reply::Polled(Err(interruption()));
    assert_eq!(
        stream.advance_at(call, reply, at(u128::MAX)),
        Progress::Pending(call)
    );
}

#[test]
fn each_wait_gets_what_is_left_of_the_time() {
    let mut stream = stream(Type::VideoCapture, 2);
    stream.set_timeout(Duration::from_secs(1));
    let call = stream.begin_at(Goal::CaptureDequeue, at(0));
    for (now, left) in [(0, 1000), (250_000_000, 750), (2_000_000_000, 0)] {
        assert_eq!(
            stream.system_call_at(&call, at(now)).request,
            Request::Poll {
                events: libc::POLLIN,
                timeout: left,
            }
        );
    }
}

#[test]
fn timeout_is_cut_to_whole_milliseconds() {
    let mut stream = stream(Type::VideoCapture, 2);
    stream.set_timeout(Duration::from_nanos(3_999_999));
    let call = stream.begin_at(Goal::Start, at(0));
    assert_eq!(call.deadline.expires_at, Some(at(3_000_000)));
    stream.set_timeout(Duration::from_millis(i32::MAX as u64));
    let call = stream.begin_at(Goal::Start, at(0));
    assert_eq!(
        call.deadline.expires_at,
        Some(at(2_147_483_647_000_000))
    );
}

#[test]
fn requests_carry_the_buffer_type() {
    let types = [
        (Type::VideoCapture, 1),
        (Type::VideoOutput, 2),
        (Type::VideoOverlay, 3),
        (Type::VbiCapture, 4),
        (Type::VbiOutput, 5),
        (Type::SlicedVbiCapture, 6),
        (Type::SlicedVbiOutput, 7),
        (Type::VideoOutputOverlay, 8),
        (Type::VideoCaptureMplane, 9),
        (Type::VideoOutputMplane, 10),
        (Type::SdrCapture, 11),
        (Type::SdrOutput, 12),
        (Type::MetaCapture, 13),
        (Type::MetaOutput, 14),
        (Type::Private, 0x80),
    ];
    for (buf_type, type_) in types {
        let stream = stream(buf_type, 2);
        let request = |goal| {
            let call = stream.begin_at(goal, at(0));
            stream.system_call_at(&call, at(0)).request
        };
        assert_eq!(request(Goal::Start), Request::StreamOn { type_ });
        assert_eq!(request(Goal::Stop), Request::StreamOff { type_ });
        assert_eq!(
            request(Goal::CaptureQueue { index: 1 }),
            Request::QueueBuffer {
                record: BufferRecord {
                    index: 1,
                    ..blank(type_)
                },
            }
        );
        assert_eq!(
            request(Goal::OutputDequeue),
            Request::DequeueBuffer {
                record: blank(type_),
            }
        );
    }
}

#[test]
fn impossible_calls_and_replies_are_told() {
    let mut stream = stream(Type::VideoCapture, 2);
    assert!(!stream.can_begin(Goal::OutputQueue { index: 2 }));
    assert!(stream.can_begin(Goal::CaptureQueue { index: 2 }));
    let call = stream.begin_at(Goal::CaptureQueue { index: 2 }, at(0));
    assert!(!stream.can_take(&call, &OK));
    assert!(!stream.can_take(&call, &READY));
    let refused = Reply::Ioctl(Err(failure(22)));
    assert!(stream.can_take(&call, &refused));
    assert_eq!(
        stream.advance_at(call, refused, at(0)),
        Progress::Finished(Err(failure(22)))
    );
    let call = stream.begin_at(Goal::OutputDequeue, at(0));
    assert!(stream.can_take(&call, &dequeued(1, 0)));
    assert!(!stream.can_take(&call, &dequeued(2, 0)));
}

#[test]
fn started_stream_without_buffers_has_no_next_frame() {
    let mut stream = stream(Type::VideoCapture, 0);
    assert!(stream.can_begin(Goal::CaptureNext));
    let (stages, progress) = run(&mut stream, Goal::CaptureNext, &[OK, NOTHING]);
    assert_eq!(stages, vec![Stage::StreamOn, Stage::PollCapture]);
    assert_eq!(progress, timed_out(Ioctl::DequeueBuffer));
    assert!(!stream.can_begin(Goal::CaptureNext));
    assert!(!stream.can_begin(Goal::OutputNext));
}

#[test]
fn vanished_device_is_no_failure_of_the_last_stop() {
    assert_eq!(Stream::drop_failure(Ok(Outcome::Completed)), None);
    assert_eq!(Stream::drop_failure(Err(failure(19))), None);
    assert_eq!(Stream::drop_failure(Err(failure(5))), Some(failure(5)));
    let late = Error::timed_out(Ioctl::StreamOff);
    assert_eq!(Stream::drop_failure(Err(late)), Some(late));
}

#[test]
fn calls_run_on_the_real_clock() {
    let mut clock = Clock::start();
    let mut stream = stream(Type::VideoCapture, 1);
    stream.set_timeout(Duration::from_secs(3600));
    let call = stream.begin(Goal::CaptureNext, &mut clock);
    assert!(call.deadline.expires_at.expect("deadline").nanos >= 3_600_000_000_000);
    let progress = stream.advance(call, Reply::Ioctl(Err(interruption())), &mut clock);
    assert_eq!(progress, Progress::Pending(call));
    let call = pending(stream.advance(call, OK, &mut clock));
    let call = pending(stream.advance(call, OK, &mut clock));
    match stream.system_call(&call, &mut clock).request {
        Request::Poll { events, timeout } => {
            assert_eq!(events, libc::POLLIN);
            assert!(0 < timeout && timeout <= 3_600_000);
        }
        request => panic!("unexpected request: {request:?}"),
    }
    let call = pending(stream.advance(call, READY, &mut clock));
    assert_eq!(
        stream.advance(call, dequeued(0, 8), &mut clock),
        Progress::Finished(Ok(Outcome::Frame { index: 0 }))
    );
    stream.set_timeout(Duration::from_secs(0));
    let call = stream.begin(Goal::Stop, &mut clock);
    assert_eq!(
        stream.advance(call, Reply::Ioctl(Err(interruption())), &mut clock),
        timed_out(Ioctl::StreamOff)
    );
}
