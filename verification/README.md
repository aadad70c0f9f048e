# v4l_stream

The control logic of a memory-mapped Video4Linux stream, verified with Verus.

A stream shares a set of mapped buffers with the driver. It has to know which
buffers the driver has, survive signals that cut system calls short, keep to a
deadline, and take up a start or a wait that failed half way. `src/` holds that
logic. It makes no system call itself: a call on a stream says which system
call comes next, and goes on with the reply.

- `time`, `deadline`: points in time, the monotonic clock, the deadline of a call
- `device`, `buffer`, `error`, `poll`: what the driver is told and what it reports
- `call`: calls, the system calls that they ask for, and the replies
- `model`: the state of a stream and how replies change it
- `stream`: the stream itself
- `laws`: what holds over any number of calls

`app/` makes the system calls: it opens devices, maps buffers and runs the calls
of a stream to their end.
