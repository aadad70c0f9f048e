//! The control logic of a memory-mapped Video4Linux stream.
//!
//! A [`stream::Stream`] keeps track of which buffers the driver has. A call on
//! it asks for one system call after the other and goes on with the replies, so
//! that signals, timeouts and failures leave the stream in a known state.

pub mod buffer;
pub mod call;
pub mod deadline;
pub mod device;
pub mod error;
pub mod exchange;
pub mod history;
pub mod laws;
pub mod model;
pub mod poll;
pub mod stream;
pub mod time;
