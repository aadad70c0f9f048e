//! The device that a stream belongs to.

use std::sync::Arc;
use vstd::prelude::*;

verus! {

/// An open device, known by its file descriptor.
#[derive(Clone, Copy, Debug, PartialEq, Eq, Structural)]
pub struct Handle {
    pub fd: i32,
}

/// A capture or output device.
#[derive(Debug)]
pub struct Device {
    handle: Arc<Handle>,
}

impl Device {
    /// The descriptor that the device is open under.
    pub closed spec fn fd(self) -> i32 {
        self.handle.fd
    }

    /// The device that is open under `fd`.
    pub fn new(fd: i32) -> (device: Device)
        ensures
            device.fd() == fd,
    {
        Device { handle: Arc::new(Handle { fd }) }
    }

    /// The raw device handle.
    pub fn handle(&self) -> (handle: Arc<Handle>)
        ensures
            handle.fd == self.fd(),
    {
        self.handle.clone()
    }
}

} // verus!
