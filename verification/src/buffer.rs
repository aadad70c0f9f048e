//! Buffers as the driver describes them.

use vstd::prelude::*;

verus! {

/// The memory code of a buffer that is mapped into the process.
pub const MEMORY_MMAP: u32 = 1;

/// What a buffer carries, and in which direction.
#[derive(Clone, Copy, Debug, PartialEq, Eq, Structural)]
pub enum Type {
    VideoCapture,
    VideoOutput,
    VideoOverlay,
    VbiCapture,
    VbiOutput,
    SlicedVbiCapture,
    SlicedVbiOutput,
    VideoOutputOverlay,
    VideoCaptureMplane,
    VideoOutputMplane,
    SdrCapture,
    SdrOutput,
    MetaCapture,
    MetaOutput,
    Private,
}

impl Type {
    /// The number by which the driver knows this type.
    pub open spec fn spec_code(self) -> u32 {
        match self {
            Type::VideoCapture => 1,
            Type::VideoOutput => 2,
            Type::VideoOverlay => 3,
            Type::VbiCapture => 4,
            Type::VbiOutput => 5,
            Type::SlicedVbiCapture => 6,
            Type::SlicedVbiOutput => 7,
            Type::VideoOutputOverlay => 8,
            Type::VideoCaptureMplane => 9,
            Type::VideoOutputMplane => 10,
            Type::SdrCapture => 11,
            Type::SdrOutput => 12,
            Type::MetaCapture => 13,
            Type::MetaOutput => 14,
            Type::Private => 0x80,
        }
    }

    /// The number by which the driver knows this type.
    pub fn code(self) -> (code: u32)
        ensures
            code == self.spec_code(),
    {
        match self {
            Type::VideoCapture => 1,
            Type::VideoOutput => 2,
            Type::VideoOverlay => 3,
            Type::VbiCapture => 4,
            Type::VbiOutput => 5,
            Type::SlicedVbiCapture => 6,
            Type::SlicedVbiOutput => 7,
            Type::VideoOutputOverlay => 8,
            Type::VideoCaptureMplane => 9,
            Type::VideoOutputMplane => 10,
            Type::SdrCapture => 11,
            Type::SdrOutput => 12,
            Type::MetaCapture => 13,
            Type::MetaOutput => 14,
            Type::Private => 0x80,
        }
    }
}

/// When a frame was taken, as the driver reports it.
#[derive(Clone, Copy, Debug, PartialEq, Eq, Structural)]
pub struct Timestamp {
    pub sec: i64,
    pub usec: i64,
}

/// What is known of the contents of a buffer.
#[derive(Clone, Copy, Debug, PartialEq, Eq, Structural)]
pub struct Metadata {
    /// Bytes of the buffer that are in use.
    pub bytesused: u32,
    /// The driver's flag bits.
    pub flags: u32,
    /// The field order of the frame.
    pub field: u32,
    pub timestamp: Timestamp,
    /// The frame's number in the stream.
    pub sequence: u32,
}

impl Metadata {
    /// The metadata of a buffer that was never filled.
    pub open spec fn blank() -> Metadata {
        Metadata {
            bytesused: 0,
            flags: 0,
            field: 0,
            timestamp: Timestamp { sec: 0, usec: 0 },
            sequence: 0,
        }
    }
}

impl Default for Metadata {
    fn default() -> (metadata: Metadata)
        ensures
            metadata == Metadata::blank(),
    {
        Metadata {
            bytesused: 0,
            flags: 0,
            field: 0,
            timestamp: Timestamp { sec: 0, usec: 0 },
            sequence: 0,
        }
    }
}

/// The part of the driver's buffer record that a stream writes or reads. The
/// rest of the record is zero.
#[derive(Clone, Copy, Debug, PartialEq, Eq, Structural)]
pub struct BufferRecord {
    pub index: u32,
    /// The code of the buffer's [`Type`].
    pub type_: u32,
    pub bytesused: u32,
    pub flags: u32,
    pub field: u32,
    pub timestamp: Timestamp,
    pub sequence: u32,
    /// The code of the buffer's kind of memory.
    pub memory: u32,
}

impl BufferRecord {
    /// The metadata that this record reports.
    pub open spec fn spec_metadata(self) -> Metadata {
        Metadata {
            bytesused: self.bytesused,
            flags: self.flags,
            field: self.field,
            timestamp: self.timestamp,
            sequence: self.sequence,
        }
    }

    /// The metadata that this record reports.
    pub fn metadata(&self) -> (metadata: Metadata)
        ensures
            metadata == self.spec_metadata(),
    {
        Metadata {
            bytesused: self.bytesused,
            flags: self.flags,
            field: self.field,
            timestamp: self.timestamp,
            sequence: self.sequence,
        }
    }
}

} // verus!
