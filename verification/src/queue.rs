//! The queue roles a buffer can belong to, and the code each role has in
//! the driver ABI.

use vstd::prelude::*;

verus! {

/// The logical buffer queue a buffer belongs to. The role is passed through
/// to the driver unvalidated; the driver is the authority on whether a role
/// is legal for a given device.
#[derive(Clone, Copy, Debug, PartialEq, Eq, Structural)]
pub enum QueueType {
    VideoCapture,
    VideoOutput,
    VideoOverlay,
    VbiCapture,
    VbiOutput,
    SlicedVbiCapture,
    SlicedVbiOutput,
    VideoOutputOverlay,
    VideoCaptureMplane,
    VideoOutputMplane,
    SdrCapture,
    SdrOutput,
    MetaCapture,
    MetaOutput,
}

impl QueueType {
    /// The `v4l2_buf_type` code this role has in the driver ABI.
    pub open spec fn spec_code(self) -> u32 {
        match self {
            QueueType::VideoCapture => 1,
            QueueType::VideoOutput => 2,
            QueueType::VideoOverlay => 3,
            QueueType::VbiCapture => 4,
            QueueType::VbiOutput => 5,
            QueueType::SlicedVbiCapture => 6,
            QueueType::SlicedVbiOutput => 7,
            QueueType::VideoOutputOverlay => 8,
            QueueType::VideoCaptureMplane => 9,
            QueueType::VideoOutputMplane => 10,
            QueueType::SdrCapture => 11,
            QueueType::SdrOutput => 12,
            QueueType::MetaCapture => 13,
            QueueType::MetaOutput => 14,
        }
    }

    /// The role's ABI code, as placed in the request record.
    pub fn code(self) -> (r: u32)
        ensures
            r == self.spec_code(),
    {
        match self {
            QueueType::VideoCapture => 1,
            QueueType::VideoOutput => 2,
            QueueType::VideoOverlay => 3,
            QueueType::VbiCapture => 4,
            QueueType::VbiOutput => 5,
            QueueType::SlicedVbiCapture => 6,
            QueueType::SlicedVbiOutput => 7,
            QueueType::VideoOutputOverlay => 8,
            QueueType::VideoCaptureMplane => 9,
            QueueType::VideoOutputMplane => 10,
            QueueType::SdrCapture => 11,
            QueueType::SdrOutput => 12,
            QueueType::MetaCapture => 13,
            QueueType::MetaOutput => 14,
        }
    }
}

} // verus!
