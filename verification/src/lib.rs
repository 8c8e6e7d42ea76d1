//! Verified core of the V4L2 buffer-export operation (the `VIDIOC_EXPBUF`
//! ioctl): building the request record the driver expects and translating
//! the transfer's outcome into a typed result.
//!
//! The privileged control transfer itself, and the claim of ownership over
//! the descriptor it returns, are unsafe operations that live outside this
//! verified core; they consume the record built here and hand their outcome
//! back to the translator defined here.

pub mod export;
pub mod flags;
pub mod queue;

pub use export::ExpbufError;
pub use export::ExportRequest;
pub use export::export_with_outcome;
pub use export::translate_outcome;
pub use flags::ExpbufFlags;
pub use queue::QueueType;
