//! Capture of a child process's standard output and standard error.
//!
//! The reads themselves are the caller's: it awaits whatever
//! [`ChildFds::next_read`] asks for and hands each outcome to
//! [`ChildAccumulator::fill_buf`], which collects the bytes, marks the streams
//! that have ended and records the errors. What a child is started with, and
//! what its output is read through, is decided in [`spawn`].
pub mod accumulator;
pub mod basics;
pub mod buffer;
pub mod calls;
pub mod errors;
pub mod fds;
pub mod fused;
pub mod laws;
pub mod model;
pub mod output;
pub mod spawn;

pub use accumulator::ChildAccumulator;
pub use errors::{ChildFdError, ErrorList, Stream};
pub use fds::{ChildFds, NextRead, ReadEvent};
pub use fused::{FusedBufReader, CHUNK_SIZE};
pub use output::{
    ChildExecutionOutput, ChildOutput, ChildOutputMut, ChildSingleOutput, ChildSplitOutput,
};
pub use spawn::{CaptureStrategy, Child, Started};
