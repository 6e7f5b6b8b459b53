//! The output of a child process: while it is collected, and afterwards.
use bytes::{Bytes, BytesMut};
use vstd::prelude::*;
use crate::buffer::{bytes_contents, bytes_mut_contents, bytes_mut_start, has_room};
use crate::errors::{ErrorList, Stream};
use crate::model::{EventView, OutputView};

verus! {

/// The output of one stream.
pub struct ChildSingleOutput {
    /// The bytes of the stream.
    pub buf: Bytes,
}

impl View for ChildSingleOutput {
    type V = Seq<u8>;

    open spec fn view(&self) -> Seq<u8> {
        bytes_contents(self.buf)
    }
}

impl From<Bytes> for ChildSingleOutput {
    fn from(buf: Bytes) -> (output: Self)
        ensures
            output.buf == buf,
    {
        ChildSingleOutput { buf }
    }
}

impl vstd::std_specs::convert::FromSpecImpl<Bytes> for ChildSingleOutput {
    open spec fn obeys_from_spec() -> bool {
        true
    }

    open spec fn from_spec(buf: Bytes) -> Self {
        ChildSingleOutput { buf }
    }
}

/// Separate standard output and standard error (`None` if not captured).
pub struct ChildSplitOutput {
    /// Standard output.
    pub stdout: Option<ChildSingleOutput>,
    /// Standard error.
    pub stderr: Option<ChildSingleOutput>,
}

/// The output of a child process.
pub enum ChildOutput {
    /// Separate standard output and standard error.
    Split(ChildSplitOutput),
    /// Standard output and standard error on one stream.
    Combined {
        /// The combined output.
        output: ChildSingleOutput,
    },
}

/// The bytes of a stream that may not have been captured.
pub open spec fn single_output_view(output: Option<ChildSingleOutput>) -> Option<Seq<u8>> {
    match output {
        Some(output) => Some(output@),
        None => None,
    }
}

impl View for ChildOutput {
    type V = OutputView;

    open spec fn view(&self) -> OutputView {
        match self {
            ChildOutput::Split(split) => OutputView::Split {
                stdout: single_output_view(split.stdout),
                stderr: single_output_view(split.stderr),
            },
            ChildOutput::Combined { output } => OutputView::Combined { combined: output@ },
        }
    }
}

/// What is known of the execution of a child process. `T` is how the runner
/// describes the result of one that has finished.
pub enum ChildExecutionOutput<T> {
    /// The child was started and its output captured.
    Output {
        /// The result; `None` while the child runs.
        result: Option<T>,
        /// The output.
        output: ChildOutput,
        /// The errors that capturing the output brought.
        errors: ErrorList,
    },
}

/// The output of a child process that's currently being collected.
pub enum ChildOutputMut {
    /// Separate standard output and standard error (`None` if not captured).
    Split {
        /// Standard output.
        stdout: Option<BytesMut>,
        /// Standard error.
        stderr: Option<BytesMut>,
    },
    /// Combined standard output and standard error.
    Combined(BytesMut),
}

/// The bytes in a buffer that may be missing.
pub open spec fn buffer_view(buf: Option<BytesMut>) -> Option<Seq<u8>> {
    match buf {
        Some(buf) => Some(bytes_mut_contents(buf)),
        None => None,
    }
}

impl View for ChildOutputMut {
    type V = OutputView;

    open spec fn view(&self) -> OutputView {
        match self {
            ChildOutputMut::Split { stdout, stderr } => OutputView::Split {
                stdout: buffer_view(*stdout),
                stderr: buffer_view(*stderr),
            },
            ChildOutputMut::Combined(combined) => OutputView::Combined {
                combined: bytes_mut_contents(*combined),
            },
        }
    }
}

impl ChildOutputMut {
    /// The buffer that collects `stream`; `None` if it is not captured.
    pub open spec fn buffer(&self, stream: Stream) -> Option<BytesMut> {
        match (self, stream) {
            (ChildOutputMut::Split { stdout, .. }, Stream::Stdout) => *stdout,
            (ChildOutputMut::Split { stderr, .. }, Stream::Stderr) => *stderr,
            (ChildOutputMut::Combined(combined), Stream::Combined) => Some(*combined),
            _ => None,
        }
    }

    /// Whether each buffer begins at the front of its allocation: no bytes have
    /// been taken off the front of one.
    pub open spec fn wf(&self) -> bool {
        match self {
            ChildOutputMut::Split { stdout, stderr } => {
                &&& stdout matches Some(buf) ==> bytes_mut_start(*buf) == 0
                &&& stderr matches Some(buf) ==> bytes_mut_start(*buf) == 0
            },
            ChildOutputMut::Combined(combined) => bytes_mut_start(*combined) == 0,
        }
    }

    /// Whether the bytes that `event` brings fit into the buffer of its stream.
    pub open spec fn room_for(&self, event: EventView) -> bool {
        match event {
            EventView::Read { stream, .. } => self.buffer(stream) matches Some(buf) ==> has_room(
                buf,
                event.taken(),
            ),
            EventView::Idle => true,
        }
    }

    /// The buffers of separate standard output and standard error.
    pub fn as_split_mut(&mut self) -> (bufs: (Option<&mut BytesMut>, Option<&mut BytesMut>))
        requires
            *old(self) is Split,
        ensures
            *final(self) is Split,
            match old(self)->stdout {
                Some(buf) => bufs.0 is Some && *bufs.0->0 == buf && final(self)->stdout == Some(
                    *final(bufs.0->0),
                ),
                None => bufs.0 is None && final(self)->stdout is None,
            },
            match old(self)->stderr {
                Some(buf) => bufs.1 is Some && *bufs.1->0 == buf && final(self)->stderr == Some(
                    *final(bufs.1->0),
                ),
                None => bufs.1 is None && final(self)->stderr is None,
            },
    {
        match self {
            ChildOutputMut::Split { stdout, stderr } => (stdout.as_mut(), stderr.as_mut()),
            ChildOutputMut::Combined(_) => vstd::pervasive::unreached(),
        }
    }

    /// The buffer of combined standard output and standard error.
    pub fn as_combined_mut(&mut self) -> (buf: &mut BytesMut)
        requires
            *old(self) is Combined,
        ensures
            *buf == old(self)->Combined_0,
            *final(self) == ChildOutputMut::Combined(*final(buf)),
    {
        match self {
            ChildOutputMut::Combined(combined) => combined,
            ChildOutputMut::Split { .. } => vstd::pervasive::unreached(),
        }
    }

    /// Makes a snapshot of the current output.
    ///
    /// This copies the output, so it's more expensive than [`Self::freeze`].
    pub fn snapshot(&self) -> (output: ChildOutput)
        ensures
            output@ == self@,
            match (*self, output) {
                (ChildOutputMut::Split { stdout, stderr }, ChildOutput::Split(split)) => {
                    &&& split.stdout is Some <==> stdout is Some
                    &&& stdout is Some ==> bytes_contents(split.stdout->0.buf)
                        == bytes_mut_contents(stdout->0)
                    &&& split.stderr is Some <==> stderr is Some
                    &&& stderr is Some ==> bytes_contents(split.stderr->0.buf)
                        == bytes_mut_contents(stderr->0)
                },
                (ChildOutputMut::Combined(combined), ChildOutput::Combined { output }) =>
                    bytes_contents(output.buf) == bytes_mut_contents(combined),
                _ => false,
            },
    {
        match self {
            ChildOutputMut::Split { stdout, stderr } => ChildOutput::Split(
                ChildSplitOutput { stdout: snapshot_opt(stdout), stderr: snapshot_opt(stderr) },
            ),
            ChildOutputMut::Combined(combined) => ChildOutput::Combined {
                output: ChildSingleOutput::from(combined.clone().freeze()),
            },
        }
    }

    /// Marks the collection as done, handing over the output.
    pub fn freeze(self) -> (output: ChildOutput)
        ensures
            output@ == self@,
            match (self, output) {
                (ChildOutputMut::Split { stdout, stderr }, ChildOutput::Split(split)) => {
                    &&& split.stdout is Some <==> stdout is Some
                    &&& stdout is Some ==> bytes_contents(split.stdout->0.buf)
                        == bytes_mut_contents(stdout->0)
                    &&& split.stderr is Some <==> stderr is Some
                    &&& stderr is Some ==> bytes_contents(split.stderr->0.buf)
                        == bytes_mut_contents(stderr->0)
                },
                (ChildOutputMut::Combined(combined), ChildOutput::Combined { output }) =>
                    bytes_contents(output.buf) == bytes_mut_contents(combined),
                _ => false,
            },
    {
        match self {
            ChildOutputMut::Split { stdout, stderr } => ChildOutput::Split(
                ChildSplitOutput { stdout: freeze_opt(stdout), stderr: freeze_opt(stderr) },
            ),
            ChildOutputMut::Combined(combined) => ChildOutput::Combined {
                output: ChildSingleOutput::from(combined.freeze()),
            },
        }
    }

    /// Returns the lengths of standard output and standard error in bytes.
    ///
    /// Returns `None` for each stream that wasn't captured. The length of a
    /// combined stream stands in the place of standard output.
    pub fn stdout_stderr_len(&self) -> (lens: (Option<u64>, Option<u64>))
        ensures
            match self@ {
                OutputView::Split { stdout, stderr } => {
                    &&& match stdout {
                        Some(bytes) => lens.0 is Some && lens.0->0 == bytes.len(),
                        None => lens.0 is None,
                    }
                    &&& match stderr {
                        Some(bytes) => lens.1 is Some && lens.1->0 == bytes.len(),
                        None => lens.1 is None,
                    }
                },
                OutputView::Combined { combined } => {
                    &&& lens.0 is Some && lens.0->0 == combined.len()
                    &&& lens.1 is None
                },
            },
            match *self {
                ChildOutputMut::Split { stdout, stderr } => {
                    &&& lens.0 is Some <==> stdout is Some
                    &&& stdout is Some ==> lens.0->0 == bytes_mut_contents(stdout->0).len()
                    &&& lens.1 is Some <==> stderr is Some
                    &&& stderr is Some ==> lens.1->0 == bytes_mut_contents(stderr->0).len()
                },
                ChildOutputMut::Combined(combined) => {
                    &&& lens.0 is Some && lens.0->0 == bytes_mut_contents(combined).len()
                    &&& lens.1 is None
                },
            },
    {
        match self {
            ChildOutputMut::Split { stdout, stderr } => (len_opt(stdout), len_opt(stderr)),
            ChildOutputMut::Combined(combined) => (Some(combined.len() as u64), None),
        }
    }
}

/// A copy of the bytes in a buffer that may be missing.
fn snapshot_opt(buf: &Option<BytesMut>) -> (output: Option<ChildSingleOutput>)
    ensures
        single_output_view(output) == buffer_view(*buf),
{
    match buf {
        Some(buf) => Some(ChildSingleOutput::from(buf.clone().freeze())),
        None => None,
    }
}

/// The bytes in a buffer that may be missing.
fn freeze_opt(buf: Option<BytesMut>) -> (output: Option<ChildSingleOutput>)
    ensures
        single_output_view(output) == buffer_view(buf),
{
    match buf {
        Some(buf) => Some(ChildSingleOutput::from(buf.freeze())),
        None => None,
    }
}

/// How many bytes are in a buffer that may be missing.
fn len_opt(buf: &Option<BytesMut>) -> (len: Option<u64>)
    ensures
        match buffer_view(*buf) {
            Some(bytes) => len is Some && len->0 == bytes.len(),
            None => len is None,
        },
{
    match buf {
        Some(buf) => Some(buf.len() as u64),
        None => None,
    }
}

} // verus!
