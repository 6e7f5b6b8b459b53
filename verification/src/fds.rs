//! The streams that a child's output is read from.
use bytes::BytesMut;
use std::io;
use std::sync::Arc;
use vstd::prelude::*;
use crate::buffer::{bytes_mut_contents, bytes_mut_start};
use crate::errors::{ChildFdError, Stream};
use crate::fused::{fill_buf_opt, is_done_opt, FusedBufReader, CHUNK_SIZE};
use crate::model::{can_fill, empty_output, fill, read_view, EventView, FdsView};
use crate::output::ChildOutputMut;

verus! {

/// What to wait for next.
#[derive(Clone, Copy, Debug, PartialEq, Eq, Structural)]
pub enum NextRead {
    /// Whichever comes first of a read of standard output and a read of standard
    /// error, of those that are asked for. At least one is.
    Split {
        /// Whether to read standard output.
        stdout: bool,
        /// Whether to read standard error.
        stderr: bool,
    },
    /// A read of the combined stream.
    Combined,
    /// Nothing: every stream has ended.
    Idle,
}

impl NextRead {
    /// Whether `event` can come of waiting for this.
    pub open spec fn answered_by(self, event: EventView) -> bool {
        match (self, event) {
            (NextRead::Split { stdout, .. }, EventView::Read { stream: Stream::Stdout, .. }) =>
                stdout,
            (NextRead::Split { stderr, .. }, EventView::Read { stream: Stream::Stderr, .. }) =>
                stderr,
            (NextRead::Combined, EventView::Read { stream: Stream::Combined, .. }) => true,
            (NextRead::Idle, EventView::Idle) => true,
            _ => false,
        }
    }
}

/// What came of waiting.
pub enum ReadEvent<'a> {
    /// A read of `stream` finished.
    Read {
        /// The stream that was read.
        stream: Stream,
        /// The bytes that the reader's buffer holds (none at the end of the
        /// stream), or the error that reading brought.
        res: Result<&'a [u8], io::Error>,
    },
    /// There was nothing to wait for.
    Idle,
}

impl<'a> View for ReadEvent<'a> {
    type V = EventView;

    open spec fn view(&self) -> EventView {
        match self {
            ReadEvent::Read { stream, res } => EventView::Read {
                stream: *stream,
                read: read_view(*res),
            },
            ReadEvent::Idle => EventView::Idle,
        }
    }
}

/// The readers of the child's output. `O`, `E` and `C` are the buffered readers
/// of standard output, of standard error, and of both combined.
pub enum ChildFds<O, E, C> {
    /// Separate standard output and standard error, or they're not captured.
    Split {
        /// Standard output.
        stdout: Option<FusedBufReader<O>>,
        /// Standard error.
        stderr: Option<FusedBufReader<E>>,
    },
    /// Combined standard output and standard error.
    Combined {
        /// The combined stream.
        combined: FusedBufReader<C>,
    },
}

/// Whether a reader that may be missing is done.
pub open spec fn done_view<R>(reader: Option<FusedBufReader<R>>) -> Option<bool> {
    match reader {
        Some(reader) => Some(reader.done()),
        None => None,
    }
}

/// The reader in a [`FusedBufReader`] that may be missing.
pub open spec fn reader_view<R>(reader: Option<FusedBufReader<R>>) -> Option<R> {
    match reader {
        Some(reader) => Some(reader.reader()),
        None => None,
    }
}

/// What taking in a read does to a reader that is open and to its buffer: the
/// bytes of the read go behind those in the buffer, and no bytes, or an error, make
/// the reader done.
pub open spec fn collects<R>(
    reader: FusedBufReader<R>,
    buf: BytesMut,
    res: Result<&[u8], io::Error>,
    new_reader: FusedBufReader<R>,
    new_buf: BytesMut,
) -> bool {
    &&& new_reader.reader() == reader.reader()
    &&& match res {
        Ok(bytes) => {
            &&& bytes_mut_contents(new_buf) == bytes_mut_contents(buf) + bytes@
            &&& new_reader.done() <==> bytes@.len() == 0
        },
        Err(_) => new_buf == buf && new_reader.done(),
    }
}

/// What an event does to the readers and to the buffers: the stream that was read
/// collects, and everything else stays as it is.
pub open spec fn fills<O, E, C>(
    fds: ChildFds<O, E, C>,
    acc: ChildOutputMut,
    event: ReadEvent<'_>,
    new_fds: ChildFds<O, E, C>,
    new_acc: ChildOutputMut,
) -> bool {
    match event {
        ReadEvent::Read { stream: Stream::Stdout, res } => {
            &&& new_fds is Split && new_acc is Split
            &&& new_fds->stdout is Some && new_acc->stdout is Some
            &&& collects(fds->stdout->0, acc->stdout->0, res, new_fds->stdout->0, new_acc->stdout->0)
            &&& new_fds->stderr == fds->stderr && new_acc->stderr == acc->stderr
        },
        ReadEvent::Read { stream: Stream::Stderr, res } => {
            &&& new_fds is Split && new_acc is Split
            &&& new_fds->stderr is Some && new_acc->stderr is Some
            &&& collects(fds->stderr->0, acc->stderr->0, res, new_fds->stderr->0, new_acc->stderr->0)
            &&& new_fds->stdout == fds->stdout && new_acc->stdout == acc->stdout
        },
        ReadEvent::Read { stream: Stream::Combined, res } => {
            &&& new_fds is Combined && new_acc is Combined
            &&& collects(
                fds->combined,
                acc->Combined_0,
                res,
                new_fds->combined,
                new_acc->Combined_0,
            )
        },
        ReadEvent::Idle => new_fds == fds && new_acc == acc,
    }
}

impl<O, E, C> View for ChildFds<O, E, C> {
    type V = FdsView;

    open spec fn view(&self) -> FdsView {
        match self {
            ChildFds::Split { stdout, stderr } => FdsView::Split {
                stdout: done_view(*stdout),
                stderr: done_view(*stderr),
            },
            ChildFds::Combined { combined } => FdsView::Combined { combined: combined.done() },
        }
    }
}

impl<O, E, C> ChildFds<O, E, C> {
    /// The readers of separate standard output and standard error.
    pub open spec fn split_readers(&self) -> (Option<O>, Option<E>) {
        match self {
            ChildFds::Split { stdout, stderr } => (reader_view(*stdout), reader_view(*stderr)),
            ChildFds::Combined { .. } => (None, None),
        }
    }

    /// The reader of the combined stream.
    pub open spec fn combined_reader(&self) -> Option<C> {
        match self {
            ChildFds::Split { .. } => None,
            ChildFds::Combined { combined } => Some(combined.reader()),
        }
    }

    /// Reads standard output and standard error separately; one that is `None`
    /// is not captured.
    pub fn new_split(stdout: Option<O>, stderr: Option<E>) -> (fds: Self)
        ensures
            fds@ == (FdsView::Split {
                stdout: if stdout is Some { Some(false) } else { None },
                stderr: if stderr is Some { Some(false) } else { None },
            }),
            fds.split_readers() == (stdout, stderr),
            fds.combined_reader() is None,
            match fds {
                ChildFds::Split { stdout: out, stderr: err } => {
                    &&& out is Some <==> stdout is Some
                    &&& stdout is Some ==> out->0.reader() == stdout->0 && !out->0.done()
                    &&& err is Some <==> stderr is Some
                    &&& stderr is Some ==> err->0.reader() == stderr->0 && !err->0.done()
                },
                ChildFds::Combined { .. } => false,
            },
    {
        ChildFds::Split {
            stdout: match stdout {
                Some(stdout) => Some(FusedBufReader::new(stdout)),
                None => None,
            },
            stderr: match stderr {
                Some(stderr) => Some(FusedBufReader::new(stderr)),
                None => None,
            },
        }
    }

    /// Reads standard output and standard error from one stream.
    pub fn new_combined(rx: C) -> (fds: Self)
        ensures
            fds@ == (FdsView::Combined { combined: false }),
            fds.combined_reader() == Some(rx),
            fds.split_readers() == (None::<O>, None::<E>),
            match fds {
                ChildFds::Split { .. } => false,
                ChildFds::Combined { combined } => combined.reader() == rx && !combined.done(),
            },
    {
        ChildFds::Combined { combined: FusedBufReader::new(rx) }
    }

    /// Whether every stream has ended.
    pub fn is_done(&self) -> (done: bool)
        ensures
            done == self@.is_done(),
            done == match *self {
                ChildFds::Split { stdout, stderr } => {
                    &&& stdout is Some ==> stdout->0.done()
                    &&& stderr is Some ==> stderr->0.done()
                },
                ChildFds::Combined { combined } => combined.done(),
            },
    {
        let done = match self {
            ChildFds::Split { stdout, stderr } => {
                is_done_opt(stdout.as_ref()) && is_done_opt(stderr.as_ref())
            },
            ChildFds::Combined { combined } => combined.is_done(),
        };
        proof {
            if !done {
                assert(self@.is_open(Stream::Stdout) || self@.is_open(Stream::Stderr)
                    || self@.is_open(Stream::Combined));
            }
        }
        done
    }

    /// Makes an empty [`ChildOutputMut`] with the appropriate buffers for these
    /// readers. Each is allocated for [`CHUNK_SIZE`] bytes; the contract speaks of
    /// what the buffers hold, not of what they could.
    pub fn make_acc(&self) -> (acc: ChildOutputMut)
        ensures
            acc.wf(),
            acc@ == empty_output(self@),
            match (*self, acc) {
                (
                    ChildFds::Split { stdout, stderr },
                    ChildOutputMut::Split { stdout: out, stderr: err },
                ) => {
                    &&& out is Some <==> stdout is Some
                    &&& out is Some ==> bytes_mut_contents(out->0).len() == 0 && bytes_mut_start(
                        out->0,
                    ) == 0
                    &&& err is Some <==> stderr is Some
                    &&& err is Some ==> bytes_mut_contents(err->0).len() == 0 && bytes_mut_start(
                        err->0,
                    ) == 0
                },
                (ChildFds::Combined { .. }, ChildOutputMut::Combined(combined)) => {
                    &&& bytes_mut_contents(combined).len() == 0
                    &&& bytes_mut_start(combined) == 0
                },
                _ => false,
            },
    {
        match self {
            ChildFds::Split { stdout, stderr } => ChildOutputMut::Split {
                stdout: make_buf_opt(stdout.is_some()),
                stderr: make_buf_opt(stderr.is_some()),
            },
            ChildFds::Combined { .. } => ChildOutputMut::Combined(
                BytesMut::with_capacity(CHUNK_SIZE),
            ),
        }
    }

    /// What to wait for next: a read of each stream that has not ended.
    pub fn next_read(&self) -> (next: NextRead)
        ensures
            next == (if self@.is_done() {
                NextRead::Idle
            } else {
                match self@ {
                    FdsView::Split { .. } => NextRead::Split {
                        stdout: self@.is_open(Stream::Stdout),
                        stderr: self@.is_open(Stream::Stderr),
                    },
                    FdsView::Combined { .. } => NextRead::Combined,
                }
            }),
            forall|event: EventView| #[trigger]
                next.answered_by(event) <==> self@.admits(event),
            match *self {
                ChildFds::Split { stdout, stderr } => {
                    let out = stdout is Some && !stdout->0.done();
                    let err = stderr is Some && !stderr->0.done();
                    &&& (out || err) ==> next == (NextRead::Split { stdout: out, stderr: err })
                    &&& !(out || err) ==> next == NextRead::Idle
                },
                ChildFds::Combined { combined } => {
                    &&& !combined.done() ==> next == NextRead::Combined
                    &&& combined.done() ==> next == NextRead::Idle
                },
            },
    {
        if self.is_done() {
            return NextRead::Idle;
        }
        match self {
            ChildFds::Split { stdout, stderr } => NextRead::Split {
                stdout: !is_done_opt(stdout.as_ref()),
                stderr: !is_done_opt(stderr.as_ref()),
            },
            ChildFds::Combined { .. } => NextRead::Combined,
        }
    }

    /// Fills one of the buffers in `acc` with what a read of the child's output
    /// brought.
    ///
    /// This is a single step in the process of collecting the output of a child
    /// process. `event` is what came of waiting for [`Self::next_read`]; nothing
    /// is changed before it has come, so the waiting can be given up and taken up
    /// again.
    ///
    /// Returns how many bytes were taken out of the buffer of the reader, for the
    /// caller to consume.
    pub fn fill_buf(&mut self, acc: &mut ChildOutputMut, event: ReadEvent<'_>) -> (taken: Result<
        usize,
        ChildFdError,
    >)
        requires
            can_fill(old(self)@, old(acc)@),
            old(self)@.admits(event@),
            old(acc).room_for(event@),
        ensures
            (final(self)@, final(acc)@) == fill(old(self)@, old(acc)@, event@),
            old(acc).wf() ==> final(acc).wf(),
            final(self).split_readers() == old(self).split_readers(),
            final(self).combined_reader() == old(self).combined_reader(),
            match event@.error() {
                Some(error) => taken is Err && taken->Err_0@ == error,
                None => taken == Ok::<usize, ChildFdError>(event@.taken() as usize),
            },
            fills(*old(self), *old(acc), event, *final(self), *final(acc)),
            match event {
                ReadEvent::Read { stream, res: Ok(buf) } => taken is Ok && taken->Ok_0
                    == buf@.len(),
                ReadEvent::Read { stream, res: Err(error) } => taken == Err::<usize, ChildFdError>(
                    match stream {
                        Stream::Stdout => ChildFdError::ReadStdout(Arc::new(error)),
                        Stream::Stderr => ChildFdError::ReadStderr(Arc::new(error)),
                        Stream::Combined => ChildFdError::ReadCombined(Arc::new(error)),
                    },
                ),
                ReadEvent::Idle => taken == Ok::<usize, ChildFdError>(0),
            },
    {
        let (stream, res) = match event {
            ReadEvent::Read { stream, res } => (stream, res),
            ReadEvent::Idle => {
                return Ok(0);
            },
        };
        let taken = match self {
            ChildFds::Split { stdout, stderr } => {
                let (stdout_acc, stderr_acc) = acc.as_split_mut();
                match stream {
                    Stream::Stdout => fill_buf_opt(stdout.as_mut(), stdout_acc, res),
                    Stream::Stderr => fill_buf_opt(stderr.as_mut(), stderr_acc, res),
                    Stream::Combined => vstd::pervasive::unreached(),
                }
            },
            ChildFds::Combined { combined } => combined.fill_buf(acc.as_combined_mut(), res),
        };
        match taken {
            Ok(taken) => Ok(taken),
            Err(error) => Err(ChildFdError::new(stream, error)),
        }
    }
}

/// An empty buffer, if one is wanted.
fn make_buf_opt(wanted: bool) -> (buf: Option<BytesMut>)
    ensures
        buf is Some <==> wanted,
        buf matches Some(buf) ==> bytes_mut_contents(buf) == Seq::<u8>::empty()
            && bytes_mut_start(buf) == 0,
{
    if wanted {
        Some(BytesMut::with_capacity(CHUNK_SIZE))
    } else {
        None
    }
}

} // verus!
