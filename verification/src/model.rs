//! The mathematical model of a capture: streams, the reads that feed them, and
//! what each read does.
use std::io;
use vstd::prelude::*;
use crate::errors::{FdErrorView, Stream};

verus! {

/// What one read of a stream brought: the bytes that were available, none at the
/// end of the stream, or an error.
pub type ReadView = Result<Seq<u8>, io::Error>;

/// The model of the outcome of a read.
pub open spec fn read_view(res: Result<&[u8], io::Error>) -> ReadView {
    match res {
        Ok(buf) => Ok(buf@),
        Err(error) => Err(error),
    }
}

/// Whether a read is the last of its stream: the end of the stream, or an error.
pub open spec fn is_last(read: ReadView) -> bool {
    match read {
        Ok(chunk) => chunk.len() == 0,
        Err(_) => true,
    }
}

/// The bytes that a read brought; none if it failed.
pub open spec fn chunk(read: ReadView) -> Seq<u8> {
    match read {
        Ok(chunk) => chunk,
        Err(_) => Seq::empty(),
    }
}

/// All the bytes that `reads` brought, in order.
pub open spec fn concat(reads: Seq<ReadView>) -> Seq<u8>
    decreases reads.len(),
{
    if reads.len() == 0 {
        Seq::empty()
    } else {
        concat(reads.drop_last()) + chunk(reads.last())
    }
}

/// Whether `reads` is a stream from its start to its last read, with `bytes` in
/// it. They come in pieces of any size but zero.
pub open spec fn is_whole(reads: Seq<ReadView>, bytes: Seq<u8>) -> bool {
    &&& reads.len() > 0
    &&& is_last(reads.last())
    &&& forall|i: int| 0 <= i < reads.len() - 1 ==> !is_last(#[trigger] reads[i])
    &&& bytes == concat(reads)
}

/// Whether `reads` deliver `bytes` and then the end of the stream.
pub open spec fn delivers(reads: Seq<ReadView>, bytes: Seq<u8>) -> bool {
    is_whole(reads, bytes) && reads.last() is Ok
}

/// Whether `reads` deliver `bytes` and then `error`.
pub open spec fn fails(reads: Seq<ReadView>, bytes: Seq<u8>, error: io::Error) -> bool {
    is_whole(reads, bytes) && reads.last() == Err::<Seq<u8>, io::Error>(error)
}

/// The model of what taking in a read returns: how many bytes were taken, or the
/// error.
pub open spec fn taken_view(taken: Result<usize, io::Error>) -> Result<nat, io::Error> {
    match taken {
        Ok(taken) => Ok(taken as nat),
        Err(error) => Err(error),
    }
}

/// The bytes of all the reads before the first one that is the last of its
/// stream.
pub open spec fn payload(reads: Seq<ReadView>) -> Seq<u8>
    decreases reads.len(),
{
    if reads.len() == 0 || is_last(reads[0]) {
        Seq::empty()
    } else {
        reads[0]->Ok_0 + payload(reads.drop_first())
    }
}

/// One captured stream: the bytes collected, and whether the stream has ended.
#[verifier::ext_equal]
pub struct StreamView {
    pub bytes: Seq<u8>,
    pub done: bool,
}

impl StreamView {
    /// A stream of which nothing has been read.
    pub open spec fn fresh() -> StreamView {
        StreamView { bytes: Seq::empty(), done: false }
    }

    /// The stream after one more read. A stream that has ended takes no more.
    pub open spec fn step(self, read: ReadView) -> StreamView {
        if self.done {
            self
        } else {
            match read {
                Ok(chunk) => StreamView { bytes: self.bytes + chunk, done: chunk.len() == 0 },
                Err(_) => StreamView { bytes: self.bytes, done: true },
            }
        }
    }

    /// What taking in one more read returns: how many bytes were taken, or the
    /// error. Of a stream that has ended nothing is taken.
    pub open spec fn outcome(self, read: ReadView) -> Result<nat, io::Error> {
        if self.done {
            Ok(0)
        } else {
            match read {
                Ok(chunk) => Ok(chunk.len()),
                Err(error) => Err(error),
            }
        }
    }

    /// What taking in the `i`th of `reads` returns, after those before it.
    pub open spec fn outcome_at(self, reads: Seq<ReadView>, i: int) -> Result<nat, io::Error> {
        self.run(reads.take(i)).outcome(reads[i])
    }

    /// The stream after a series of reads.
    pub open spec fn run(self, reads: Seq<ReadView>) -> StreamView
        decreases reads.len(),
    {
        if reads.len() == 0 {
            self
        } else {
            self.run(reads.drop_last()).step(reads.last())
        }
    }
}

/// What came of waiting for a child's output.
pub enum EventView {
    /// A read of `stream` finished.
    Read { stream: Stream, read: ReadView },
    /// There was nothing left to read.
    Idle,
}

impl EventView {
    /// How many bytes the event takes out of the stream's reader.
    pub open spec fn taken(self) -> nat {
        match self {
            EventView::Read { read: Ok(chunk), .. } => chunk.len(),
            _ => 0,
        }
    }

    /// The error that the event brings, if it brings one.
    pub open spec fn error(self) -> Option<FdErrorView> {
        match self {
            EventView::Read { stream, read: Err(error) } => Some(FdErrorView { stream, error }),
            _ => None,
        }
    }
}

/// Which streams are read, and for each whether it has ended.
pub enum FdsView {
    /// Separate streams; `None` for one that is not captured.
    Split { stdout: Option<bool>, stderr: Option<bool> },
    /// One stream for both.
    Combined { combined: bool },
}

/// What has been collected.
#[verifier::ext_equal]
pub enum OutputView {
    /// Separate streams; `None` for one that is not captured.
    Split { stdout: Option<Seq<u8>>, stderr: Option<Seq<u8>> },
    /// One stream for both.
    Combined { combined: Seq<u8> },
}

impl FdsView {
    /// Whether `stream` is read and has ended; `None` if it is not read.
    pub open spec fn get(self, stream: Stream) -> Option<bool> {
        match (self, stream) {
            (FdsView::Split { stdout, .. }, Stream::Stdout) => stdout,
            (FdsView::Split { stderr, .. }, Stream::Stderr) => stderr,
            (FdsView::Combined { combined }, Stream::Combined) => Some(combined),
            _ => None,
        }
    }

    /// The streams with the state of a `stream` that is read replaced.
    pub open spec fn set(self, stream: Stream, done: bool) -> FdsView {
        match (self, stream) {
            (FdsView::Split { stderr, .. }, Stream::Stdout) => FdsView::Split {
                stdout: Some(done),
                stderr,
            },
            (FdsView::Split { stdout, .. }, Stream::Stderr) => FdsView::Split {
                stdout,
                stderr: Some(done),
            },
            (FdsView::Combined { .. }, Stream::Combined) => FdsView::Combined { combined: done },
            _ => self,
        }
    }

    /// Whether there is more to read on `stream`.
    pub open spec fn is_open(self, stream: Stream) -> bool {
        self.get(stream) == Some(false)
    }

    /// Whether every stream that is read has ended.
    pub open spec fn is_done(self) -> bool {
        forall|stream: Stream| !#[trigger] self.is_open(stream)
    }

    /// Whether nothing has been read of any stream.
    pub open spec fn is_fresh(self) -> bool {
        forall|stream: Stream|
            (#[trigger] self.get(stream)) matches Some(done) ==> !done
    }

    /// Whether `event` can come of waiting for these streams: a read of one that
    /// is open or, once none is, nothing.
    pub open spec fn admits(self, event: EventView) -> bool {
        match event {
            EventView::Read { stream, .. } => self.is_open(stream),
            EventView::Idle => self.is_done(),
        }
    }
}

impl OutputView {
    /// The bytes collected of `stream`; `None` if it is not captured.
    pub open spec fn get(self, stream: Stream) -> Option<Seq<u8>> {
        match (self, stream) {
            (OutputView::Split { stdout, .. }, Stream::Stdout) => stdout,
            (OutputView::Split { stderr, .. }, Stream::Stderr) => stderr,
            (OutputView::Combined { combined }, Stream::Combined) => Some(combined),
            _ => None,
        }
    }

    /// The output with the bytes of a captured `stream` replaced.
    pub open spec fn set(self, stream: Stream, bytes: Seq<u8>) -> OutputView {
        match (self, stream) {
            (OutputView::Split { stderr, .. }, Stream::Stdout) => OutputView::Split {
                stdout: Some(bytes),
                stderr,
            },
            (OutputView::Split { stdout, .. }, Stream::Stderr) => OutputView::Split {
                stdout,
                stderr: Some(bytes),
            },
            (OutputView::Combined { .. }, Stream::Combined) => OutputView::Combined {
                combined: bytes,
            },
            _ => self,
        }
    }
}

/// Whether there is a place for the output of every stream that is open, and
/// separate places where the streams are separate.
pub open spec fn can_fill(fds: FdsView, output: OutputView) -> bool {
    &&& fds is Split ==> output is Split
    &&& forall|stream: Stream| #[trigger] fds.is_open(stream) ==> output.get(stream) is Some
}

/// The streams, and what was collected of them, after one event: a read changes
/// the stream it is of, and no other.
pub open spec fn fill(fds: FdsView, output: OutputView, event: EventView) -> (FdsView, OutputView) {
    match event {
        EventView::Read { stream, read } => {
            let before = StreamView { bytes: output.get(stream)->0, done: fds.get(stream)->0 };
            let after = before.step(read);
            (fds.set(stream, after.done), output.set(stream, after.bytes))
        },
        EventView::Idle => (fds, output),
    }
}

/// The streams, and what was collected of them, after a series of events.
pub open spec fn fill_all(fds: FdsView, output: OutputView, events: Seq<EventView>) -> (
    FdsView,
    OutputView,
)
    decreases events.len(),
{
    if events.len() == 0 {
        (fds, output)
    } else {
        let (fds, output) = fill_all(fds, output, events.drop_last());
        fill(fds, output, events.last())
    }
}

/// Whether `events` can come of waiting for the streams `fds`, one after another.
pub open spec fn admits_fills(fds: FdsView, output: OutputView, events: Seq<EventView>) -> bool
    decreases events.len(),
{
    events.len() == 0 || {
        &&& admits_fills(fds, output, events.drop_last())
        &&& fill_all(fds, output, events.drop_last()).0.admits(events.last())
    }
}

/// An empty place for the output of each stream that is read, and of no other.
pub open spec fn empty_output(fds: FdsView) -> OutputView {
    match fds {
        FdsView::Split { stdout, stderr } => OutputView::Split {
            stdout: if stdout is Some { Some(Seq::empty()) } else { None },
            stderr: if stderr is Some { Some(Seq::empty()) } else { None },
        },
        FdsView::Combined { .. } => OutputView::Combined { combined: Seq::empty() },
    }
}

/// Whether there is a place for the output of exactly the streams that are read.
pub open spec fn same_shape(fds: FdsView, output: OutputView) -> bool {
    match (fds, output) {
        (
            FdsView::Split { stdout: stdout_done, stderr: stderr_done },
            OutputView::Split { stdout, stderr },
        ) => (stdout_done is Some <==> stdout is Some) && (stderr_done is Some <==> stderr is Some),
        (FdsView::Combined { .. }, OutputView::Combined { .. }) => true,
        _ => false,
    }
}

/// A whole capture: the streams, each with what was collected of it.
#[verifier::ext_equal]
pub enum CaptureView {
    /// Separate streams; `None` for one that is not captured.
    Split { stdout: Option<StreamView>, stderr: Option<StreamView> },
    /// One stream for both.
    Combined { combined: StreamView },
}

impl CaptureView {
    /// The state of `stream`; `None` if it is not captured.
    pub open spec fn get(self, stream: Stream) -> Option<StreamView> {
        match (self, stream) {
            (CaptureView::Split { stdout, .. }, Stream::Stdout) => stdout,
            (CaptureView::Split { stderr, .. }, Stream::Stderr) => stderr,
            (CaptureView::Combined { combined }, Stream::Combined) => Some(combined),
            _ => None,
        }
    }

    /// The capture with the state of a captured `stream` replaced.
    pub open spec fn set(self, stream: Stream, state: StreamView) -> CaptureView {
        match (self, stream) {
            (CaptureView::Split { stderr, .. }, Stream::Stdout) => CaptureView::Split {
                stdout: Some(state),
                stderr,
            },
            (CaptureView::Split { stdout, .. }, Stream::Stderr) => CaptureView::Split {
                stdout,
                stderr: Some(state),
            },
            (CaptureView::Combined { .. }, Stream::Combined) => CaptureView::Combined {
                combined: state,
            },
            _ => self,
        }
    }

    /// Whether there is more to read on `stream`.
    pub open spec fn is_open(self, stream: Stream) -> bool {
        self.get(stream) matches Some(state) && !state.done
    }

    /// Whether `stream` is captured and has ended.
    pub open spec fn has_ended(self, stream: Stream) -> bool {
        self.get(stream) matches Some(state) && state.done
    }

    /// Whether every captured stream has ended.
    pub open spec fn is_done(self) -> bool {
        forall|stream: Stream| !#[trigger] self.is_open(stream)
    }

    /// Whether `event` can come of waiting for this capture.
    pub open spec fn admits(self, event: EventView) -> bool {
        match event {
            EventView::Read { stream, .. } => self.is_open(stream),
            EventView::Idle => self.is_done(),
        }
    }

    /// How many bytes have been collected of `stream`.
    pub open spec fn len_of(self, stream: Stream) -> nat {
        match self.get(stream) {
            Some(state) => state.bytes.len(),
            None => 0,
        }
    }

    /// How many bytes have been collected.
    pub open spec fn len(self) -> nat {
        self.len_of(Stream::Stdout) + self.len_of(Stream::Stderr) + self.len_of(Stream::Combined)
    }

    /// The capture after one event: a read changes the stream it is of, and no
    /// other.
    pub open spec fn step(self, event: EventView) -> CaptureView {
        match event {
            EventView::Read { stream, read } => match self.get(stream) {
                Some(state) => self.set(stream, state.step(read)),
                None => self,
            },
            EventView::Idle => self,
        }
    }
}

/// The capture made up of the streams `fds` and what was collected of them.
pub open spec fn capture(fds: FdsView, output: OutputView) -> CaptureView {
    match (fds, output) {
        (FdsView::Combined { combined: done }, OutputView::Combined { combined: bytes }) =>
            CaptureView::Combined { combined: StreamView { bytes, done } },
        _ => CaptureView::Split {
            stdout: stream_state(fds.get(Stream::Stdout), output.get(Stream::Stdout)),
            stderr: stream_state(fds.get(Stream::Stderr), output.get(Stream::Stderr)),
        },
    }
}

/// The state of one stream, where it is both read and collected.
pub open spec fn stream_state(done: Option<bool>, bytes: Option<Seq<u8>>) -> Option<StreamView> {
    match (done, bytes) {
        (Some(done), Some(bytes)) => Some(StreamView { bytes, done }),
        _ => None,
    }
}

/// Where exactly the streams that are read are collected, there is a place for
/// what is open; an event keeps it so, and is a step of the capture.
pub proof fn lemma_fill_is_step(fds: FdsView, output: OutputView, event: EventView)
    requires
        same_shape(fds, output),
    ensures
        can_fill(fds, output),
        fds.is_done() <==> capture(fds, output).is_done(),
        fds.admits(event) <==> capture(fds, output).admits(event),
        fds.admits(event) ==> {
            let (new_fds, new_output) = fill(fds, output, event);
            &&& same_shape(new_fds, new_output)
            &&& capture(new_fds, new_output) == capture(fds, output).step(event)
        },
{
    let whole = capture(fds, output);
    assert forall|stream: Stream| fds.is_open(stream) <==> #[trigger] whole.is_open(stream) by {}
    assert forall|stream: Stream| #[trigger] fds.is_open(stream) <==> whole.is_open(stream) by {}
}

/// The reads of `stream` among `events`, in their order.
pub open spec fn reads_of(events: Seq<EventView>, stream: Stream) -> Seq<ReadView>
    decreases events.len(),
{
    if events.len() == 0 {
        Seq::empty()
    } else {
        let before = reads_of(events.drop_last(), stream);
        match events.last() {
            EventView::Read { stream: s, read } if s == stream => before.push(read),
            _ => before,
        }
    }
}

/// The errors that `events` bring, in their order.
pub open spec fn errors_of(events: Seq<EventView>) -> Seq<FdErrorView>
    decreases events.len(),
{
    if events.len() == 0 {
        Seq::empty()
    } else {
        let before = errors_of(events.drop_last());
        match events.last().error() {
            Some(error) => before.push(error),
            None => before,
        }
    }
}

/// How many bytes `events` take out of the readers.
pub open spec fn taken_of(events: Seq<EventView>) -> nat
    decreases events.len(),
{
    if events.len() == 0 {
        0
    } else {
        taken_of(events.drop_last()) + events.last().taken()
    }
}

/// A capture together with the errors that reading brought, oldest first.
#[verifier::ext_equal]
pub struct AccumulatorView {
    pub capture: CaptureView,
    pub errors: Seq<FdErrorView>,
}

impl AccumulatorView {
    /// The accumulator of the streams `fds` before anything was read.
    pub open spec fn start(fds: FdsView) -> AccumulatorView {
        AccumulatorView { capture: capture(fds, empty_output(fds)), errors: Seq::empty() }
    }

    /// The accumulator after one event: a failed read adds its error.
    pub open spec fn step(self, event: EventView) -> AccumulatorView {
        AccumulatorView {
            capture: self.capture.step(event),
            errors: match event.error() {
                Some(error) => self.errors.push(error),
                None => self.errors,
            },
        }
    }

    /// The accumulator after a series of events.
    pub open spec fn run(self, events: Seq<EventView>) -> AccumulatorView
        decreases events.len(),
    {
        if events.len() == 0 {
            self
        } else {
            self.run(events.drop_last()).step(events.last())
        }
    }

    /// Whether `events` can come of waiting for this capture, one after another.
    pub open spec fn admits_all(self, events: Seq<EventView>) -> bool
        decreases events.len(),
    {
        events.len() == 0 || {
            &&& self.admits_all(events.drop_last())
            &&& self.run(events.drop_last()).capture.admits(events.last())
        }
    }
}

} // verus!
