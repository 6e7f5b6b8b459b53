//! The accumulator of a child's output.
use std::sync::Arc;
use vstd::prelude::*;
use crate::buffer::{bytes_contents, bytes_mut_contents};
use crate::errors::{ChildFdError, ErrorList, FdErrorView, Stream};
use crate::fds::{fills, ChildFds, ReadEvent};
use crate::model::{
    capture, empty_output, fill, lemma_fill_is_step, same_shape, AccumulatorView,
};
use crate::output::{ChildExecutionOutput, ChildOutput, ChildOutputMut};

verus! {

/// Output and result accumulator for a child process.
pub struct ChildAccumulator<O, E, C> {
    /// The readers of the output.
    pub fds: ChildFds<O, E, C>,
    /// The output collected so far.
    pub output: ChildOutputMut,
    /// The errors that reading brought, oldest first.
    pub errors: Vec<ChildFdError>,
}

/// The model of a series of errors.
pub open spec fn errors_view(errors: Seq<ChildFdError>) -> Seq<FdErrorView> {
    errors.map_values(|error: ChildFdError| error@)
}

impl<O, E, C> View for ChildAccumulator<O, E, C> {
    type V = AccumulatorView;

    open spec fn view(&self) -> AccumulatorView {
        AccumulatorView {
            capture: capture(self.fds@, self.output@),
            errors: errors_view(self.errors@),
        }
    }
}

impl<O, E, C> ChildAccumulator<O, E, C> {
    /// Whether there is a buffer for exactly the streams that are read, each at
    /// the front of its allocation.
    pub open spec fn wf(&self) -> bool {
        &&& same_shape(self.fds@, self.output@)
        &&& self.output.wf()
    }

    /// Starts collecting from `fds`: nothing is collected yet.
    pub fn new(fds: ChildFds<O, E, C>) -> (acc: Self)
        ensures
            acc.wf(),
            acc.fds == fds,
            acc.output@ == empty_output(fds@),
            acc.errors@ == Seq::<ChildFdError>::empty(),
            acc@ == AccumulatorView::start(fds@),
            match (fds, acc.output) {
                (
                    ChildFds::Split { stdout, stderr },
                    ChildOutputMut::Split { stdout: out, stderr: err },
                ) => {
                    &&& out is Some <==> stdout is Some
                    &&& out is Some ==> bytes_mut_contents(out->0).len() == 0
                    &&& err is Some <==> stderr is Some
                    &&& err is Some ==> bytes_mut_contents(err->0).len() == 0
                },
                (ChildFds::Combined { .. }, ChildOutputMut::Combined(combined)) =>
                    bytes_mut_contents(combined).len() == 0,
                _ => false,
            },
    {
        let output = fds.make_acc();
        ChildAccumulator { fds, output, errors: Vec::new() }
    }

    /// Takes in what came of waiting for the readers: bytes go behind those that
    /// were collected of their stream, and an error behind the errors.
    ///
    /// Returns how many bytes were taken out of the buffer of the reader, for the
    /// caller to consume.
    pub fn fill_buf(&mut self, event: ReadEvent<'_>) -> (taken: usize)
        requires
            same_shape(old(self).fds@, old(self).output@),
            old(self).fds@.admits(event@),
            old(self).output.room_for(event@),
        ensures
            same_shape(final(self).fds@, final(self).output@),
            old(self).wf() ==> final(self).wf(),
            final(self)@ == old(self)@.step(event@),
            (final(self).fds@, final(self).output@) == fill(
                old(self).fds@,
                old(self).output@,
                event@,
            ),
            match event@.error() {
                Some(error) => {
                    &&& final(self).errors@.len() == old(self).errors@.len() + 1
                    &&& final(self).errors@.drop_last() == old(self).errors@
                    &&& final(self).errors@.last()@ == error
                },
                None => final(self).errors@ == old(self).errors@,
            },
            final(self).fds.split_readers() == old(self).fds.split_readers(),
            final(self).fds.combined_reader() == old(self).fds.combined_reader(),
            taken == event@.taken(),
            fills(
                old(self).fds,
                old(self).output,
                event,
                final(self).fds,
                final(self).output,
            ),
            match event {
                ReadEvent::Read { stream, res: Ok(buf) } => {
                    &&& taken == buf@.len()
                    &&& final(self).errors@ == old(self).errors@
                },
                ReadEvent::Read { stream, res: Err(error) } => {
                    &&& taken == 0
                    &&& final(self).errors@ == old(self).errors@.push(
                        match stream {
                            Stream::Stdout => ChildFdError::ReadStdout(Arc::new(error)),
                            Stream::Stderr => ChildFdError::ReadStderr(Arc::new(error)),
                            Stream::Combined => ChildFdError::ReadCombined(Arc::new(error)),
                        },
                    )
                },
                ReadEvent::Idle => {
                    &&& taken == 0
                    &&& final(self).errors@ == old(self).errors@
                },
            },
    {
        proof {
            lemma_fill_is_step(self.fds@, self.output@, event@);
        }
        let res = self.fds.fill_buf(&mut self.output, event);
        match res {
            Ok(taken) => taken,
            Err(error) => {
                self.errors.push(error);
                0
            },
        }
    }

    /// What is known of the child while it still runs: no result, a copy of the
    /// output so far, and the errors so far under `error_description`.
    pub fn snapshot_in_progress<T>(
        &self,
        error_description: &'static str,
    ) -> (snapshot: ChildExecutionOutput<T>)
        ensures
            match snapshot {
                ChildExecutionOutput::Output { result, output, errors } => {
                    &&& result is None
                    &&& output@ == self.output@
                    &&& match (self.output, output) {
                        (ChildOutputMut::Split { stdout, stderr }, ChildOutput::Split(split)) => {
                            &&& split.stdout is Some <==> stdout is Some
                            &&& stdout is Some ==> bytes_contents(split.stdout->0.buf)
                                == bytes_mut_contents(stdout->0)
                            &&& split.stderr is Some <==> stderr is Some
                            &&& stderr is Some ==> bytes_contents(split.stderr->0.buf)
                                == bytes_mut_contents(stderr->0)
                        },
                        (
                            ChildOutputMut::Combined(combined),
                            ChildOutput::Combined { output },
                        ) => bytes_contents(output.buf) == bytes_mut_contents(combined),
                        _ => false,
                    }
                    &&& errors.description == error_description
                    &&& errors.errors@ == self.errors@
                },
            },
    {
        let errors = self.errors.clone();
        assert(errors@ =~= self.errors@);
        ChildExecutionOutput::Output {
            result: None,
            output: self.output.snapshot(),
            errors: ErrorList::new(error_description, errors),
        }
    }

    /// Whether the bytes that `event` brings fit into the buffer of its stream.
    pub fn has_room_for(&self, event: &ReadEvent<'_>) -> (fits: bool)
        requires
            self.wf(),
            self.fds@.admits(event@),
        ensures
            fits == self.output.room_for(event@),
            match *event {
                ReadEvent::Read { stream, res: Ok(buf) } => {
                    let held = match (self.output, stream) {
                        (ChildOutputMut::Split { stdout, .. }, Stream::Stdout) => stdout->0,
                        (ChildOutputMut::Split { stderr, .. }, _) => stderr->0,
                        (ChildOutputMut::Combined(combined), _) => combined,
                    };
                    fits <==> buf@.len() == 0 || 2 * (bytes_mut_contents(held).len() + buf@.len())
                        <= isize::MAX
                },
                _ => fits,
            },
    {
        let (stream, extra) = match event {
            ReadEvent::Read { stream, res: Ok(buf) } => (*stream, buf.len()),
            _ => {
                return true;
            },
        };
        let lens = self.output.stdout_stderr_len();
        let held: u64 = match stream {
            Stream::Stdout => lens.0.unwrap(),
            Stream::Stderr => lens.1.unwrap(),
            Stream::Combined => lens.0.unwrap(),
        };
        let limit: u64 = (isize::MAX / 2) as u64;
        extra == 0 || held <= limit && extra as u64 <= limit - held
    }
}

} // verus!
