//! What a child is started with, and what its output is read through.
use std::io;
use vstd::prelude::*;
use crate::errors::Stream;
use crate::fds::ChildFds;
use crate::model::FdsView;

verus! {

/// How to capture a child's output.
#[derive(Clone, Copy, Debug, PartialEq, Eq, Structural)]
pub enum CaptureStrategy {
    /// Don't capture it.
    NoCapture,
    /// Capture standard output and standard error separately.
    Split,
    /// Capture standard output and standard error on one stream.
    Combined,
}

impl CaptureStrategy {
    /// Whether `stream` is captured.
    pub open spec fn captures(self, stream: Stream) -> bool {
        match self {
            CaptureStrategy::NoCapture => false,
            CaptureStrategy::Split => stream == Stream::Stdout || stream == Stream::Stderr,
            CaptureStrategy::Combined => stream == Stream::Combined,
        }
    }

    /// What the child's standard output and standard error are.
    pub open spec fn output_mode(self) -> OutputMode {
        match self {
            CaptureStrategy::NoCapture => OutputMode::Unchanged,
            CaptureStrategy::Split => OutputMode::Piped,
            CaptureStrategy::Combined => OutputMode::SharedPipe,
        }
    }

    /// The streams that are read, before anything was read of them.
    pub open spec fn fds(self) -> FdsView {
        match self {
            CaptureStrategy::NoCapture => FdsView::Split { stdout: None, stderr: None },
            CaptureStrategy::Split => FdsView::Split { stdout: Some(false), stderr: Some(false) },
            CaptureStrategy::Combined => FdsView::Combined { combined: false },
        }
    }
}

/// What a child's standard input is.
#[derive(Clone, Copy, Debug, PartialEq, Eq, Structural)]
pub enum StdinMode {
    /// That of this process.
    Inherit,
    /// Empty.
    Null,
}

/// What a child's standard output and standard error are.
#[derive(Clone, Copy, Debug, PartialEq, Eq, Structural)]
pub enum OutputMode {
    /// What the command has them set to.
    Unchanged,
    /// Each a pipe of its own.
    Piped,
    /// Both the writing end of one pipe.
    SharedPipe,
}

/// What a child's standard streams are.
#[derive(Clone, Copy, Debug, PartialEq, Eq, Structural)]
pub struct StdioPlan {
    /// Standard input.
    pub stdin: StdinMode,
    /// Standard output and standard error.
    pub output: OutputMode,
}

/// Decides what the standard streams of a child are to be before it is started.
pub fn plan_stdio(strategy: CaptureStrategy, stdin_passthrough: bool) -> (plan: StdioPlan)
    ensures
        plan.stdin == (if stdin_passthrough { StdinMode::Inherit } else { StdinMode::Null }),
        plan.output == strategy.output_mode(),
        plan.output == (match strategy {
            CaptureStrategy::NoCapture => OutputMode::Unchanged,
            CaptureStrategy::Split => OutputMode::Piped,
            CaptureStrategy::Combined => OutputMode::SharedPipe,
        }),
{
    let stdin = if stdin_passthrough {
        StdinMode::Inherit
    } else {
        StdinMode::Null
    };
    let output = match strategy {
        CaptureStrategy::NoCapture => OutputMode::Unchanged,
        CaptureStrategy::Split => OutputMode::Piped,
        CaptureStrategy::Combined => OutputMode::SharedPipe,
    };
    StdioPlan { stdin, output }
}

/// A child that has been started, with the reading ends of the pipes that were made
/// to capture its output. Pipes that the command asked for by itself stay with the
/// process.
pub struct Started<P, O, E, C> {
    /// The process.
    pub child: P,
    /// The reading end of standard output's pipe, if it is captured on its own.
    pub stdout: Option<O>,
    /// The reading end of standard error's pipe, if it is captured on its own.
    pub stderr: Option<E>,
    /// The reading end of the shared pipe, if there is one.
    pub combined_rx: Option<C>,
}

impl<P, O, E, C> Started<P, O, E, C> {
    /// Whether the pipes that `strategy` reads from are there, and no others.
    pub open spec fn has_pipes_for(&self, strategy: CaptureStrategy) -> bool {
        &&& self.stdout is Some <==> strategy.captures(Stream::Stdout)
        &&& self.stderr is Some <==> strategy.captures(Stream::Stderr)
        &&& self.combined_rx is Some <==> strategy.captures(Stream::Combined)
    }
}

/// A spawned child process along with the readers of its output.
pub struct Child<P, O, E, C> {
    /// The process.
    pub child: P,
    /// The readers.
    pub child_fds: ChildFds<O, E, C>,
}

/// Pairs a child with the readers that `strategy` calls for, or hands on the
/// error that kept it from starting. `started` is what came of starting it with
/// the streams that [`plan_stdio`] decides on; every pipe in it goes to a reader.
pub fn spawn<P, O, E, C>(
    strategy: CaptureStrategy,
    started: Result<Started<P, O, E, C>, io::Error>,
) -> (spawned: Result<Child<P, O, E, C>, io::Error>)
    requires
        started matches Ok(started) ==> started.has_pipes_for(strategy),
    ensures
        match started {
            Ok(started) => {
                &&& spawned is Ok
                &&& spawned->Ok_0.child == started.child
                &&& spawned->Ok_0.child_fds@ == strategy.fds()
                &&& spawned->Ok_0.child_fds.split_readers() == (started.stdout, started.stderr)
                &&& spawned->Ok_0.child_fds.combined_reader() == started.combined_rx
                &&& match (strategy, spawned->Ok_0.child_fds) {
                    (CaptureStrategy::NoCapture, ChildFds::Split { stdout, stderr }) => {
                        stdout is None && stderr is None
                    },
                    (CaptureStrategy::Split, ChildFds::Split { stdout, stderr }) => {
                        &&& stdout is Some && stderr is Some
                        &&& Some(stdout->0.reader()) == started.stdout && !stdout->0.done()
                        &&& Some(stderr->0.reader()) == started.stderr && !stderr->0.done()
                    },
                    (CaptureStrategy::Combined, ChildFds::Combined { combined }) => {
                        Some(combined.reader()) == started.combined_rx && !combined.done()
                    },
                    _ => false,
                }
            },
            Err(error) => spawned == Err::<Child<P, O, E, C>, io::Error>(error),
        },
{
    let started = match started {
        Ok(started) => started,
        Err(error) => {
            return Err(error);
        },
    };
    let child_fds = match strategy {
        CaptureStrategy::NoCapture => ChildFds::new_split(None, None),
        CaptureStrategy::Split => {
            let stdout = started.stdout.expect("stdout was set");
            let stderr = started.stderr.expect("stderr was set");
            ChildFds::new_split(Some(stdout), Some(stderr))
        },
        CaptureStrategy::Combined => {
            ChildFds::new_combined(started.combined_rx.expect("combined_rx was set"))
        },
    };
    Ok(Child { child: started.child, child_fds })
}

} // verus!
