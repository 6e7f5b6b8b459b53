//! What each call gives back, and what it leaves behind, said of the arguments of
//! the call and its result.
use bytes::BytesMut;
use std::io;
use std::sync::Arc;
use vstd::prelude::*;
use crate::accumulator::ChildAccumulator;
use crate::buffer::{bytes_contents, bytes_mut_contents};
use crate::errors::{ChildFdError, ErrorList, Stream};
use crate::fds::{ChildFds, ReadEvent};
use crate::fused::{fill_buf_opt, is_done_opt, FusedBufReader};
use crate::output::{ChildExecutionOutput, ChildOutput, ChildOutputMut};
use crate::spawn::{
    plan_stdio, spawn, CaptureStrategy, Child, OutputMode, Started, StdinMode, StdioPlan,
};

verus! {

/// [`FusedBufReader::fill_buf`]: a reader that is open puts all the bytes of a
/// read behind those in the buffer, returns how many they are, and is done
/// afterwards exactly if there are none. A failed read it answers with the error of
/// that read; it is then done, and the buffer as it was. A reader that is done
/// changes nothing and takes nothing. The reader inside is kept.
pub proof fn law_fill_buf_of_a_reader<R>()
    ensures
        forall|
            reader: &mut FusedBufReader<R>,
            acc: &mut BytesMut,
            res: Result<&[u8], io::Error>,
            taken: Result<usize, io::Error>,
        | #[trigger]
            call_ensures(FusedBufReader::<R>::fill_buf, (reader, acc, res), taken) ==> {
                &&& final(reader).reader() == reader.reader()
                &&& reader.done() ==> {
                    &&& final(reader).done()
                    &&& bytes_mut_contents(*final(acc)) == bytes_mut_contents(*acc)
                    &&& taken == Ok::<usize, io::Error>(0)
                }
                &&& !reader.done() && res is Ok ==> {
                    &&& bytes_mut_contents(*final(acc)) == bytes_mut_contents(*acc) + res->Ok_0@
                    &&& final(reader).done() <==> res->Ok_0@.len() == 0
                    &&& taken is Ok && taken->Ok_0 == res->Ok_0@.len()
                }
                &&& !reader.done() && res is Err ==> {
                    &&& bytes_mut_contents(*final(acc)) == bytes_mut_contents(*acc)
                    &&& final(reader).done()
                    &&& taken is Err && taken->Err_0 == res->Err_0
                }
            },
{
}

/// [`FusedBufReader::new`] holds the reader it is given, and is open;
/// [`FusedBufReader::is_done`] tells whether a reader is done.
pub proof fn law_new_reader_is_open<R>(reader: R, fused: FusedBufReader<R>, done: bool)
    requires
        call_ensures(FusedBufReader::<R>::new, (reader,), fused),
        call_ensures(FusedBufReader::<R>::is_done, (&fused,), done),
    ensures
        fused.reader() == reader,
        !done,
{
}

/// [`FusedBufReader::is_done`] right after a read: it is done exactly if the read
/// failed or brought no bytes, or if it was done before.
pub proof fn law_done_after_a_read<R>()
    ensures
        forall|
            reader: &mut FusedBufReader<R>,
            acc: &mut BytesMut,
            res: Result<&[u8], io::Error>,
            taken: Result<usize, io::Error>,
            before: bool,
            after: bool,
        |
            {
                &&& #[trigger] call_ensures(
                    FusedBufReader::<R>::fill_buf,
                    (reader, acc, res),
                    taken,
                )
                &&& #[trigger] call_ensures(FusedBufReader::<R>::is_done, (&*reader,), before)
                &&& #[trigger] call_ensures(
                    FusedBufReader::<R>::is_done,
                    (&*final(reader),),
                    after,
                )
            } ==> (after <==> before || res is Err || res->Ok_0@.len() == 0),
{
}

/// [`fill_buf_opt`]: as for a reader, where there is one; where there is none,
/// nothing is taken and the buffer stays as it was.
pub proof fn law_fill_buf_of_a_reader_that_may_be_missing<R>()
    ensures
        forall|
            reader: &mut FusedBufReader<R>,
            acc: &mut BytesMut,
            res: Result<&[u8], io::Error>,
            taken: Result<usize, io::Error>,
        | #[trigger]
            call_ensures(fill_buf_opt::<R>, (Some(reader), Some(acc), res), taken) ==> {
                &&& final(reader).reader() == reader.reader()
                &&& reader.done() ==> {
                    &&& final(reader).done()
                    &&& bytes_mut_contents(*final(acc)) == bytes_mut_contents(*acc)
                    &&& taken == Ok::<usize, io::Error>(0)
                }
                &&& !reader.done() && res is Ok ==> {
                    &&& bytes_mut_contents(*final(acc)) == bytes_mut_contents(*acc) + res->Ok_0@
                    &&& final(reader).done() <==> res->Ok_0@.len() == 0
                    &&& taken is Ok && taken->Ok_0 == res->Ok_0@.len()
                }
                &&& !reader.done() && res is Err ==> {
                    &&& bytes_mut_contents(*final(acc)) == bytes_mut_contents(*acc)
                    &&& final(reader).done()
                    &&& taken is Err && taken->Err_0 == res->Err_0
                }
            },
        forall|
            acc: &mut BytesMut,
            res: Result<&[u8], io::Error>,
            taken: Result<usize, io::Error>,
        | #[trigger]
            call_ensures(
                fill_buf_opt::<R>,
                (None::<&mut FusedBufReader<R>>, Some(acc), res),
                taken,
            ) ==> {
                &&& bytes_mut_contents(*final(acc)) == bytes_mut_contents(*acc)
                &&& taken == Ok::<usize, io::Error>(0)
            },
{
}

/// [`ChildFds::fill_buf`] returns how many bytes the read brought or, under the
/// name of its stream, the error with which it failed.
pub proof fn law_fill_buf_of_streams_returns<'a, O, E, C>()
    ensures
        forall|
            fds: &mut ChildFds<O, E, C>,
            acc: &mut ChildOutputMut,
            stream: Stream,
            buf: &'a [u8],
            taken: Result<usize, ChildFdError>,
        | #[trigger]
            call_ensures(
                ChildFds::<O, E, C>::fill_buf,
                (fds, acc, ReadEvent::Read { stream, res: Ok(buf) }),
                taken,
            ) ==> taken is Ok && taken->Ok_0 == buf@.len(),
        forall|
            fds: &mut ChildFds<O, E, C>,
            acc: &mut ChildOutputMut,
            stream: Stream,
            error: io::Error,
            taken: Result<usize, ChildFdError>,
        | #[trigger]
            call_ensures(
                ChildFds::<O, E, C>::fill_buf,
                (fds, acc, ReadEvent::Read { stream, res: Err(error) }),
                taken,
            ) ==> {
                &&& stream == Stream::Stdout ==> taken == Err::<usize, ChildFdError>(
                    ChildFdError::ReadStdout(Arc::new(error)),
                )
                &&& stream == Stream::Stderr ==> taken == Err::<usize, ChildFdError>(
                    ChildFdError::ReadStderr(Arc::new(error)),
                )
                &&& stream == Stream::Combined ==> taken == Err::<usize, ChildFdError>(
                    ChildFdError::ReadCombined(Arc::new(error)),
                )
            },
{
}

/// [`ChildFds::fill_buf`] collects what was read of the stream that was read: the
/// bytes of a read go behind those of its stream, which ends exactly if there are
/// none; a failed read ends its stream and adds nothing. A separate stream leaves
/// the other one as it was.
pub proof fn law_fill_buf_of_streams_collects<'a, O, E, C>()
    ensures
        forall|
            fds: &mut ChildFds<O, E, C>,
            acc: &mut ChildOutputMut,
            res: Result<&'a [u8], io::Error>,
            taken: Result<usize, ChildFdError>,
        | #[trigger]
            call_ensures(
                ChildFds::<O, E, C>::fill_buf,
                (fds, acc, ReadEvent::Read { stream: Stream::Stdout, res }),
                taken,
            ) ==> {
                &&& *final(fds) is Split && *final(acc) is Split
                &&& final(fds)->stdout is Some && final(acc)->stdout is Some
                &&& bytes_mut_contents(final(acc)->stdout->0) == match res {
                    Ok(buf) => bytes_mut_contents(acc->stdout->0) + buf@,
                    Err(_) => bytes_mut_contents(acc->stdout->0),
                }
                &&& final(fds)->stdout->0.done() <==> res is Err || res->Ok_0@.len() == 0
                &&& final(fds)->stderr == fds->stderr && final(acc)->stderr == acc->stderr
            },
        forall|
            fds: &mut ChildFds<O, E, C>,
            acc: &mut ChildOutputMut,
            res: Result<&'a [u8], io::Error>,
            taken: Result<usize, ChildFdError>,
        | #[trigger]
            call_ensures(
                ChildFds::<O, E, C>::fill_buf,
                (fds, acc, ReadEvent::Read { stream: Stream::Stderr, res }),
                taken,
            ) ==> {
                &&& *final(fds) is Split && *final(acc) is Split
                &&& final(fds)->stderr is Some && final(acc)->stderr is Some
                &&& bytes_mut_contents(final(acc)->stderr->0) == match res {
                    Ok(buf) => bytes_mut_contents(acc->stderr->0) + buf@,
                    Err(_) => bytes_mut_contents(acc->stderr->0),
                }
                &&& final(fds)->stderr->0.done() <==> res is Err || res->Ok_0@.len() == 0
                &&& final(fds)->stdout == fds->stdout && final(acc)->stdout == acc->stdout
            },
        forall|
            fds: &mut ChildFds<O, E, C>,
            acc: &mut ChildOutputMut,
            res: Result<&'a [u8], io::Error>,
            taken: Result<usize, ChildFdError>,
        | #[trigger]
            call_ensures(
                ChildFds::<O, E, C>::fill_buf,
                (fds, acc, ReadEvent::Read { stream: Stream::Combined, res }),
                taken,
            ) ==> {
                &&& *final(fds) is Combined && *final(acc) is Combined
                &&& bytes_mut_contents(final(acc)->Combined_0) == match res {
                    Ok(buf) => bytes_mut_contents(acc->Combined_0) + buf@,
                    Err(_) => bytes_mut_contents(acc->Combined_0),
                }
                &&& final(fds)->combined.done() <==> res is Err || res->Ok_0@.len() == 0
            },
        forall|
            fds: &mut ChildFds<O, E, C>,
            acc: &mut ChildOutputMut,
            taken: Result<usize, ChildFdError>,
        | #[trigger]
            call_ensures(
                ChildFds::<O, E, C>::fill_buf,
                (fds, acc, ReadEvent::<'a>::Idle),
                taken,
            ) ==> *final(fds) == *fds && *final(acc) == *acc && taken == Ok::<usize, ChildFdError>(
                0,
            ),
{
}

/// [`ChildAccumulator::fill_buf`] collects what was read of the stream that was
/// read, and returns how many bytes that is.
pub proof fn law_fill_buf_of_an_accumulator_collects<'a, O, E, C>()
    ensures
        forall|
            acc: &mut ChildAccumulator<O, E, C>,
            res: Result<&'a [u8], io::Error>,
            taken: usize,
        | #[trigger]
            call_ensures(
                ChildAccumulator::<O, E, C>::fill_buf,
                (acc, ReadEvent::Read { stream: Stream::Stdout, res }),
                taken,
            ) ==> {
                &&& final(acc).fds is Split && final(acc).output is Split
                &&& final(acc).fds->stdout is Some && final(acc).output->stdout is Some
                &&& bytes_mut_contents(final(acc).output->stdout->0) == match res {
                    Ok(buf) => bytes_mut_contents(acc.output->stdout->0) + buf@,
                    Err(_) => bytes_mut_contents(acc.output->stdout->0),
                }
                &&& final(acc).fds->stdout->0.done() <==> res is Err || res->Ok_0@.len() == 0
                &&& final(acc).fds->stderr == acc.fds->stderr
                &&& final(acc).output->stderr == acc.output->stderr
                &&& taken == if res is Ok { res->Ok_0@.len() } else { 0 }
            },
        forall|
            acc: &mut ChildAccumulator<O, E, C>,
            res: Result<&'a [u8], io::Error>,
            taken: usize,
        | #[trigger]
            call_ensures(
                ChildAccumulator::<O, E, C>::fill_buf,
                (acc, ReadEvent::Read { stream: Stream::Stderr, res }),
                taken,
            ) ==> {
                &&& final(acc).fds is Split && final(acc).output is Split
                &&& final(acc).fds->stderr is Some && final(acc).output->stderr is Some
                &&& bytes_mut_contents(final(acc).output->stderr->0) == match res {
                    Ok(buf) => bytes_mut_contents(acc.output->stderr->0) + buf@,
                    Err(_) => bytes_mut_contents(acc.output->stderr->0),
                }
                &&& final(acc).fds->stderr->0.done() <==> res is Err || res->Ok_0@.len() == 0
                &&& final(acc).fds->stdout == acc.fds->stdout
                &&& final(acc).output->stdout == acc.output->stdout
                &&& taken == if res is Ok { res->Ok_0@.len() } else { 0 }
            },
        forall|
            acc: &mut ChildAccumulator<O, E, C>,
            res: Result<&'a [u8], io::Error>,
            taken: usize,
        | #[trigger]
            call_ensures(
                ChildAccumulator::<O, E, C>::fill_buf,
                (acc, ReadEvent::Read { stream: Stream::Combined, res }),
                taken,
            ) ==> {
                &&& final(acc).fds is Combined && final(acc).output is Combined
                &&& bytes_mut_contents(final(acc).output->Combined_0) == match res {
                    Ok(buf) => bytes_mut_contents(acc.output->Combined_0) + buf@,
                    Err(_) => bytes_mut_contents(acc.output->Combined_0),
                }
                &&& final(acc).fds->combined.done() <==> res is Err || res->Ok_0@.len() == 0
                &&& taken == if res is Ok { res->Ok_0@.len() } else { 0 }
            },
        forall|acc: &mut ChildAccumulator<O, E, C>, taken: usize| #[trigger]
            call_ensures(
                ChildAccumulator::<O, E, C>::fill_buf,
                (acc, ReadEvent::<'a>::Idle),
                taken,
            ) ==> {
                &&& final(acc).fds == acc.fds
                &&& final(acc).output == acc.output
                &&& final(acc).errors@ == acc.errors@
                &&& taken == 0
            },
{
}

/// [`ChildAccumulator::fill_buf`] keeps the errors there were, adds none for a read
/// that succeeds, and puts the error of one that failed last, under the name of its
/// stream.
pub proof fn law_fill_buf_of_an_accumulator_keeps_errors<'a, O, E, C>()
    ensures
        forall|
            acc: &mut ChildAccumulator<O, E, C>,
            stream: Stream,
            buf: &'a [u8],
            taken: usize,
        | #[trigger]
            call_ensures(
                ChildAccumulator::<O, E, C>::fill_buf,
                (acc, ReadEvent::Read { stream, res: Ok(buf) }),
                taken,
            ) ==> final(acc).errors@ == acc.errors@,
        forall|
            acc: &mut ChildAccumulator<O, E, C>,
            stream: Stream,
            error: io::Error,
            taken: usize,
        | #[trigger]
            call_ensures(
                ChildAccumulator::<O, E, C>::fill_buf,
                (acc, ReadEvent::Read { stream, res: Err(error) }),
                taken,
            ) ==> {
                &&& final(acc).errors@.len() == acc.errors@.len() + 1
                &&& final(acc).errors@.drop_last() == acc.errors@
                &&& stream == Stream::Stdout ==> final(acc).errors@.last()
                    == ChildFdError::ReadStdout(Arc::new(error))
                &&& stream == Stream::Stderr ==> final(acc).errors@.last()
                    == ChildFdError::ReadStderr(Arc::new(error))
                &&& stream == Stream::Combined ==> final(acc).errors@.last()
                    == ChildFdError::ReadCombined(Arc::new(error))
            },
{
}

/// Two reads of standard output, one call after the other: the bytes of the second
/// are behind those of the first, and both behind what was held, as long as the
/// first brings any. The same of what is returned.
pub proof fn law_two_fills_of_stdout<'a, O, E, C>()
    ensures
        forall|
            one: &mut ChildAccumulator<O, E, C>,
            two: &mut ChildAccumulator<O, E, C>,
            first: &'a [u8],
            second: &'a [u8],
            taken: (usize, usize),
        |
            {
                &&& #[trigger] call_ensures(
                    ChildAccumulator::<O, E, C>::fill_buf,
                    (one, ReadEvent::Read { stream: Stream::Stdout, res: Ok(first) }),
                    taken.0,
                )
                &&& #[trigger] call_ensures(
                    ChildAccumulator::<O, E, C>::fill_buf,
                    (two, ReadEvent::Read { stream: Stream::Stdout, res: Ok(second) }),
                    taken.1,
                )
                &&& *two == *final(one)
            } ==> {
                &&& bytes_mut_contents(final(two).output->stdout->0) == bytes_mut_contents(
                    one.output->stdout->0,
                ) + first@ + second@
                &&& taken.0 + taken.1 == first@.len() + second@.len()
                &&& final(two).errors@ == one.errors@
            },
{
}

/// Whether a reader that may be missing is done: one that is missing is.
pub proof fn law_missing_reader_is_done<R>(reader: FusedBufReader<R>, done: bool, missing: bool)
    requires
        call_ensures(is_done_opt::<R>, (Some(&reader),), done),
        call_ensures(is_done_opt::<R>, (None::<&FusedBufReader<R>>,), missing),
    ensures
        done == reader.done(),
        missing,
{
}

/// [`ChildFds::new_split`] and [`ChildFds::new_combined`] read just what they are
/// given, from the start.
pub proof fn law_new_streams_read_what_they_are_given<O, E, C>(
    stdout: Option<O>,
    stderr: Option<E>,
    rx: C,
    split: ChildFds<O, E, C>,
    combined: ChildFds<O, E, C>,
)
    requires
        call_ensures(ChildFds::<O, E, C>::new_split, (stdout, stderr), split),
        call_ensures(ChildFds::<O, E, C>::new_combined, (rx,), combined),
    ensures
        split is Split,
        split->stdout is Some <==> stdout is Some,
        stdout is Some ==> split->stdout->0.reader() == stdout->0 && !split->stdout->0.done(),
        split->stderr is Some <==> stderr is Some,
        stderr is Some ==> split->stderr->0.reader() == stderr->0 && !split->stderr->0.done(),
        combined is Combined,
        combined->combined.reader() == rx,
        !combined->combined.done(),
{
}

/// [`ChildFds::make_acc`] makes an empty buffer for each reader, in its place, and
/// no other.
pub proof fn law_new_buffers_match_the_readers<O, E, C>(
    fds: ChildFds<O, E, C>,
    acc: ChildOutputMut,
)
    requires
        call_ensures(ChildFds::<O, E, C>::make_acc, (&fds,), acc),
    ensures
        fds is Split <==> acc is Split,
        fds is Split ==> {
            &&& fds->stdout is Some <==> acc->stdout is Some
            &&& fds->stderr is Some <==> acc->stderr is Some
            &&& acc->stdout is Some ==> bytes_mut_contents(acc->stdout->0).len() == 0
            &&& acc->stderr is Some ==> bytes_mut_contents(acc->stderr->0).len() == 0
        },
        fds is Combined ==> bytes_mut_contents(acc->Combined_0).len() == 0,
{
}

/// [`ErrorList::new`] keeps the errors and the description; a copy of an error is
/// that error.
pub proof fn law_errors_are_listed_as_they_are(
    description: &'static str,
    errors: Vec<ChildFdError>,
    list: ErrorList,
    error: ChildFdError,
    copy: ChildFdError,
)
    requires
        call_ensures(ErrorList::new, (description, errors), list),
        call_ensures(ChildFdError::clone, (&error,), copy),
    ensures
        list.description == description,
        list.errors@ == errors@,
        copy == error,
{
}

/// [`ChildFdError::new`] keeps the error, under the name of its stream.
pub proof fn law_error_is_named_after_its_stream(
    error: io::Error,
    stdout: ChildFdError,
    stderr: ChildFdError,
    combined: ChildFdError,
)
    requires
        call_ensures(ChildFdError::new, (Stream::Stdout, error), stdout),
        call_ensures(ChildFdError::new, (Stream::Stderr, error), stderr),
        call_ensures(ChildFdError::new, (Stream::Combined, error), combined),
    ensures
        stdout == ChildFdError::ReadStdout(Arc::new(error)),
        stderr == ChildFdError::ReadStderr(Arc::new(error)),
        combined == ChildFdError::ReadCombined(Arc::new(error)),
{
}

/// [`ChildOutputMut::freeze`] hands over the bytes that each buffer holds, in the
/// same place.
pub proof fn law_frozen_output_holds_the_bytes(out: ChildOutputMut, frozen: ChildOutput)
    requires
        call_ensures(ChildOutputMut::freeze, (out,), frozen),
    ensures
        out is Split <==> frozen is Split,
        out is Split ==> {
            &&& out->stdout is Some <==> frozen->Split_0.stdout is Some
            &&& out->stderr is Some <==> frozen->Split_0.stderr is Some
            &&& out->stdout is Some ==> bytes_contents(frozen->Split_0.stdout->0.buf)
                == bytes_mut_contents(out->stdout->0)
            &&& out->stderr is Some ==> bytes_contents(frozen->Split_0.stderr->0.buf)
                == bytes_mut_contents(out->stderr->0)
        },
        out is Combined ==> bytes_contents(frozen->output.buf) == bytes_mut_contents(
            out->Combined_0,
        ),
{
}

/// [`ChildOutputMut::stdout_stderr_len`] counts the bytes in each buffer; those of
/// a combined stream stand in the place of standard output.
pub proof fn law_lengths_count_the_bytes(out: ChildOutputMut, lens: (Option<u64>, Option<u64>))
    requires
        call_ensures(ChildOutputMut::stdout_stderr_len, (&out,), lens),
    ensures
        out is Split ==> {
            &&& lens.0 is Some <==> out->stdout is Some
            &&& out->stdout is Some ==> lens.0->0 == bytes_mut_contents(out->stdout->0).len()
            &&& lens.1 is Some <==> out->stderr is Some
            &&& out->stderr is Some ==> lens.1->0 == bytes_mut_contents(out->stderr->0).len()
        },
        out is Combined ==> {
            &&& lens.0 is Some
            &&& lens.0->0 == bytes_mut_contents(out->Combined_0).len()
            &&& lens.1 is None
        },
{
}

/// [`ChildAccumulator::snapshot_in_progress`] has no result, the bytes that each
/// buffer holds, all the errors so far, and the description it was given.
pub proof fn law_snapshot_in_progress_holds_all<O, E, C, T>(
    acc: ChildAccumulator<O, E, C>,
    description: &'static str,
    snapshot: ChildExecutionOutput<T>,
)
    requires
        call_ensures(
            ChildAccumulator::<O, E, C>::snapshot_in_progress::<T>,
            (&acc, description),
            snapshot,
        ),
    ensures
        snapshot->result is None,
        snapshot->errors.description == description,
        snapshot->errors.errors@ == acc.errors@,
        acc.output is Split <==> snapshot->output is Split,
        acc.output is Split ==> {
            let split = snapshot->output->Split_0;
            &&& acc.output->stdout is Some <==> split.stdout is Some
            &&& acc.output->stderr is Some <==> split.stderr is Some
            &&& split.stdout is Some ==> bytes_contents(split.stdout->0.buf) == bytes_mut_contents(
                acc.output->stdout->0,
            )
            &&& split.stderr is Some ==> bytes_contents(split.stderr->0.buf) == bytes_mut_contents(
                acc.output->stderr->0,
            )
        },
        acc.output is Combined ==> bytes_contents(snapshot->output->output.buf)
            == bytes_mut_contents(acc.output->Combined_0),
{
}

/// [`plan_stdio`]: standard input is that of this process exactly if it is to be
/// passed through, and empty if not, whatever is captured; what is captured
/// separately is piped separately, what is captured together is piped together, and
/// what is not captured is left alone, whatever standard input is.
pub proof fn law_plan_follows_its_arguments(
    strategy: CaptureStrategy,
    passthrough: bool,
    plan: StdioPlan,
)
    requires
        call_ensures(plan_stdio, (strategy, passthrough), plan),
    ensures
        passthrough <==> plan.stdin == StdinMode::Inherit,
        !passthrough <==> plan.stdin == StdinMode::Null,
        strategy == CaptureStrategy::NoCapture <==> plan.output == OutputMode::Unchanged,
        strategy == CaptureStrategy::Split <==> plan.output == OutputMode::Piped,
        strategy == CaptureStrategy::Combined <==> plan.output == OutputMode::SharedPipe,
{
}

/// [`spawn`] hands on the error that kept a child from starting. Of one that was
/// started it keeps the process, and reads, from the start, each pipe that it came
/// with for its strategy.
pub proof fn law_spawned_child_keeps_what_was_started<P, O, E, C>(
    strategy: CaptureStrategy,
    started: Started<P, O, E, C>,
    error: io::Error,
    spawned: Result<Child<P, O, E, C>, io::Error>,
    failed: Result<Child<P, O, E, C>, io::Error>,
)
    requires
        call_ensures(spawn::<P, O, E, C>, (strategy, Ok(started)), spawned),
        call_ensures(spawn::<P, O, E, C>, (strategy, Err(error)), failed),
    ensures
        failed is Err && failed->Err_0 == error,
        spawned is Ok,
        spawned->Ok_0.child == started.child,
        strategy == CaptureStrategy::NoCapture ==> {
            let fds = spawned->Ok_0.child_fds;
            fds is Split && fds->stdout is None && fds->stderr is None
        },
        strategy == CaptureStrategy::Split ==> {
            let fds = spawned->Ok_0.child_fds;
            &&& fds is Split && fds->stdout is Some && fds->stderr is Some
            &&& started.stdout == Some(fds->stdout->0.reader()) && !fds->stdout->0.done()
            &&& started.stderr == Some(fds->stderr->0.reader()) && !fds->stderr->0.done()
        },
        strategy == CaptureStrategy::Combined ==> {
            let fds = spawned->Ok_0.child_fds;
            &&& fds is Combined
            &&& started.combined_rx == Some(fds->combined.reader()) && !fds->combined.done()
        },
{
}

} // verus!
