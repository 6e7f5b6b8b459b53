//! What each single step does, said of bytes, flags and errors alone: which reads
//! are collected, what ends a stream, what is returned, when there is room, and
//! what may come next.
use bytes::BytesMut;
use std::io;
use std::sync::Arc;
use vstd::prelude::*;
use crate::accumulator::{errors_view, ChildAccumulator};
use crate::buffer::{bytes_contents, bytes_mut_contents, bytes_mut_start, has_room};
use crate::errors::{ChildFdError, FdErrorView, Stream};
use crate::fds::{fills, ChildFds, NextRead, ReadEvent};
use crate::fused::{takes_in, FusedBufReader};
use crate::model::{
    admits_fills, can_fill, capture, chunk, concat, delivers, empty_output, errors_of, fails, fill,
    fill_all, is_last, payload, read_view, reads_of, same_shape, taken_of, AccumulatorView, CaptureView,
    EventView, FdsView, OutputView, ReadView, StreamView,
};
use crate::output::{ChildOutput, ChildOutputMut};
use crate::spawn::{CaptureStrategy, OutputMode, Started};

verus! {

// ---- One read of one reader ----

/// A reader that is open and takes in the bytes of a read has them all, whatever
/// they are, behind what was collected before; it returns how many they are; and
/// it is done exactly if there are none.
pub proof fn law_read_bytes_are_collected<R>(
    reader: FusedBufReader<R>,
    acc: BytesMut,
    buf: &[u8],
    after: FusedBufReader<R>,
    acc_after: BytesMut,
    taken: Result<usize, io::Error>,
)
    requires
        !reader.done(),
        takes_in(reader, acc, Ok(buf), after, acc_after, taken),
    ensures
        bytes_mut_contents(acc_after) == bytes_mut_contents(acc) + buf@,
        taken is Ok,
        taken->Ok_0 == buf@.len(),
        after.done() <==> buf@.len() == 0,
        after.reader() == reader.reader(),
{
}

/// A reader that is open and takes in a failed read returns the error of that
/// read, whatever was collected before, keeps what was collected, and is done.
pub proof fn law_failed_read_returns_its_error<R>(
    reader: FusedBufReader<R>,
    acc: BytesMut,
    error: io::Error,
    after: FusedBufReader<R>,
    acc_after: BytesMut,
    taken: Result<usize, io::Error>,
)
    requires
        !reader.done(),
        takes_in(reader, acc, Err(error), after, acc_after, taken),
    ensures
        taken == Err::<usize, io::Error>(error),
        bytes_mut_contents(acc_after) == bytes_mut_contents(acc),
        after.done(),
        after.reader() == reader.reader(),
{
}

/// A reader that is done takes in nothing, returns that nothing was taken, and
/// stays done.
pub proof fn law_done_reader_takes_nothing<R>(
    reader: FusedBufReader<R>,
    acc: BytesMut,
    res: Result<&[u8], io::Error>,
    after: FusedBufReader<R>,
    acc_after: BytesMut,
    taken: Result<usize, io::Error>,
)
    requires
        reader.done(),
        takes_in(reader, acc, res, after, acc_after, taken),
    ensures
        taken == Ok::<usize, io::Error>(0),
        bytes_mut_contents(acc_after) == bytes_mut_contents(acc),
        after.done(),
{
}

/// Two reads of an open reader, the first not empty, are collected one behind the
/// other: together they take as much as both hold.
pub proof fn law_two_reads_are_collected<R>(
    readers: (FusedBufReader<R>, FusedBufReader<R>, FusedBufReader<R>),
    accs: (BytesMut, BytesMut, BytesMut),
    first: &[u8],
    second: &[u8],
    taken: (Result<usize, io::Error>, Result<usize, io::Error>),
)
    requires
        !readers.0.done(),
        first@.len() > 0,
        takes_in(readers.0, accs.0, Ok(first), readers.1, accs.1, taken.0),
        takes_in(readers.1, accs.1, Ok(second), readers.2, accs.2, taken.1),
    ensures
        bytes_mut_contents(accs.2) == bytes_mut_contents(accs.0) + first@ + second@,
        taken.0 is Ok && taken.1 is Ok,
        taken.0->Ok_0 + taken.1->Ok_0 == first@.len() + second@.len(),
        readers.2.done() <==> second@.len() == 0,
{
}

/// A read succeeds with bytes, with no bytes at the end of the stream, or fails:
/// only the first leaves the stream open, and it brings just those bytes.
pub proof fn law_which_reads_are_last(bytes: Seq<u8>, error: io::Error)
    ensures
        is_last(Ok(bytes)) <==> bytes.len() == 0,
        is_last(Err(error)),
        chunk(Ok(bytes)) == bytes,
        chunk(Err(error)).len() == 0,
{
}

/// What one read does to an open stream, and what is returned.
pub proof fn law_open_stream_takes_a_read(state: StreamView, bytes: Seq<u8>, error: io::Error)
    requires
        !state.done,
    ensures
        state.step(Ok(bytes)).bytes == state.bytes + bytes,
        state.step(Ok(bytes)).done <==> bytes.len() == 0,
        state.outcome(Ok(bytes)) == Ok::<nat, io::Error>(bytes.len()),
        state.step(Err(error)).bytes == state.bytes,
        state.step(Err(error)).done,
        state.outcome(Err(error)) == Err::<nat, io::Error>(error),
{
}

/// A stream that has ended takes no read, and returns no error.
pub proof fn law_ended_stream_takes_no_read(state: StreamView, read: ReadView)
    requires
        state.done,
    ensures
        state.step(read).bytes == state.bytes,
        state.step(read).done,
        state.outcome(read) == Ok::<nat, io::Error>(0),
{
}

/// The model of a read is what the read brought.
pub proof fn law_read_is_what_it_brought(buf: &[u8], error: io::Error, stream: Stream)
    ensures
        read_view(Ok(buf)) == Ok::<Seq<u8>, io::Error>(buf@),
        read_view(Err(error)) == Err::<Seq<u8>, io::Error>(error),
        (ReadEvent::Read { stream, res: Ok(buf) })@ == (EventView::Read {
            stream,
            read: Ok(buf@),
        }),
        (ReadEvent::Read { stream, res: Err(error) })@ == (EventView::Read {
            stream,
            read: Err(error),
        }),
        ReadEvent::Idle@ == EventView::Idle,
{
}

/// An event takes the bytes that its read brought and brings the error with which
/// its read failed, under the name of its stream.
pub proof fn law_event_takes_its_bytes(stream: Stream, bytes: Seq<u8>, error: io::Error)
    ensures
        (EventView::Read { stream, read: Ok(bytes) }).taken() == bytes.len(),
        (EventView::Read { stream, read: Ok(bytes) }).error() is None,
        (EventView::Read { stream, read: Err(error) }).taken() == 0,
        (EventView::Read { stream, read: Err(error) }).error() == Some(
            FdErrorView { stream, error },
        ),
        EventView::Idle.taken() == 0,
        EventView::Idle.error() is None,
{
}

// ---- One event of a child's streams ----

/// A read of standard output puts its bytes behind those of standard output, ends
/// standard output exactly if it brought none, and leaves standard error alone. A
/// failed one ends standard output and keeps what was collected.
pub proof fn law_stdout_read_fills_stdout<O, E, C>(
    fds: ChildFds<O, E, C>,
    acc: ChildOutputMut,
    res: Result<&[u8], io::Error>,
    new_fds: ChildFds<O, E, C>,
    new_acc: ChildOutputMut,
)
    requires
        fills(fds, acc, ReadEvent::Read { stream: Stream::Stdout, res }, new_fds, new_acc),
    ensures
        new_fds is Split && new_fds->stdout is Some,
        new_acc is Split && new_acc->stdout is Some,
        new_fds->stdout->0.reader() == fds->stdout->0.reader(),
        res is Ok ==> {
            &&& bytes_mut_contents(new_acc->stdout->0) == bytes_mut_contents(acc->stdout->0)
                + res->Ok_0@
            &&& new_fds->stdout->0.done() <==> res->Ok_0@.len() == 0
        },
        res is Err ==> {
            &&& bytes_mut_contents(new_acc->stdout->0) == bytes_mut_contents(acc->stdout->0)
            &&& new_fds->stdout->0.done()
        },
        new_fds->stderr == fds->stderr,
        new_acc->stderr == acc->stderr,
{
}

/// A read of standard error puts its bytes behind those of standard error, ends
/// standard error exactly if it brought none, and leaves standard output alone. A
/// failed one ends standard error and keeps what was collected.
pub proof fn law_stderr_read_fills_stderr<O, E, C>(
    fds: ChildFds<O, E, C>,
    acc: ChildOutputMut,
    res: Result<&[u8], io::Error>,
    new_fds: ChildFds<O, E, C>,
    new_acc: ChildOutputMut,
)
    requires
        fills(fds, acc, ReadEvent::Read { stream: Stream::Stderr, res }, new_fds, new_acc),
    ensures
        new_fds is Split && new_fds->stderr is Some,
        new_acc is Split && new_acc->stderr is Some,
        new_fds->stderr->0.reader() == fds->stderr->0.reader(),
        res is Ok ==> {
            &&& bytes_mut_contents(new_acc->stderr->0) == bytes_mut_contents(acc->stderr->0)
                + res->Ok_0@
            &&& new_fds->stderr->0.done() <==> res->Ok_0@.len() == 0
        },
        res is Err ==> {
            &&& bytes_mut_contents(new_acc->stderr->0) == bytes_mut_contents(acc->stderr->0)
            &&& new_fds->stderr->0.done()
        },
        new_fds->stdout == fds->stdout,
        new_acc->stdout == acc->stdout,
{
}

/// A read of the combined stream puts its bytes behind those collected, and ends
/// the stream exactly if it brought none. A failed one ends the stream and keeps
/// what was collected.
pub proof fn law_combined_read_fills_combined<O, E, C>(
    fds: ChildFds<O, E, C>,
    acc: ChildOutputMut,
    res: Result<&[u8], io::Error>,
    new_fds: ChildFds<O, E, C>,
    new_acc: ChildOutputMut,
)
    requires
        fills(fds, acc, ReadEvent::Read { stream: Stream::Combined, res }, new_fds, new_acc),
    ensures
        new_fds is Combined,
        new_acc is Combined,
        new_fds->combined.reader() == fds->combined.reader(),
        res is Ok ==> {
            &&& bytes_mut_contents(new_acc->Combined_0) == bytes_mut_contents(acc->Combined_0)
                + res->Ok_0@
            &&& new_fds->combined.done() <==> res->Ok_0@.len() == 0
        },
        res is Err ==> {
            &&& bytes_mut_contents(new_acc->Combined_0) == bytes_mut_contents(acc->Combined_0)
            &&& new_fds->combined.done()
        },
{
}

/// Where nothing was waited for, nothing changes.
pub proof fn law_idle_changes_nothing<O, E, C>(
    fds: ChildFds<O, E, C>,
    acc: ChildOutputMut,
    new_fds: ChildFds<O, E, C>,
    new_acc: ChildOutputMut,
)
    requires
        fills(fds, acc, ReadEvent::Idle, new_fds, new_acc),
    ensures
        new_fds == fds,
        new_acc == acc,
{
}

/// A separate stream that is open, in the model: a read adds its bytes to it and
/// ends it exactly if there are none or it failed; the other stream stays.
pub proof fn law_split_fill(
    other_done: Option<bool>,
    other_bytes: Option<Seq<u8>>,
    held: Seq<u8>,
    bytes: Seq<u8>,
    error: io::Error,
)
    ensures
        fill(
            FdsView::Split { stdout: Some(false), stderr: other_done },
            OutputView::Split { stdout: Some(held), stderr: other_bytes },
            EventView::Read { stream: Stream::Stdout, read: Ok(bytes) },
        ) == (
            FdsView::Split { stdout: Some(bytes.len() == 0), stderr: other_done },
            OutputView::Split { stdout: Some(held + bytes), stderr: other_bytes },
        ),
        fill(
            FdsView::Split { stdout: Some(false), stderr: other_done },
            OutputView::Split { stdout: Some(held), stderr: other_bytes },
            EventView::Read { stream: Stream::Stdout, read: Err(error) },
        ) == (
            FdsView::Split { stdout: Some(true), stderr: other_done },
            OutputView::Split { stdout: Some(held), stderr: other_bytes },
        ),
        fill(
            FdsView::Split { stdout: other_done, stderr: Some(false) },
            OutputView::Split { stdout: other_bytes, stderr: Some(held) },
            EventView::Read { stream: Stream::Stderr, read: Ok(bytes) },
        ) == (
            FdsView::Split { stdout: other_done, stderr: Some(bytes.len() == 0) },
            OutputView::Split { stdout: other_bytes, stderr: Some(held + bytes) },
        ),
        fill(
            FdsView::Split { stdout: other_done, stderr: Some(false) },
            OutputView::Split { stdout: other_bytes, stderr: Some(held) },
            EventView::Read { stream: Stream::Stderr, read: Err(error) },
        ) == (
            FdsView::Split { stdout: other_done, stderr: Some(true) },
            OutputView::Split { stdout: other_bytes, stderr: Some(held) },
        ),
{
}

/// A combined stream that is open, in the model: a read adds its bytes to it and
/// ends it exactly if there are none or it failed.
pub proof fn law_combined_fill(held: Seq<u8>, bytes: Seq<u8>, error: io::Error)
    ensures
        fill(
            FdsView::Combined { combined: false },
            OutputView::Combined { combined: held },
            EventView::Read { stream: Stream::Combined, read: Ok(bytes) },
        ) == (
            FdsView::Combined { combined: bytes.len() == 0 },
            OutputView::Combined { combined: held + bytes },
        ),
        fill(
            FdsView::Combined { combined: false },
            OutputView::Combined { combined: held },
            EventView::Read { stream: Stream::Combined, read: Err(error) },
        ) == (
            FdsView::Combined { combined: true },
            OutputView::Combined { combined: held },
        ),
{
}

/// A capture joins, for each stream, whether it has ended with what was collected
/// of it.
pub proof fn law_capture_joins(
    stdout: StreamView,
    stderr: StreamView,
    with_stdout: bool,
    with_stderr: bool,
    combined: StreamView,
)
    ensures
        capture(
            FdsView::Split {
                stdout: if with_stdout { Some(stdout.done) } else { None },
                stderr: if with_stderr { Some(stderr.done) } else { None },
            },
            OutputView::Split {
                stdout: if with_stdout { Some(stdout.bytes) } else { None },
                stderr: if with_stderr { Some(stderr.bytes) } else { None },
            },
        ) == (CaptureView::Split {
            stdout: if with_stdout { Some(stdout) } else { None },
            stderr: if with_stderr { Some(stderr) } else { None },
        }),
        capture(
            FdsView::Combined { combined: combined.done },
            OutputView::Combined { combined: combined.bytes },
        ) == (CaptureView::Combined { combined }),
{
}

/// An event keeps the errors there were, and adds the one that it brings.
pub proof fn law_event_adds_its_error(
    acc: AccumulatorView,
    stream: Stream,
    bytes: Seq<u8>,
    error: io::Error,
)
    ensures
        acc.step(EventView::Read { stream, read: Ok(bytes) }).errors == acc.errors,
        acc.step(EventView::Read { stream, read: Err(error) }).errors == acc.errors.push(
            FdErrorView { stream, error },
        ),
        acc.step(EventView::Idle).errors == acc.errors,
{
}

// ---- Room ----

/// There is room in a buffer for no bytes, and for as many as keep twice the
/// whole, with what the buffer has left behind, within an allocation.
pub proof fn law_room_is_the_allocation_limit(buf: BytesMut, extra: nat)
    ensures
        has_room(buf, extra) <==> extra == 0 || 2 * (bytes_mut_start(buf) + bytes_mut_contents(
            buf,
        ).len() + extra) <= isize::MAX,
{
}

/// There is room for a read exactly if its bytes fit into the buffer of its
/// stream; for one that failed, and for none, there always is.
pub proof fn law_room_for_a_read(
    out: ChildOutputMut,
    stream: Stream,
    bytes: Seq<u8>,
    error: io::Error,
)
    requires
        match stream {
            Stream::Stdout => out is Split && out->stdout is Some,
            Stream::Stderr => out is Split && out->stderr is Some,
            Stream::Combined => out is Combined,
        },
    ensures
        ({
            let buf = match stream {
                Stream::Stdout => out->stdout->0,
                Stream::Stderr => out->stderr->0,
                Stream::Combined => out->Combined_0,
            };
            out.room_for(EventView::Read { stream, read: Ok(bytes) }) <==> bytes.len() == 0 || 2 * (
            bytes_mut_start(buf) + bytes_mut_contents(buf).len() + bytes.len()) <= isize::MAX
        }),
        out.room_for(EventView::Read { stream, read: Err(error) }),
        out.room_for(EventView::Idle),
{
}

/// What the accumulator says of the room for a read: there is room for no bytes,
/// and for as many as keep twice what is then held of the stream within an
/// allocation, and for a failed read there is.
pub proof fn law_accumulator_has_room<O, E, C>(
    acc: ChildAccumulator<O, E, C>,
    stream: Stream,
    buf: &[u8],
    error: io::Error,
    fits: bool,
    failure_fits: bool,
)
    requires
        acc.wf(),
        acc.fds@.is_open(stream),
        call_ensures(
            ChildAccumulator::<O, E, C>::has_room_for,
            (&acc, &ReadEvent::Read { stream, res: Ok(buf) }),
            fits,
        ),
        call_ensures(
            ChildAccumulator::<O, E, C>::has_room_for,
            (&acc, &ReadEvent::Read { stream, res: Err(error) }),
            failure_fits,
        ),
    ensures
        ({
            let held = match stream {
                Stream::Stdout => acc.output->stdout->0,
                Stream::Stderr => acc.output->stderr->0,
                Stream::Combined => acc.output->Combined_0,
            };
            fits <==> buf@.len() == 0 || 2 * (bytes_mut_contents(held).len() + buf@.len())
                <= isize::MAX
        }),
        failure_fits,
{
}

// ---- What may come next ----

/// A stream that is read and not done may be read, whatever the read brings, and
/// no other; once no stream may, there is nothing to wait for.
pub proof fn law_open_streams_may_be_read<O, E, C>(fds: ChildFds<O, E, C>, read: ReadView)
    ensures
        fds@.admits(EventView::Read { stream: Stream::Stdout, read }) <==> fds is Split
            && fds->stdout is Some && !fds->stdout->0.done(),
        fds@.admits(EventView::Read { stream: Stream::Stderr, read }) <==> fds is Split
            && fds->stderr is Some && !fds->stderr->0.done(),
        fds@.admits(EventView::Read { stream: Stream::Combined, read }) <==> fds is Combined
            && !fds->combined.done(),
        fds@.admits(EventView::Idle) <==> {
            &&& fds is Split && fds->stdout is Some ==> fds->stdout->0.done()
            &&& fds is Split && fds->stderr is Some ==> fds->stderr->0.done()
            &&& fds is Combined ==> fds->combined.done()
        },
{
    assert(fds@.is_done() ==> !fds@.is_open(Stream::Stdout) && !fds@.is_open(Stream::Stderr)
        && !fds@.is_open(Stream::Combined));
}

/// What is asked for is what answers it: a read of a stream answers exactly where
/// that stream was asked for, and nothing where nothing was.
pub proof fn law_what_is_asked_answers(stdout: bool, stderr: bool, read: ReadView)
    ensures
        (NextRead::Split { stdout, stderr }).answered_by(
            EventView::Read { stream: Stream::Stdout, read },
        ) <==> stdout,
        (NextRead::Split { stdout, stderr }).answered_by(
            EventView::Read { stream: Stream::Stderr, read },
        ) <==> stderr,
        !(NextRead::Split { stdout, stderr }).answered_by(
            EventView::Read { stream: Stream::Combined, read },
        ),
        !(NextRead::Split { stdout, stderr }).answered_by(EventView::Idle),
        NextRead::Combined.answered_by(EventView::Read { stream: Stream::Combined, read }),
        !NextRead::Combined.answered_by(EventView::Idle),
        NextRead::Idle.answered_by(EventView::Idle),
        forall|stream: Stream|
            !(#[trigger] NextRead::Idle.answered_by(EventView::Read { stream, read })),
{
}

/// Readers and buffers go together where both are separate, with a buffer for each
/// reader and no other, and where both are combined.
pub proof fn law_readers_and_buffers_go_together<O, E, C>(
    fds: ChildFds<O, E, C>,
    acc: ChildOutputMut,
)
    ensures
        same_shape(fds@, acc@) <==> {
            ||| {
                &&& fds is Split && acc is Split
                &&& fds->stdout is Some <==> acc->stdout is Some
                &&& fds->stderr is Some <==> acc->stderr is Some
            }
            ||| fds is Combined && acc is Combined
        },
        same_shape(fds@, acc@) ==> can_fill(fds@, acc@),
        fds is Split && acc is Split && (fds->stdout is Some ==> acc->stdout is Some) && (
        fds->stderr is Some ==> acc->stderr is Some) ==> can_fill(fds@, acc@),
{
}

/// An accumulator is well formed where its readers and buffers go together and no
/// buffer has left bytes behind.
pub proof fn law_well_formed_accumulator<O, E, C>(acc: ChildAccumulator<O, E, C>)
    ensures
        acc.wf() <==> {
            ||| {
                &&& acc.fds is Split && acc.output is Split
                &&& acc.fds->stdout is Some <==> acc.output->stdout is Some
                &&& acc.fds->stderr is Some <==> acc.output->stderr is Some
                &&& acc.output->stdout is Some ==> bytes_mut_start(acc.output->stdout->0) == 0
                &&& acc.output->stderr is Some ==> bytes_mut_start(acc.output->stderr->0) == 0
            }
            ||| {
                &&& acc.fds is Combined && acc.output is Combined
                &&& bytes_mut_start(acc.output->Combined_0) == 0
            }
        },
{
}

// ---- What a value stands for ----

/// What the readers and the buffers of a child stand for: whether each reader is
/// done, and the bytes in each buffer.
pub proof fn law_readers_and_buffers_stand_for<O, E, C>(
    fds: ChildFds<O, E, C>,
    acc: ChildOutputMut,
)
    ensures
        fds is Split ==> fds@ == (FdsView::Split {
            stdout: if fds->stdout is Some { Some(fds->stdout->0.done()) } else { None },
            stderr: if fds->stderr is Some { Some(fds->stderr->0.done()) } else { None },
        }),
        fds is Combined ==> fds@ == (FdsView::Combined { combined: fds->combined.done() }),
        acc is Split ==> acc@ == (OutputView::Split {
            stdout: if acc->stdout is Some {
                Some(bytes_mut_contents(acc->stdout->0))
            } else {
                None
            },
            stderr: if acc->stderr is Some {
                Some(bytes_mut_contents(acc->stderr->0))
            } else {
                None
            },
        }),
        acc is Combined ==> acc@ == (OutputView::Combined {
            combined: bytes_mut_contents(acc->Combined_0),
        }),
{
}

/// A stream is found under its name, and under no other; a place for output that
/// is empty is there for each stream that is read.
pub proof fn law_streams_are_found_by_name(
    stdout: Option<StreamView>,
    stderr: Option<StreamView>,
    combined: StreamView,
    done: (Option<bool>, Option<bool>, bool),
    bytes: (Option<Seq<u8>>, Option<Seq<u8>>, Seq<u8>),
)
    ensures
        ({
            let split = CaptureView::Split { stdout, stderr };
            let joint = CaptureView::Combined { combined };
            &&& split.get(Stream::Stdout) == stdout
            &&& split.get(Stream::Stderr) == stderr
            &&& split.get(Stream::Combined) is None
            &&& joint.get(Stream::Stdout) is None
            &&& joint.get(Stream::Stderr) is None
            &&& joint.get(Stream::Combined) == Some(combined)
            &&& split.is_done() <==> {
                &&& stdout is Some ==> stdout->0.done
                &&& stderr is Some ==> stderr->0.done
            }
            &&& joint.is_done() <==> combined.done
            &&& joint.len() == combined.bytes.len()
            &&& stdout is Some && stderr is Some ==> split.len() == stdout->0.bytes.len()
                + stderr->0.bytes.len()
        }),
        ({
            let split = FdsView::Split { stdout: done.0, stderr: done.1 };
            let joint = FdsView::Combined { combined: done.2 };
            &&& split.get(Stream::Stdout) == done.0
            &&& split.get(Stream::Stderr) == done.1
            &&& split.get(Stream::Combined) is None
            &&& joint.get(Stream::Stdout) is None
            &&& joint.get(Stream::Stderr) is None
            &&& joint.get(Stream::Combined) == Some(done.2)
            &&& split.is_fresh() <==> done.0 != Some(true) && done.1 != Some(true)
            &&& joint.is_fresh() <==> !done.2
            &&& empty_output(split) == (OutputView::Split {
                stdout: if done.0 is Some { Some(Seq::empty()) } else { None },
                stderr: if done.1 is Some { Some(Seq::empty()) } else { None },
            })
            &&& empty_output(joint) == (OutputView::Combined { combined: Seq::empty() })
        }),
        ({
            let split = OutputView::Split { stdout: bytes.0, stderr: bytes.1 };
            let joint = OutputView::Combined { combined: bytes.2 };
            &&& split.get(Stream::Stdout) == bytes.0
            &&& split.get(Stream::Stderr) == bytes.1
            &&& split.get(Stream::Combined) is None
            &&& joint.get(Stream::Stdout) is None
            &&& joint.get(Stream::Stderr) is None
            &&& joint.get(Stream::Combined) == Some(bytes.2)
        }),
{
    let split = CaptureView::Split { stdout, stderr };
    let joint = CaptureView::Combined { combined };
    assert(split.is_done() ==> !split.is_open(Stream::Stdout) && !split.is_open(Stream::Stderr));
    assert(joint.is_done() ==> !joint.is_open(Stream::Combined));
    let fds = FdsView::Split { stdout: done.0, stderr: done.1 };
    assert(fds.is_fresh() ==> fds.get(Stream::Stdout) != Some(true) && fds.get(Stream::Stderr)
        != Some(true));
    assert((FdsView::Combined { combined: done.2 }).get(Stream::Combined) == Some(done.2));
}

/// What the output of a child stands for: the bytes of each stream.
pub proof fn law_output_stands_for(output: ChildOutput)
    ensures
        output is Split ==> output@ == (OutputView::Split {
            stdout: if output->Split_0.stdout is Some {
                Some(bytes_contents(output->Split_0.stdout->0.buf))
            } else {
                None
            },
            stderr: if output->Split_0.stderr is Some {
                Some(bytes_contents(output->Split_0.stderr->0.buf))
            } else {
                None
            },
        }),
        output is Combined ==> output@ == (OutputView::Combined {
            combined: bytes_contents(output->output.buf),
        }),
{
}

/// What an error stands for: the stream that was read, and what reading it brought.
pub proof fn law_error_stands_for(error: io::Error, errors: Seq<ChildFdError>)
    ensures
        ChildFdError::ReadStdout(Arc::new(error))@ == (FdErrorView {
            stream: Stream::Stdout,
            error,
        }),
        ChildFdError::ReadStderr(Arc::new(error))@ == (FdErrorView {
            stream: Stream::Stderr,
            error,
        }),
        ChildFdError::ReadCombined(Arc::new(error))@ == (FdErrorView {
            stream: Stream::Combined,
            error,
        }),
        errors_view(errors).len() == errors.len(),
        forall|i: int| 0 <= i < errors.len() ==> #[trigger] errors_view(errors)[i] == errors[i]@,
{
}

/// A snapshot holds the bytes that each buffer holds, in the same place.
pub proof fn law_snapshot_holds_the_bytes(out: ChildOutputMut, snapshot: ChildOutput)
    requires
        call_ensures(ChildOutputMut::snapshot, (&out,), snapshot),
    ensures
        out is Split <==> snapshot is Split,
        out is Split ==> {
            &&& out->stdout is Some <==> snapshot->Split_0.stdout is Some
            &&& out->stderr is Some <==> snapshot->Split_0.stderr is Some
            &&& out->stdout is Some ==> bytes_contents(snapshot->Split_0.stdout->0.buf)
                == bytes_mut_contents(out->stdout->0)
            &&& out->stderr is Some ==> bytes_contents(snapshot->Split_0.stderr->0.buf)
                == bytes_mut_contents(out->stderr->0)
        },
        out is Combined ==> bytes_contents(snapshot->output.buf) == bytes_mut_contents(
            out->Combined_0,
        ),
{
}

/// The lengths are those of the bytes that a snapshot holds.
pub proof fn law_lengths_are_those_of_a_snapshot(
    out: ChildOutputMut,
    snapshot: ChildOutput,
    lens: (Option<u64>, Option<u64>),
)
    requires
        call_ensures(ChildOutputMut::snapshot, (&out,), snapshot),
        call_ensures(ChildOutputMut::stdout_stderr_len, (&out,), lens),
    ensures
        snapshot is Split ==> {
            &&& lens.0 is Some <==> snapshot->Split_0.stdout is Some
            &&& lens.0 is Some ==> lens.0->0 == bytes_contents(
                snapshot->Split_0.stdout->0.buf,
            ).len()
            &&& lens.1 is Some <==> snapshot->Split_0.stderr is Some
            &&& lens.1 is Some ==> lens.1->0 == bytes_contents(
                snapshot->Split_0.stderr->0.buf,
            ).len()
        },
        snapshot is Combined ==> {
            &&& lens.0 is Some && lens.0->0 == bytes_contents(snapshot->output.buf).len()
            &&& lens.1 is None
        },
{
}

/// What is asked for next and whether all is done agree: there is nothing to wait
/// for exactly where every reader that is there is done.
pub proof fn law_idle_means_done<O, E, C>(fds: ChildFds<O, E, C>, next: NextRead, done: bool)
    requires
        call_ensures(ChildFds::<O, E, C>::next_read, (&fds,), next),
        call_ensures(ChildFds::<O, E, C>::is_done, (&fds,), done),
    ensures
        next == NextRead::Idle <==> done,
        next matches NextRead::Split { stdout, stderr } ==> {
            &&& fds is Split
            &&& stdout || stderr
            &&& stdout <==> fds->stdout is Some && !fds->stdout->0.done()
            &&& stderr <==> fds->stderr is Some && !fds->stderr->0.done()
        },
        next == NextRead::Combined <==> fds is Combined && !fds->combined.done(),
{
}

/// A fresh accumulator holds nothing, asks for every stream that is read, and has
/// the buffers that its readers need.
pub proof fn law_fresh_accumulator_is_empty<O, E, C>(
    fds: ChildFds<O, E, C>,
    acc: ChildAccumulator<O, E, C>,
    next: NextRead,
)
    requires
        call_ensures(ChildAccumulator::<O, E, C>::new, (fds,), acc),
        call_ensures(ChildFds::<O, E, C>::next_read, (&fds,), next),
    ensures
        acc.fds == fds,
        acc.errors@.len() == 0,
        fds is Split <==> acc.output is Split,
        fds is Split ==> {
            &&& fds->stdout is Some <==> acc.output->stdout is Some
            &&& fds->stderr is Some <==> acc.output->stderr is Some
            &&& acc.output->stdout is Some ==> bytes_mut_contents(acc.output->stdout->0).len() == 0
            &&& acc.output->stderr is Some ==> bytes_mut_contents(acc.output->stderr->0).len() == 0
        },
        fds is Combined ==> bytes_mut_contents(acc.output->Combined_0).len() == 0,
        next matches NextRead::Split { stdout, stderr } ==> {
            &&& stdout ==> acc.output is Split && acc.output->stdout is Some
            &&& stderr ==> acc.output is Split && acc.output->stderr is Some
        },
        next == NextRead::Combined ==> acc.output is Combined,
{
}

/// What each strategy captures, what it makes of the child's output, and the pipes
/// that a child started for it has.
pub proof fn law_what_a_strategy_means<P, O, E, C>(started: Started<P, O, E, C>)
    ensures
        forall|stream: Stream| !(#[trigger] CaptureStrategy::NoCapture.captures(stream)),
        forall|stream: Stream| #[trigger]
            CaptureStrategy::Split.captures(stream) <==> stream != Stream::Combined,
        forall|stream: Stream| #[trigger]
            CaptureStrategy::Combined.captures(stream) <==> stream == Stream::Combined,
        CaptureStrategy::NoCapture.output_mode() == OutputMode::Unchanged,
        CaptureStrategy::Split.output_mode() == OutputMode::Piped,
        CaptureStrategy::Combined.output_mode() == OutputMode::SharedPipe,
        CaptureStrategy::NoCapture.fds() == (FdsView::Split { stdout: None, stderr: None }),
        CaptureStrategy::Split.fds() == (FdsView::Split {
            stdout: Some(false),
            stderr: Some(false),
        }),
        CaptureStrategy::Combined.fds() == (FdsView::Combined { combined: false }),
        started.has_pipes_for(CaptureStrategy::NoCapture) <==> started.stdout is None
            && started.stderr is None && started.combined_rx is None,
        started.has_pipes_for(CaptureStrategy::Split) <==> started.stdout is Some
            && started.stderr is Some && started.combined_rx is None,
        started.has_pipes_for(CaptureStrategy::Combined) <==> started.stdout is None
            && started.stderr is None && started.combined_rx is Some,
{
}

// ---- Series ----

/// A series of reads, one read more: the bytes of the one more come last, and the
/// stream takes it after the others.
pub proof fn law_one_more_read(state: StreamView, reads: Seq<ReadView>, read: ReadView)
    ensures
        concat(Seq::empty()).len() == 0,
        concat(reads.push(read)) == match read {
            Ok(bytes) => concat(reads) + bytes,
            Err(_) => concat(reads),
        },
        state.run(Seq::empty()) == state,
        state.run(reads.push(read)) == state.run(reads).step(read),
{
    assert(reads.push(read).drop_last() =~= reads);
    if read is Err {
        assert(concat(reads.push(read)) =~= concat(reads));
    }
}

/// The payload of a series of reads begins with the first, and ends before the
/// first that fails or brings no bytes.
pub proof fn law_payload_begins_with_the_first_read(
    bytes: Seq<u8>,
    error: io::Error,
    reads: Seq<ReadView>,
)
    ensures
        payload(Seq::empty()).len() == 0,
        payload(seq![Ok(bytes)] + reads) == if bytes.len() == 0 {
            Seq::empty()
        } else {
            bytes + payload(reads)
        },
        payload(seq![Err(error)] + reads).len() == 0,
{
    let read: ReadView = Ok(bytes);
    assert((seq![read] + reads).drop_first() =~= reads);
}

/// A series of reads delivers the bytes of its pieces and then the end, or an
/// error: no piece is empty, and the pieces are in order.
pub proof fn law_pieces_are_delivered(pieces: Seq<Seq<u8>>, error: io::Error)
    requires
        forall|i: int| 0 <= i < pieces.len() ==> (#[trigger] pieces[i]).len() > 0,
    ensures
        ({
            let reads = pieces.map_values(|piece: Seq<u8>| Ok::<Seq<u8>, io::Error>(piece));
            &&& delivers(reads.push(Ok(Seq::empty())), pieces.flatten())
            &&& fails(reads.push(Err(error)), pieces.flatten(), error)
        }),
{
    let ok = |piece: Seq<u8>| Ok::<Seq<u8>, io::Error>(piece);
    let reads = pieces.map_values(ok);
    lemma_concat_pieces(pieces);
    assert forall|i: int| 0 <= i < reads.len() implies !is_last(#[trigger] reads[i]) by {
        assert(pieces[i].len() > 0);
    }
    law_one_more_read(StreamView::fresh(), reads, Ok(Seq::empty()));
    law_one_more_read(StreamView::fresh(), reads, Err(error));
    assert(concat(reads) + Seq::<u8>::empty() =~= concat(reads));
}

/// The bytes of successful reads are the pieces in order.
proof fn lemma_concat_pieces(pieces: Seq<Seq<u8>>)
    ensures
        concat(pieces.map_values(|piece: Seq<u8>| Ok::<Seq<u8>, io::Error>(piece)))
            == pieces.flatten(),
    decreases pieces.len(),
{
    let ok = |piece: Seq<u8>| Ok::<Seq<u8>, io::Error>(piece);
    let reads = pieces.map_values(ok);
    pieces.lemma_flatten_and_flatten_alt_are_equivalent();
    if pieces.len() > 0 {
        let before = pieces.drop_last();
        lemma_concat_pieces(before);
        before.lemma_flatten_and_flatten_alt_are_equivalent();
        assert(reads.drop_last() =~= before.map_values(ok));
    }
}

/// A series of events, one event more: the read of the one more comes last among
/// the reads of its stream and is none of another, its error comes last, its bytes
/// are counted, and it is taken in after the others.
pub proof fn law_one_more_event(
    acc: AccumulatorView,
    fds: FdsView,
    output: OutputView,
    events: Seq<EventView>,
    stream: Stream,
    read: ReadView,
)
    ensures
        ({
            let more = events.push(EventView::Read { stream, read });
            &&& reads_of(more, stream) == reads_of(events, stream).push(read)
            &&& forall|other: Stream|
                other != stream ==> #[trigger] reads_of(more, other) == reads_of(events, other)
            &&& errors_of(more) == match read {
                Ok(_) => errors_of(events),
                Err(error) => errors_of(events).push(FdErrorView { stream, error }),
            }
            &&& taken_of(more) == taken_of(events) + match read {
                Ok(bytes) => bytes.len(),
                Err(_) => 0,
            }
            &&& acc.run(more) == acc.run(events).step(EventView::Read { stream, read })
            &&& acc.admits_all(more) <==> acc.admits_all(events) && acc.run(
                events,
            ).capture.is_open(stream)
            &&& fill_all(fds, output, more) == fill(
                fill_all(fds, output, events).0,
                fill_all(fds, output, events).1,
                EventView::Read { stream, read },
            )
            &&& admits_fills(fds, output, more) <==> admits_fills(fds, output, events) && fill_all(
                fds,
                output,
                events,
            ).0.is_open(stream)
        }),
        reads_of(Seq::empty(), stream).len() == 0,
        errors_of(Seq::empty()).len() == 0,
        taken_of(Seq::empty()) == 0,
        acc.run(Seq::empty()) == acc,
        acc.admits_all(Seq::empty()),
        fill_all(fds, output, Seq::empty()) == (fds, output),
        admits_fills(fds, output, Seq::empty()),
{
    let more = events.push(EventView::Read { stream, read });
    assert(more.drop_last() =~= events);
}

} // verus!
