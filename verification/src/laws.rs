//! What holds of a capture as a whole, whatever the order in which its reads
//! finish.
use bytes::BytesMut;
use std::io;
use vstd::prelude::*;
use crate::errors::{FdErrorView, Stream};
use crate::fused::{stream_view, takes_in, FusedBufReader, CHUNK_SIZE};
use crate::model::{
    admits_fills, can_fill, capture, chunk, concat, delivers, empty_output, errors_of, fails,
    fill, fill_all, is_last, is_whole, lemma_fill_is_step, payload, reads_of, same_shape, taken_of,
    AccumulatorView, EventView, FdsView, OutputView, ReadView, StreamView,
};
use crate::output::{ChildOutput, ChildOutputMut};
use crate::spawn::{CaptureStrategy, OutputMode};

verus! {

/// Whether one of `reads` is the last of its stream.
pub open spec fn has_ended(reads: Seq<ReadView>) -> bool {
    exists|i: int| 0 <= i < reads.len() && is_last(#[trigger] reads[i])
}

/// The payload of a series of reads, one read more.
proof fn lemma_payload_push(reads: Seq<ReadView>, read: ReadView)
    ensures
        payload(reads.push(read)) == if has_ended(reads) || is_last(read) {
            payload(reads)
        } else {
            payload(reads) + read->Ok_0
        },
    decreases reads.len(),
{
    let more = reads.push(read);
    if reads.len() == 0 {
        assert(more.drop_first() =~= Seq::<ReadView>::empty());
        assert(payload(more.drop_first()) =~= Seq::<u8>::empty());
        if !is_last(read) {
            assert(payload(more) =~= payload(reads) + read->Ok_0);
        }
    } else {
        assert(more[0] == reads[0]);
        if is_last(reads[0]) {
        } else {
            let rest = reads.drop_first();
            assert(more.drop_first() =~= rest.push(read));
            lemma_payload_push(rest, read);
            if has_ended(reads) {
                let i = choose|i: int| 0 <= i < reads.len() && is_last(#[trigger] reads[i]);
                assert(rest[i - 1] == reads[i]);
            }
            if has_ended(rest) {
                let i = choose|i: int| 0 <= i < rest.len() && is_last(#[trigger] rest[i]);
                assert(reads[i + 1] == rest[i]);
            }
            assert(payload(more) =~= if has_ended(reads) || is_last(read) {
                payload(reads)
            } else {
                payload(reads) + read->Ok_0
            });
        }
    }
}

/// A stream that has ended takes no more, whatever is read.
pub proof fn law_ended_stream_stays(state: StreamView, reads: Seq<ReadView>)
    requires
        state.done,
    ensures
        state.run(reads) == state,
    decreases reads.len(),
{
    if reads.len() > 0 {
        law_ended_stream_stays(state, reads.drop_last());
    }
}

/// A stream that is open collects every byte that is read before its end or an
/// error, once and in order, and ends with that read.
pub proof fn law_stream_collects_payload(state: StreamView, reads: Seq<ReadView>)
    requires
        !state.done,
    ensures
        state.run(reads) == (StreamView {
            bytes: state.bytes + payload(reads),
            done: has_ended(reads),
        }),
    decreases reads.len(),
{
    if reads.len() == 0 {
        assert(state.bytes + payload(reads) =~= state.bytes);
    } else {
        let before = reads.drop_last();
        let last = reads.last();
        law_stream_collects_payload(state, before);
        assert(reads =~= before.push(last));
        lemma_payload_push(before, last);
        if has_ended(before) {
            let i = choose|i: int| 0 <= i < before.len() && is_last(#[trigger] before[i]);
            assert(reads[i] == before[i]);
        }
        if is_last(last) {
            assert(is_last(reads[reads.len() - 1]));
        }
        if has_ended(reads) {
            let i = choose|i: int| 0 <= i < reads.len() && is_last(#[trigger] reads[i]);
            if i < before.len() {
                assert(before[i] == reads[i]);
            }
        }
        assert(state.run(reads).bytes =~= state.bytes + payload(reads));
    }
}

/// A stream that was open is done exactly if one of its reads brought the end of
/// the stream or an error.
pub proof fn law_done_means_ended(state: StreamView, reads: Seq<ReadView>)
    requires
        !state.done,
    ensures
        state.run(reads).done <==> has_ended(reads),
{
    law_stream_collects_payload(state, reads);
}

/// What one read does to a stream: one that is done stays done, what was
/// collected stays in front, and the stream grows by what is taken. It grows only
/// with a read that succeeds and leaves it open, and by no more than
/// [`CHUNK_SIZE`] if the reader's buffer holds no more.
pub proof fn law_read_grows_stream(state: StreamView, read: ReadView)
    ensures
        state.done ==> state.step(read).done,
        state.bytes.is_prefix_of(state.step(read).bytes),
        state.step(read).bytes.len() - state.bytes.len() == match state.outcome(read) {
            Ok(taken) => taken as int,
            Err(_) => 0int,
        },
        state.step(read).bytes.len() > state.bytes.len() ==> {
            &&& state.outcome(read) is Ok
            &&& !state.step(read).done
        },
        chunk(read).len() <= CHUNK_SIZE ==> state.step(read).bytes.len() - state.bytes.len()
            <= CHUNK_SIZE,
{
}

/// The stream after a series of reads, taken up in the middle.
proof fn lemma_run_from(state: StreamView, reads: Seq<ReadView>, i: int)
    requires
        0 <= i <= reads.len(),
    ensures
        state.run(reads) == state.run(reads.take(i)).run(reads.skip(i)),
    decreases reads.len(),
{
    if i == reads.len() {
        assert(reads.take(i) =~= reads);
        assert(reads.skip(i).len() == 0);
    } else {
        let before = reads.drop_last();
        lemma_run_from(state, before, i);
        assert(before.take(i) =~= reads.take(i));
        assert(before.skip(i) =~= reads.skip(i).drop_last());
        assert(reads.skip(i).last() == reads.last());
    }
}

/// Once a read has failed, nothing is taken in any more.
proof fn lemma_nothing_after_failure(state: StreamView, reads: Seq<ReadView>, i: int, j: int)
    requires
        0 <= i < j < reads.len(),
        state.outcome_at(reads, i) is Err,
    ensures
        state.outcome_at(reads, j) == Ok::<nat, io::Error>(0),
        state.run(reads.take(j + 1)) == state.run(reads.take(i + 1)),
{
    let failed = state.run(reads.take(i + 1));
    assert(reads.take(i + 1).drop_last() =~= reads.take(i));
    assert(failed.done);
    assert(reads.take(j).take(i + 1) =~= reads.take(i + 1));
    assert(reads.take(j + 1).take(i + 1) =~= reads.take(i + 1));
    lemma_run_from(state, reads.take(j), i + 1);
    lemma_run_from(state, reads.take(j + 1), i + 1);
    law_ended_stream_stays(failed, reads.take(j).skip(i + 1));
    law_ended_stream_stays(failed, reads.take(j + 1).skip(i + 1));
}

/// Of all the reads that a reader takes in, at most one returns an error. Every
/// later one returns that nothing was taken, and adds nothing.
pub proof fn law_at_most_one_failure(state: StreamView, reads: Seq<ReadView>, i: int)
    requires
        0 <= i < reads.len(),
        state.outcome_at(reads, i) is Err,
    ensures
        forall|j: int|
            0 <= j < reads.len() && j != i ==> (#[trigger] state.outcome_at(reads, j)) is Ok,
        forall|j: int|
            i < j < reads.len() ==> {
                &&& #[trigger] state.outcome_at(reads, j) == Ok::<nat, io::Error>(0)
                &&& state.run(reads.take(j + 1)) == state.run(reads.take(i + 1))
            },
{
    assert forall|j: int| i < j < reads.len() implies {
        &&& #[trigger] state.outcome_at(reads, j) == Ok::<nat, io::Error>(0)
        &&& state.run(reads.take(j + 1)) == state.run(reads.take(i + 1))
    } by {
        lemma_nothing_after_failure(state, reads, i, j);
    }
    assert forall|j: int| 0 <= j < reads.len() && j != i implies (#[trigger] state.outcome_at(
        reads,
        j,
    )) is Ok by {
        if j < i && state.outcome_at(reads, j) is Err {
            lemma_nothing_after_failure(state, reads, j, i);
        }
    }
}

/// A stream that is read while it is open adds all that is read.
proof fn lemma_open_stream_adds_all(state: StreamView, reads: Seq<ReadView>)
    requires
        !state.done,
        forall|i: int| 0 <= i < reads.len() - 1 ==> !is_last(#[trigger] reads[i]),
    ensures
        state.run(reads) == (StreamView {
            bytes: state.bytes + concat(reads),
            done: reads.len() > 0 && is_last(reads.last()),
        }),
    decreases reads.len(),
{
    if reads.len() == 0 {
        assert(state.bytes + concat(reads) =~= state.bytes);
    } else {
        let before = reads.drop_last();
        assert forall|i: int| 0 <= i < before.len() implies !is_last(#[trigger] before[i]) by {
            assert(before[i] == reads[i]);
        }
        lemma_open_stream_adds_all(state, before);
        assert(state.run(reads).bytes =~= state.bytes + concat(reads));
    }
}

/// A reader that delivers `bytes`, in pieces of any size, and then the end of the
/// stream: every read succeeds, the reader is done after the last one and not
/// before, and each byte is behind those that were there, once and in order.
pub proof fn law_delivered_bytes_are_collected(
    state: StreamView,
    reads: Seq<ReadView>,
    bytes: Seq<u8>,
)
    requires
        !state.done,
        delivers(reads, bytes),
    ensures
        state.run(reads) == (StreamView { bytes: state.bytes + bytes, done: true }),
        forall|i: int| 0 <= i < reads.len() ==> !(#[trigger] state.run(reads.take(i))).done,
        forall|i: int| 0 <= i < reads.len() ==> (#[trigger] state.outcome_at(reads, i)) is Ok,
{
    lemma_open_stream_adds_all(state, reads);
    assert forall|i: int| 0 <= i < reads.len() implies !(#[trigger] state.run(
        reads.take(i),
    )).done by {
        lemma_open_stream_adds_all(state, reads.take(i));
    }
    assert forall|i: int| 0 <= i < reads.len() implies (#[trigger] state.outcome_at(
        reads,
        i,
    )) is Ok by {
        if i < reads.len() - 1 {
            assert(!is_last(reads[i]));
        }
    }
}

/// What taking in a read does is determined: from the same reader, buffer and
/// read, two ways of taking it in leave the same reader, as done, with the same
/// bytes, and return the same. A reader that may be missing is thus filled, where
/// it is there, as any other.
pub proof fn law_taking_in_is_determined<R>(
    before: FusedBufReader<R>,
    acc: BytesMut,
    res: Result<&[u8], io::Error>,
    one: (FusedBufReader<R>, BytesMut, Result<usize, io::Error>),
    other: (FusedBufReader<R>, BytesMut, Result<usize, io::Error>),
)
    requires
        takes_in(before, acc, res, one.0, one.1, one.2),
        takes_in(before, acc, res, other.0, other.1, other.2),
    ensures
        one.2 == other.2,
        one.0.reader() == other.0.reader(),
        stream_view(one.0, one.1) == stream_view(other.0, other.1),
{
}

/// The streams of a capture are independent: what becomes of one is what the
/// reads of that one make of it, however they are mixed with those of another.
/// None is added, and none is lost.
pub proof fn law_streams_are_independent(
    acc: AccumulatorView,
    events: Seq<EventView>,
    stream: Stream,
)
    ensures
        acc.run(events).capture.get(stream) == match acc.capture.get(stream) {
            Some(state) => Some(state.run(reads_of(events, stream))),
            None => None,
        },
        acc.run(events).capture is Split <==> acc.capture is Split,
    decreases events.len(),
{
    if events.len() > 0 {
        let before = events.drop_last();
        law_streams_are_independent(acc, before, stream);
        match events.last() {
            EventView::Read { stream: s, read } => {
                law_streams_are_independent(acc, before, s);
                if s == stream {
                    let reads = reads_of(before, stream);
                    assert(reads_of(events, stream).drop_last() =~= reads);
                }
            },
            EventView::Idle => {},
        }
    }
}

/// Reading from the start: each stream that is read holds what was read of it up
/// to its end or an error, and no other stream holds anything.
pub proof fn law_capture_collects_payload(fds: FdsView, events: Seq<EventView>, stream: Stream)
    requires
        fds.is_fresh(),
    ensures
        AccumulatorView::start(fds).run(events).capture.get(stream) == if fds.get(
            stream,
        ) is Some {
            Some(
                StreamView {
                    bytes: payload(reads_of(events, stream)),
                    done: has_ended(reads_of(events, stream)),
                },
            )
        } else {
            None
        },
{
    let start = AccumulatorView::start(fds);
    let reads = reads_of(events, stream);
    law_streams_are_independent(start, events, stream);
    if fds.get(stream) is Some {
        assert(start.capture.get(stream) == Some(StreamView::fresh()));
        law_stream_collects_payload(StreamView::fresh(), reads);
        assert(Seq::<u8>::empty() + payload(reads) =~= payload(reads));
    }
}

/// Whatever is read of a stream that is waited for is behind what was collected
/// of it before.
proof fn lemma_reads_are_added(acc: AccumulatorView, events: Seq<EventView>, stream: Stream)
    requires
        acc.admits_all(events),
    ensures
        acc.capture.get(stream) is None ==> reads_of(events, stream).len() == 0,
        acc.capture.get(stream) matches Some(state) ==> {
            &&& acc.run(events).capture.get(stream) is Some
            &&& acc.run(events).capture.get(stream)->0.bytes == state.bytes + concat(
                reads_of(events, stream),
            )
        },
    decreases events.len(),
{
    if events.len() == 0 {
        if let Some(state) = acc.capture.get(stream) {
            assert(state.bytes + concat(reads_of(events, stream)) =~= state.bytes);
        }
    } else {
        let before = events.drop_last();
        lemma_reads_are_added(acc, before, stream);
        law_streams_are_independent(acc, before, stream);
        match events.last() {
            EventView::Read { stream: s, read } => {
                law_streams_are_independent(acc, before, s);
                if s == stream {
                    let reads = reads_of(events, stream);
                    assert(reads.drop_last() =~= reads_of(before, stream));
                    assert(acc.run(events).capture.get(stream)->0.bytes
                        =~= acc.capture.get(stream)->0.bytes + concat(reads));
                }
            },
            EventView::Idle => {},
        }
    }
}

/// A series of fills is a series of steps of the capture, one is admitted where
/// the other is, and the streams that are read stay those that are collected:
/// separate streams stay separate, a combined one stays combined, and none is
/// added or dropped. No fill can thus find its buffer missing.
pub proof fn law_fills_keep_shape(
    fds: FdsView,
    output: OutputView,
    errors: Seq<FdErrorView>,
    events: Seq<EventView>,
)
    requires
        same_shape(fds, output),
        admits_fills(fds, output, events),
    ensures
        ({
            let acc = AccumulatorView { capture: capture(fds, output), errors };
            let (new_fds, new_output) = fill_all(fds, output, events);
            &&& acc.admits_all(events)
            &&& acc.run(events).capture == capture(new_fds, new_output)
            &&& same_shape(new_fds, new_output)
            &&& can_fill(new_fds, new_output)
            &&& new_fds is Combined <==> fds is Combined
            &&& forall|stream: Stream| #[trigger]
                new_fds.get(stream) is Some <==> fds.get(stream) is Some
            &&& forall|stream: Stream| #[trigger]
                new_output.get(stream) is Some <==> fds.get(stream) is Some
        }),
    decreases events.len(),
{
    if events.len() == 0 {
        lemma_fill_is_step(fds, output, EventView::Idle);
    } else {
        let before = events.drop_last();
        law_fills_keep_shape(fds, output, errors, before);
        let (mid_fds, mid_output) = fill_all(fds, output, before);
        lemma_fill_is_step(mid_fds, mid_output, events.last());
        let (new_fds, new_output) = fill_all(fds, output, events);
        assert((new_fds, new_output) == fill(mid_fds, mid_output, events.last()));
        lemma_fill_is_step(new_fds, new_output, EventView::Idle);
        assert forall|stream: Stream| #[trigger] new_fds.get(stream) is Some <==> fds.get(
            stream,
        ) is Some by {
            assert(mid_fds.get(stream) is Some <==> fds.get(stream) is Some);
        }
        assert forall|stream: Stream| #[trigger] new_output.get(stream) is Some <==> fds.get(
            stream,
        ) is Some by {
            assert(mid_output.get(stream) is Some <==> fds.get(stream) is Some);
        }
    }
}

/// What has been collected is the beginning of what is collected later, and the
/// errors so far are the beginning of the errors later: to each stream is added
/// all that is read of it in between, and to the errors all that reading brings.
/// A snapshot thus agrees with a later one on what it holds. If nothing happens in
/// between, the two hold the same.
pub proof fn law_snapshot_is_a_beginning(
    fds: FdsView,
    output: OutputView,
    errors: Seq<FdErrorView>,
    events: Seq<EventView>,
)
    requires
        same_shape(fds, output),
        admits_fills(fds, output, events),
    ensures
        ({
            let acc = AccumulatorView { capture: capture(fds, output), errors };
            let later = fill_all(fds, output, events).1;
            &&& later is Combined <==> output is Combined
            &&& forall|stream: Stream| #[trigger]
                later.get(stream) == match output.get(stream) {
                    Some(bytes) => Some(bytes + concat(reads_of(events, stream))),
                    None => None,
                }
            &&& acc.run(events).errors == errors + errors_of(events)
            &&& events.len() == 0 ==> later == output && acc.run(events).errors == errors
        }),
{
    let acc = AccumulatorView { capture: capture(fds, output), errors };
    let (new_fds, later) = fill_all(fds, output, events);
    law_fills_keep_shape(fds, output, errors, events);
    law_errors_are_kept(acc, events);
    assert forall|stream: Stream| #[trigger] later.get(stream) == match output.get(stream) {
        Some(bytes) => Some(bytes + concat(reads_of(events, stream))),
        None => None,
    } by {
        lemma_reads_are_added(acc, events, stream);
        law_capture_holds_output(fds, output, stream);
        law_capture_holds_output(new_fds, later, stream);
    }
}

/// A snapshot is a value of its own: whatever is collected afterwards, it holds
/// what was collected when it was made, and what is collected then comes behind
/// that.
pub proof fn law_snapshot_is_unaffected(
    out: ChildOutputMut,
    snapshot: ChildOutput,
    fds: FdsView,
    events: Seq<EventView>,
    later: ChildOutputMut,
)
    requires
        call_ensures(ChildOutputMut::snapshot, (&out,), snapshot),
        same_shape(fds, out@),
        admits_fills(fds, out@, events),
        later@ == fill_all(fds, out@, events).1,
    ensures
        snapshot@ == out@,
        forall|stream: Stream| #[trigger]
            later@.get(stream) == match snapshot@.get(stream) {
                Some(bytes) => Some(bytes + concat(reads_of(events, stream))),
                None => None,
            },
{
    law_snapshot_is_a_beginning(fds, out@, Seq::empty(), events);
}

/// Freezing the output gives what a snapshot of it gives: the same streams,
/// separate or combined, with the same bytes.
pub proof fn law_freeze_is_snapshot(out: ChildOutputMut, snapshot: ChildOutput, frozen: ChildOutput)
    requires
        call_ensures(ChildOutputMut::snapshot, (&out,), snapshot),
        call_ensures(ChildOutputMut::freeze, (out,), frozen),
    ensures
        frozen@ == snapshot@,
        frozen is Combined <==> snapshot is Combined,
{
}

/// The errors among `reads` of `stream`, in order.
pub open spec fn read_errors(reads: Seq<ReadView>, stream: Stream) -> Seq<FdErrorView>
    decreases reads.len(),
{
    if reads.len() == 0 {
        Seq::empty()
    } else {
        let before = read_errors(reads.drop_last(), stream);
        match reads.last() {
            Ok(_) => before,
            Err(error) => before.push(FdErrorView { stream, error }),
        }
    }
}

/// Where all streams but one bring no error, the errors are those of that one.
proof fn lemma_errors_of_one_stream(events: Seq<EventView>, stream: Stream)
    requires
        forall|other: Stream|
            other != stream ==> #[trigger] read_errors(reads_of(events, other), other).len() == 0,
    ensures
        errors_of(events) == read_errors(reads_of(events, stream), stream),
    decreases events.len(),
{
    if events.len() > 0 {
        let before = events.drop_last();
        if let EventView::Read { stream: s, .. } = events.last() {
            assert(reads_of(events, s).drop_last() =~= reads_of(before, s));
        }
        assert forall|other: Stream| other != stream implies #[trigger] read_errors(
            reads_of(before, other),
            other,
        ).len() == 0 by {
            assert(read_errors(reads_of(events, other), other).len() == 0);
        }
        lemma_errors_of_one_stream(before, stream);
        if let EventView::Read { stream: s, .. } = events.last() {
            if s != stream {
                assert(read_errors(reads_of(events, s), s).len() == 0);
            }
        }
    }
}

/// Reads of which all but perhaps the last succeed bring the error of the last.
proof fn lemma_errors_of_whole_stream(reads: Seq<ReadView>, stream: Stream)
    requires
        forall|i: int| 0 <= i < reads.len() - 1 ==> !is_last(#[trigger] reads[i]),
    ensures
        read_errors(reads, stream) == if reads.len() > 0 && reads.last() is Err {
            seq![FdErrorView { stream, error: reads.last()->Err_0 }]
        } else {
            Seq::empty()
        },
    decreases reads.len(),
{
    if reads.len() > 0 {
        let before = reads.drop_last();
        assert forall|i: int| 0 <= i < before.len() implies !is_last(#[trigger] before[i]) by {
            assert(before[i] == reads[i]);
        }
        lemma_errors_of_whole_stream(before, stream);
        assert(read_errors(before, stream) =~= Seq::<FdErrorView>::empty());
        if let Err(error) = reads.last() {
            assert(read_errors(reads, stream) =~= seq![FdErrorView { stream, error }]);
        }
    }
}

/// Events bring no error if none is among the errors that they bring.
proof fn lemma_no_errors(events: Seq<EventView>)
    requires
        errors_of(events).len() == 0,
    ensures
        forall|i: int| 0 <= i < events.len() ==> (#[trigger] events[i]).error() is None,
    decreases events.len(),
{
    if events.len() > 0 {
        let before = events.drop_last();
        lemma_no_errors(before);
        assert forall|i: int| 0 <= i < events.len() implies (#[trigger] events[i]).error() is None by {
            if i < before.len() {
                assert(events[i] == before[i]);
            }
        }
    }
}

/// What is collected of a stream that is read to its last read.
proof fn lemma_whole_stream_is_collected(
    fds: FdsView,
    events: Seq<EventView>,
    stream: Stream,
    bytes: Seq<u8>,
)
    requires
        fds.is_fresh(),
        fds.get(stream) is Some,
        admits_fills(fds, empty_output(fds), events),
        is_whole(reads_of(events, stream), bytes),
    ensures
        fill_all(fds, empty_output(fds), events).0.get(stream) == Some(true),
        fill_all(fds, empty_output(fds), events).1.get(stream) == Some(bytes),
{
    let start = AccumulatorView::start(fds);
    let reads = reads_of(events, stream);
    let (new_fds, new_output) = fill_all(fds, empty_output(fds), events);
    law_fills_keep_shape(fds, empty_output(fds), Seq::empty(), events);
    law_streams_are_independent(start, events, stream);
    assert(start.capture.get(stream) == Some(StreamView::fresh()));
    lemma_open_stream_adds_all(StreamView::fresh(), reads);
    assert(Seq::<u8>::empty() + bytes =~= bytes);
    assert(capture(new_fds, new_output).get(stream) == Some(StreamView { bytes, done: true }));
}

/// Reading from the start, while every stream that is read delivers its bytes and
/// then its end: in whatever order the reads finish, every one succeeds, there is
/// no error, all streams end, and the output holds exactly the bytes of each
/// stream that is read, in order, and nothing of any other.
pub proof fn law_clean_capture_is_complete(
    fds: FdsView,
    events: Seq<EventView>,
    bytes: spec_fn(Stream) -> Seq<u8>,
)
    requires
        fds.is_fresh(),
        admits_fills(fds, empty_output(fds), events),
        forall|stream: Stream| (#[trigger]
            fds.get(stream)) is Some ==> delivers(reads_of(events, stream), bytes(stream)),
    ensures
        ({
            let (new_fds, output) = fill_all(fds, empty_output(fds), events);
            &&& new_fds.is_done()
            &&& output is Combined <==> fds is Combined
            &&& forall|stream: Stream| #[trigger]
                output.get(stream) == if fds.get(stream) is Some {
                    Some(bytes(stream))
                } else {
                    None
                }
        }),
        AccumulatorView::start(fds).run(events).errors.len() == 0,
        forall|i: int| 0 <= i < events.len() ==> (#[trigger] events[i]).error() is None,
{
    let start = AccumulatorView::start(fds);
    let (new_fds, output) = fill_all(fds, empty_output(fds), events);
    law_fills_keep_shape(fds, empty_output(fds), Seq::empty(), events);
    assert forall|stream: Stream| #[trigger] output.get(stream) == if fds.get(stream) is Some {
        Some(bytes(stream))
    } else {
        None
    } by {
        if fds.get(stream) is Some {
            lemma_whole_stream_is_collected(fds, events, stream, bytes(stream));
        }
    }
    assert forall|stream: Stream| !#[trigger] new_fds.is_open(stream) by {
        assert(new_fds.get(stream) is Some <==> fds.get(stream) is Some);
        if fds.get(stream) is Some {
            lemma_whole_stream_is_collected(fds, events, stream, bytes(stream));
        }
    }
    assert forall|stream: Stream| true implies #[trigger] read_errors(
        reads_of(events, stream),
        stream,
    ).len() == 0 by {
        if fds.get(stream) is None {
            lemma_reads_are_added(start, events, stream);
        }
        lemma_errors_of_whole_stream(reads_of(events, stream), stream);
    }
    lemma_errors_of_one_stream(events, Stream::Stdout);
    assert(read_errors(reads_of(events, Stream::Stdout), Stream::Stdout).len() == 0);
    lemma_no_errors(events);
    law_errors_are_kept(start, events);
}

/// Where one of two separate streams fails and the other delivers its end, the
/// failed one keeps what was read of it before, the other is read to its end, and
/// the only error is that of the failed one.
pub proof fn law_failed_stream_spares_the_other(
    failed: Stream,
    events: Seq<EventView>,
    failed_bytes: Seq<u8>,
    error: io::Error,
    other_bytes: Seq<u8>,
)
    requires
        failed != Stream::Combined,
        ({
            let fds = CaptureStrategy::Split.fds();
            let other = if failed == Stream::Stdout { Stream::Stderr } else { Stream::Stdout };
            &&& admits_fills(fds, empty_output(fds), events)
            &&& fails(reads_of(events, failed), failed_bytes, error)
            &&& delivers(reads_of(events, other), other_bytes)
        }),
    ensures
        ({
            let fds = CaptureStrategy::Split.fds();
            let (new_fds, output) = fill_all(fds, empty_output(fds), events);
            &&& new_fds.is_done()
            &&& output == if failed == Stream::Stdout {
                OutputView::Split { stdout: Some(failed_bytes), stderr: Some(other_bytes) }
            } else {
                OutputView::Split { stdout: Some(other_bytes), stderr: Some(failed_bytes) }
            }
            &&& AccumulatorView::start(fds).run(events).errors == seq![
                FdErrorView { stream: failed, error },
            ]
        }),
{
    let fds = CaptureStrategy::Split.fds();
    let start = AccumulatorView::start(fds);
    let other = if failed == Stream::Stdout { Stream::Stderr } else { Stream::Stdout };
    let (new_fds, output) = fill_all(fds, empty_output(fds), events);
    law_fills_keep_shape(fds, empty_output(fds), Seq::empty(), events);
    lemma_whole_stream_is_collected(fds, events, failed, failed_bytes);
    lemma_whole_stream_is_collected(fds, events, other, other_bytes);
    lemma_reads_are_added(start, events, Stream::Combined);
    lemma_errors_of_whole_stream(reads_of(events, failed), failed);
    lemma_errors_of_whole_stream(reads_of(events, other), other);
    assert(reads_of(events, Stream::Combined) =~= Seq::empty());
    lemma_errors_of_one_stream(events, failed);
    law_errors_are_kept(start, events);
    assert(start.run(events).errors =~= seq![FdErrorView { stream: failed, error }]);
}

/// What is piped is what is read: separate pipes are read separately, a shared
/// one as one, and where nothing is piped there is nothing to wait for.
pub proof fn law_piped_is_read(strategy: CaptureStrategy)
    ensures
        strategy.output_mode() == OutputMode::Piped <==> strategy.fds().is_open(Stream::Stdout)
            && strategy.fds().is_open(Stream::Stderr),
        strategy.output_mode() == OutputMode::SharedPipe <==> strategy.fds().is_open(
            Stream::Combined,
        ),
        strategy.output_mode() == OutputMode::Unchanged <==> strategy.fds().is_done(),
        strategy.fds().is_fresh(),
        forall|stream: Stream| #[trigger]
            strategy.captures(stream) <==> strategy.fds().get(stream) is Some,
{
}

/// Where exactly the streams that are read are collected, the bytes that a
/// capture holds of a stream are those that its output holds.
pub proof fn law_capture_holds_output(fds: FdsView, output: OutputView, stream: Stream)
    requires
        same_shape(fds, output),
    ensures
        output.get(stream) == match capture(fds, output).get(stream) {
            Some(state) => Some(state.bytes),
            None => None,
        },
{
}

/// What has been collected of a stream stays: it is the beginning of whatever is
/// collected later. A snapshot is thus a beginning of the final output.
pub proof fn law_collected_bytes_stay(acc: AccumulatorView, events: Seq<EventView>, stream: Stream)
    requires
        acc.capture.get(stream) is Some,
    ensures
        acc.run(events).capture.get(stream) is Some,
        acc.capture.get(stream)->0.bytes.is_prefix_of(
            acc.run(events).capture.get(stream)->0.bytes,
        ),
        acc.capture.get(stream)->0.done ==> acc.run(events).capture.get(stream)
            == acc.capture.get(stream),
{
    let state = acc.capture.get(stream)->0;
    let reads = reads_of(events, stream);
    law_streams_are_independent(acc, events, stream);
    if state.done {
        law_ended_stream_stays(state, reads);
    } else {
        law_stream_collects_payload(state, reads);
    }
}

/// Every event that comes of waiting makes progress: it adds bytes, or ends a
/// stream that was open, or comes because all of them have ended. It ends no
/// stream but its own, and opens none.
pub proof fn law_event_makes_progress(acc: AccumulatorView, event: EventView)
    requires
        acc.capture.admits(event),
    ensures
        match event {
            EventView::Read { stream, read } => {
                &&& acc.capture.is_open(stream)
                &&& acc.step(event).capture.is_open(stream) <==> !is_last(read)
                &&& !is_last(read) ==> acc.step(event).capture.len() > acc.capture.len()
                &&& forall|other: Stream|
                    other != stream ==> #[trigger] acc.step(event).capture.get(other)
                        == acc.capture.get(other)
            },
            EventView::Idle => acc.capture.is_done() && acc.step(event) == acc,
        },
{
}

/// Once every stream has ended there is nothing left to wait for, and nothing
/// changes any more.
pub proof fn law_done_is_final(acc: AccumulatorView, events: Seq<EventView>)
    requires
        acc.capture.is_done(),
        acc.admits_all(events),
    ensures
        acc.run(events) == acc,
        forall|i: int| 0 <= i < events.len() ==> #[trigger] events[i] is Idle,
    decreases events.len(),
{
    if events.len() > 0 {
        let before = events.drop_last();
        law_done_is_final(acc, before);
        assert(acc.capture.admits(events.last()));
        assert forall|i: int| 0 <= i < events.len() implies #[trigger] events[i] is Idle by {
            if i < before.len() {
                assert(events[i] == before[i]);
            }
        }
    }
}

/// The bytes that are taken out of the readers are those that are collected:
/// none is lost, and none is collected twice.
pub proof fn law_taken_is_collected(acc: AccumulatorView, events: Seq<EventView>)
    requires
        acc.admits_all(events),
    ensures
        acc.run(events).capture.len() == acc.capture.len() + taken_of(events),
    decreases events.len(),
{
    if events.len() > 0 {
        law_taken_is_collected(acc, events.drop_last());
    }
}

/// Every error that reading brings is kept, in the order in which it came.
pub proof fn law_errors_are_kept(acc: AccumulatorView, events: Seq<EventView>)
    ensures
        acc.run(events).errors == acc.errors + errors_of(events),
    decreases events.len(),
{
    if events.len() == 0 {
        assert(acc.errors + errors_of(events) =~= acc.errors);
    } else {
        law_errors_are_kept(acc, events.drop_last());
        assert(acc.run(events).errors =~= acc.errors + errors_of(events));
    }
}

/// A stream brings at most one error, and has then ended. Separate streams bring at
/// most one error each and none of a combined stream; a combined stream brings at
/// most one error, its own.
pub proof fn law_one_error_per_stream(acc: AccumulatorView, events: Seq<EventView>)
    requires
        acc.errors.len() == 0,
        acc.admits_all(events),
    ensures
        ({
            let after = acc.run(events);
            &&& forall|i: int|
                0 <= i < after.errors.len() ==> after.capture.has_ended(
                    (#[trigger] after.errors[i]).stream,
                )
            &&& forall|i: int, j: int|
                0 <= i < j < after.errors.len() ==> (#[trigger] after.errors[i]).stream != (
                #[trigger] after.errors[j]).stream
            &&& forall|i: int|
                0 <= i < after.errors.len() ==> ((#[trigger] after.errors[i]).stream
                    == Stream::Combined <==> acc.capture is Combined)
            &&& after.errors.len() <= if acc.capture is Combined { 1int } else { 2int }
        }),
    decreases events.len(),
{
    law_streams_are_independent(acc, events, Stream::Combined);
    if events.len() > 0 {
        law_one_error_per_stream(acc, events.drop_last());
        let after = acc.run(events);
        assert forall|i: int| 0 <= i < after.errors.len() implies ((
        #[trigger] after.errors[i]).stream == Stream::Combined <==> acc.capture is Combined) by {
            assert(after.capture.has_ended(after.errors[i].stream));
        }
        if after.errors.len() > 1 {
            assert(after.errors[0].stream != after.errors[1].stream);
        }
        if after.errors.len() > 2 {
            assert(after.errors[0].stream != after.errors[2].stream);
            assert(after.errors[1].stream != after.errors[2].stream);
        }
    }
}

} // verus!
