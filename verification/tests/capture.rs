use bytes::BytesMut;
use std::io;
use std::sync::Arc;
use test_command::fused::{fill_buf_opt, is_done_opt};
use test_command::spawn::{plan_stdio, spawn, OutputMode, StdinMode, StdioPlan};
use test_command::{
    CaptureStrategy, Child, ChildAccumulator, ChildExecutionOutput, ChildFdError, ChildFds,
    ChildOutput, ChildOutputMut, FusedBufReader, NextRead, ReadEvent, Started, Stream, CHUNK_SIZE,
};

type Accumulator = ChildAccumulator<&'static str, &'static str, &'static str>;

fn split() -> Accumulator {
    ChildAccumulator::new(ChildFds::new_split(Some("out"), Some("err")))
}

fn combined() -> Accumulator {
    ChildAccumulator::new(ChildFds::new_combined("rx"))
}

fn data(stream: Stream, bytes: &[u8]) -> ReadEvent<'_> {
    ReadEvent::Read { stream, res: Ok(bytes) }
}

fn failure(stream: Stream, kind: io::ErrorKind) -> ReadEvent<'static> {
    ReadEvent::Read { stream, res: Err(io::Error::from(kind)) }
}

fn streams(output: &ChildOutput) -> (Option<Vec<u8>>, Option<Vec<u8>>) {
    match output {
        ChildOutput::Split(split) => (
            split.stdout.as_ref().map(|x| x.buf.to_vec()),
            split.stderr.as_ref().map(|x| x.buf.to_vec()),
        ),
        ChildOutput::Combined { output } => (Some(output.buf.to_vec()), None),
    }
}

fn kind_of(error: &ChildFdError) -> (Stream, io::ErrorKind) {
    match error {
        ChildFdError::ReadStdout(error) => (Stream::Stdout, error.kind()),
        ChildFdError::ReadStderr(error) => (Stream::Stderr, error.kind()),
        ChildFdError::ReadCombined(error) => (Stream::Combined, error.kind()),
    }
}

#[test]
fn reader_appends_and_reports_what_it_took() {
    let mut reader = FusedBufReader::new(7u32);
    let mut acc = BytesMut::with_capacity(CHUNK_SIZE);
    assert_eq!(reader.fill_buf(&mut acc, Ok(&b"abc"[..])).unwrap(), 3);
    assert_eq!(reader.fill_buf(&mut acc, Ok(&b"de"[..])).unwrap(), 2);
    assert_eq!(&acc[..], b"abcde");
    assert!(!reader.is_done());
    assert_eq!(*reader.reader_mut(), 7);
}

#[test]
fn reader_is_done_at_the_end_of_its_stream() {
    let mut reader = FusedBufReader::new(());
    let mut acc = BytesMut::new();
    assert_eq!(reader.fill_buf(&mut acc, Ok(&b"abc"[..])).unwrap(), 3);
    assert_eq!(reader.fill_buf(&mut acc, Ok(&b""[..])).unwrap(), 0);
    assert!(reader.is_done());
    assert_eq!(reader.fill_buf(&mut acc, Ok(&b"more"[..])).unwrap(), 0);
    let late = reader.fill_buf(&mut acc, Err(io::Error::from(io::ErrorKind::Other)));
    assert_eq!(late.unwrap(), 0);
    assert_eq!(&acc[..], b"abc");
}

#[test]
fn reader_is_done_after_an_error() {
    let mut reader = FusedBufReader::new(());
    let mut acc = BytesMut::new();
    let failed = reader.fill_buf(&mut acc, Err(io::Error::from(io::ErrorKind::BrokenPipe)));
    assert_eq!(failed.unwrap_err().kind(), io::ErrorKind::BrokenPipe);
    assert!(reader.is_done());
    assert_eq!(reader.fill_buf(&mut acc, Ok(&b"more"[..])).unwrap(), 0);
    assert!(acc.is_empty());
}

#[test]
fn reader_grows_the_buffer_past_a_chunk() {
    let mut reader = FusedBufReader::new(());
    let mut acc = BytesMut::with_capacity(CHUNK_SIZE);
    let chunk = vec![7u8; CHUNK_SIZE];
    for _ in 0..5 {
        assert_eq!(reader.fill_buf(&mut acc, Ok(&chunk)).unwrap(), 4096);
    }
    assert_eq!(acc.len(), 20480);
    assert!(acc.iter().all(|byte| *byte == 7));
}

#[test]
fn missing_reader_is_done_and_takes_nothing() {
    assert!(is_done_opt::<()>(None));
    let mut reader = FusedBufReader::new(());
    assert!(!is_done_opt(Some(&reader)));
    let mut acc = BytesMut::new();
    assert_eq!(fill_buf_opt::<()>(None, None, Ok(&b"x"[..])).unwrap(), 0);
    assert_eq!(fill_buf_opt::<()>(None, Some(&mut acc), Ok(&b"x"[..])).unwrap(), 0);
    assert!(acc.is_empty());
    assert_eq!(fill_buf_opt(Some(&mut reader), Some(&mut acc), Ok(&b"x"[..])).unwrap(), 1);
    assert_eq!(&acc[..], b"x");
}

#[test]
fn split_streams_are_collected_apart() {
    let mut acc = split();
    assert_eq!(acc.fds.next_read(), NextRead::Split { stdout: true, stderr: true });
    assert_eq!(acc.output.stdout_stderr_len(), (Some(0), Some(0)));
    assert_eq!(acc.fill_buf(data(Stream::Stdout, b"one ")), 4);
    assert_eq!(acc.fill_buf(data(Stream::Stderr, b"warn")), 4);
    assert_eq!(acc.fill_buf(data(Stream::Stdout, b"two")), 3);
    assert_eq!(acc.output.stdout_stderr_len(), (Some(7), Some(4)));
    assert_eq!(
        streams(&acc.output.freeze()),
        (Some(b"one two".to_vec()), Some(b"warn".to_vec()))
    );
}

#[test]
fn order_between_streams_does_not_matter() {
    let mut a = split();
    a.fill_buf(data(Stream::Stdout, b"12"));
    a.fill_buf(data(Stream::Stderr, b"xy"));
    a.fill_buf(data(Stream::Stdout, b"34"));
    a.fill_buf(data(Stream::Stderr, b"z"));
    let mut b = split();
    b.fill_buf(data(Stream::Stderr, b"xy"));
    b.fill_buf(data(Stream::Stderr, b"z"));
    b.fill_buf(data(Stream::Stdout, b"12"));
    b.fill_buf(data(Stream::Stdout, b"34"));
    assert_eq!(streams(&a.output.freeze()), streams(&b.output.freeze()));
}

#[test]
fn split_is_done_when_both_streams_are() {
    let mut acc = split();
    acc.fill_buf(data(Stream::Stderr, b""));
    assert!(!acc.fds.is_done());
    assert_eq!(acc.fds.next_read(), NextRead::Split { stdout: true, stderr: false });
    acc.fill_buf(data(Stream::Stdout, b"late"));
    acc.fill_buf(data(Stream::Stdout, b""));
    assert!(acc.fds.is_done());
    assert_eq!(acc.fds.next_read(), NextRead::Idle);
    assert_eq!(acc.fill_buf(ReadEvent::Idle), 0);
    assert!(acc.fds.is_done());
    assert!(acc.errors.is_empty());
    assert_eq!(
        streams(&acc.output.freeze()),
        (Some(b"late".to_vec()), Some(Vec::new()))
    );
}

#[test]
fn only_captured_streams_are_read() {
    let mut acc: Accumulator = ChildAccumulator::new(ChildFds::new_split(None, Some("err")));
    assert_eq!(acc.fds.next_read(), NextRead::Split { stdout: false, stderr: true });
    assert_eq!(acc.output.stdout_stderr_len(), (None, Some(0)));
    acc.fill_buf(data(Stream::Stderr, b"e"));
    acc.fill_buf(data(Stream::Stderr, b""));
    assert!(acc.fds.is_done());
    assert_eq!(streams(&acc.output.freeze()), (None, Some(b"e".to_vec())));
}

#[test]
fn nothing_captured_is_done_at_once() {
    let mut acc: Accumulator = ChildAccumulator::new(ChildFds::new_split(None, None));
    assert!(acc.fds.is_done());
    assert_eq!(acc.fds.next_read(), NextRead::Idle);
    assert_eq!(acc.fill_buf(ReadEvent::Idle), 0);
    assert_eq!(acc.output.stdout_stderr_len(), (None, None));
    assert_eq!(streams(&acc.output.freeze()), (None, None));
}

#[test]
fn combined_stream_is_collected_as_one() {
    let mut acc = combined();
    assert_eq!(acc.fds.next_read(), NextRead::Combined);
    assert_eq!(acc.output.stdout_stderr_len(), (Some(0), None));
    assert_eq!(acc.fill_buf(data(Stream::Combined, b"out")), 3);
    assert_eq!(acc.fill_buf(data(Stream::Combined, b"err")), 3);
    assert_eq!(acc.output.stdout_stderr_len(), (Some(6), None));
    acc.fill_buf(data(Stream::Combined, b""));
    assert!(acc.fds.is_done());
    let output = acc.output.freeze();
    assert!(matches!(&output, ChildOutput::Combined { .. }));
    assert_eq!(streams(&output), (Some(b"outerr".to_vec()), None));
}

#[test]
fn errors_name_their_stream_and_end_it() {
    let mut acc = split();
    acc.fill_buf(data(Stream::Stdout, b"a"));
    assert_eq!(acc.fill_buf(failure(Stream::Stdout, io::ErrorKind::BrokenPipe)), 0);
    assert_eq!(acc.fds.next_read(), NextRead::Split { stdout: false, stderr: true });
    assert_eq!(acc.fill_buf(failure(Stream::Stderr, io::ErrorKind::TimedOut)), 0);
    assert!(acc.fds.is_done());
    let kinds: Vec<(Stream, io::ErrorKind)> = acc.errors.iter().map(kind_of).collect();
    assert_eq!(
        kinds,
        vec![
            (Stream::Stdout, io::ErrorKind::BrokenPipe),
            (Stream::Stderr, io::ErrorKind::TimedOut),
        ]
    );
    assert_eq!(streams(&acc.output.freeze()), (Some(b"a".to_vec()), Some(Vec::new())));
}

#[test]
fn combined_error_names_the_combined_stream() {
    let mut acc = combined();
    acc.fill_buf(failure(Stream::Combined, io::ErrorKind::Interrupted));
    assert!(acc.fds.is_done());
    assert_eq!(acc.errors.len(), 1);
    assert_eq!(kind_of(&acc.errors[0]), (Stream::Combined, io::ErrorKind::Interrupted));
}

#[test]
fn filling_leaves_the_error_to_the_caller() {
    let mut fds: ChildFds<u8, u8, u8> = ChildFds::new_split(Some(1), Some(2));
    let mut output = fds.make_acc();
    let taken = fds.fill_buf(&mut output, data(Stream::Stderr, b"xyz"));
    assert_eq!(taken.unwrap(), 3);
    let error = fds
        .fill_buf(&mut output, failure(Stream::Stderr, io::ErrorKind::UnexpectedEof))
        .unwrap_err();
    assert_eq!(kind_of(&error), (Stream::Stderr, io::ErrorKind::UnexpectedEof));
    assert_eq!(output.stdout_stderr_len(), (Some(0), Some(3)));
}

#[test]
fn readers_are_kept() {
    let mut acc = split();
    acc.fill_buf(data(Stream::Stdout, b"a"));
    acc.fill_buf(data(Stream::Stderr, b""));
    match &mut acc.fds {
        ChildFds::Split { stdout, stderr } => {
            assert_eq!(*stdout.as_mut().unwrap().reader_mut(), "out");
            assert_eq!(*stderr.as_mut().unwrap().reader_mut(), "err");
        }
        ChildFds::Combined { .. } => panic!("streams are separate"),
    }
}

#[test]
fn snapshot_is_a_beginning_of_the_final_output() {
    let mut acc = split();
    acc.fill_buf(data(Stream::Stdout, b"begin"));
    let snapshot = acc.output.snapshot();
    acc.fill_buf(data(Stream::Stdout, b" end"));
    assert_eq!(streams(&snapshot), (Some(b"begin".to_vec()), Some(Vec::new())));
    let again = acc.output.snapshot();
    let frozen = acc.output.freeze();
    assert_eq!(streams(&again), streams(&frozen));
    assert_eq!(streams(&frozen).0, Some(b"begin end".to_vec()));
}

#[test]
fn combined_snapshot_holds_the_output() {
    let mut acc = combined();
    acc.fill_buf(data(Stream::Combined, b"abc"));
    assert_eq!(streams(&acc.output.snapshot()), (Some(b"abc".to_vec()), None));
}

#[test]
fn snapshot_in_progress_has_no_result() {
    let mut acc = split();
    acc.fill_buf(data(Stream::Stdout, b"so far"));
    acc.fill_buf(failure(Stream::Stderr, io::ErrorKind::Other));
    let snapshot: ChildExecutionOutput<i32> = acc.snapshot_in_progress("reading output");
    let ChildExecutionOutput::Output { result, output, errors } = snapshot;
    assert_eq!(result, None);
    assert_eq!(streams(&output), (Some(b"so far".to_vec()), Some(Vec::new())));
    assert_eq!(errors.description, "reading output");
    assert_eq!(errors.errors.len(), 1);
    match (&errors.errors[0], &acc.errors[0]) {
        (ChildFdError::ReadStderr(copy), ChildFdError::ReadStderr(error)) => {
            assert!(Arc::ptr_eq(copy, error));
        }
        _ => panic!("reading standard error failed"),
    }
}

#[test]
fn buffers_are_handed_out_by_shape() {
    let mut output = ChildOutputMut::Split { stdout: Some(BytesMut::new()), stderr: None };
    let (stdout, stderr) = output.as_split_mut();
    assert!(stderr.is_none());
    stdout.unwrap().extend_from_slice(b"ab");
    assert_eq!(output.stdout_stderr_len(), (Some(2), None));

    let mut output = ChildOutputMut::Combined(BytesMut::new());
    output.as_combined_mut().extend_from_slice(b"abc");
    assert_eq!(output.stdout_stderr_len(), (Some(3), None));
}

#[test]
fn ordinary_chunks_have_room() {
    let acc = split();
    let chunk = vec![0u8; CHUNK_SIZE];
    assert!(acc.has_room_for(&data(Stream::Stdout, &chunk)));
    assert!(acc.has_room_for(&data(Stream::Stderr, b"")));
    assert!(acc.has_room_for(&failure(Stream::Stdout, io::ErrorKind::Other)));
}

#[test]
fn stdio_follows_the_strategy() {
    assert_eq!(
        plan_stdio(CaptureStrategy::NoCapture, true),
        StdioPlan { stdin: StdinMode::Inherit, output: OutputMode::Unchanged }
    );
    assert_eq!(
        plan_stdio(CaptureStrategy::Split, false),
        StdioPlan { stdin: StdinMode::Null, output: OutputMode::Piped }
    );
    assert_eq!(
        plan_stdio(CaptureStrategy::Combined, false),
        StdioPlan { stdin: StdinMode::Null, output: OutputMode::SharedPipe }
    );
}

#[test]
fn spawned_child_has_the_readers_of_its_strategy() {
    let started = |stdout, stderr, combined_rx| {
        Ok(Started { child: 42u32, stdout, stderr, combined_rx })
    };

    let child: Child<u32, u8, u8, u8> =
        spawn(CaptureStrategy::NoCapture, started(None, None, None)).unwrap();
    assert_eq!(child.child, 42);
    assert!(matches!(child.child_fds, ChildFds::Split { stdout: None, stderr: None }));

    let child = spawn(CaptureStrategy::Split, started(Some(1), Some(2), None)).unwrap();
    match child.child_fds {
        ChildFds::Split { stdout: Some(mut stdout), stderr: Some(mut stderr) } => {
            assert_eq!(*stdout.reader_mut(), 1);
            assert_eq!(*stderr.reader_mut(), 2);
            assert!(!stdout.is_done());
            assert!(!stderr.is_done());
        }
        _ => panic!("streams are separate"),
    }

    let child = spawn(CaptureStrategy::Combined, started(None, None, Some(3))).unwrap();
    match child.child_fds {
        ChildFds::Combined { mut combined } => {
            assert_eq!(*combined.reader_mut(), 3);
            assert!(!combined.is_done());
        }
        _ => panic!("streams are combined"),
    }
}

#[test]
fn failure_to_start_is_handed_on() {
    let started: Result<Started<u32, u8, u8, u8>, io::Error> =
        Err(io::Error::from(io::ErrorKind::NotFound));
    match spawn(CaptureStrategy::Split, started) {
        Ok(_) => panic!("the child was not started"),
        Err(error) => assert_eq!(error.kind(), io::ErrorKind::NotFound),
    }
}

#[test]
fn at_most_one_read_fails() {
    let mut reader = FusedBufReader::new(());
    let mut acc = BytesMut::new();
    let mut failures = 0;
    for _ in 0..3 {
        let before = acc.len();
        assert_eq!(failures == 0, !reader.is_done());
        let taken = reader.fill_buf(&mut acc, Ok(&b"ab"[..])).unwrap();
        assert_eq!(taken, if failures == 0 { 2 } else { 0 });
        assert_eq!(acc.len() - before, taken);
        if reader.fill_buf(&mut acc, Err(io::Error::from(io::ErrorKind::Other))).is_err() {
            failures += 1;
        }
    }
    assert_eq!(failures, 1);
    assert_eq!(&acc[..], b"ab");
}

#[test]
fn pieces_of_any_size_are_joined() {
    for size in 1..9 {
        let mut reader = FusedBufReader::new(());
        let mut acc = BytesMut::from(&b"> "[..]);
        let mut pieces = b"one two three".chunks(size);
        while !reader.is_done() {
            let piece = pieces.next().unwrap_or(&[]);
            assert_eq!(reader.fill_buf(&mut acc, Ok(piece)).unwrap(), piece.len());
        }
        assert_eq!(&acc[..], b"> one two three");
    }
}

#[test]
fn optional_reader_is_filled_like_any_other() {
    let mut plain = (FusedBufReader::new(()), BytesMut::new());
    let mut opt = (FusedBufReader::new(()), BytesMut::new());
    for read in [&b"ab"[..], &b""[..], &b"c"[..]] {
        let one = plain.0.fill_buf(&mut plain.1, Ok(read)).unwrap();
        let other = fill_buf_opt(Some(&mut opt.0), Some(&mut opt.1), Ok(read)).unwrap();
        assert_eq!(one, other);
        assert_eq!(plain.0.is_done(), opt.0.is_done());
        assert_eq!(plain.1, opt.1);
    }
    assert_eq!(&opt.1[..], b"ab");
}

#[test]
fn failed_stream_spares_the_other() {
    for failed in [Stream::Stdout, Stream::Stderr] {
        let other = if failed == Stream::Stdout { Stream::Stderr } else { Stream::Stdout };
        let mut acc = split();
        acc.fill_buf(data(failed, b"p"));
        acc.fill_buf(data(other, b"q1"));
        acc.fill_buf(failure(failed, io::ErrorKind::BrokenPipe));
        acc.fill_buf(data(other, b"q2"));
        acc.fill_buf(data(other, b""));
        assert!(acc.fds.is_done());
        assert_eq!(acc.errors.len(), 1);
        assert_eq!(kind_of(&acc.errors[0]), (failed, io::ErrorKind::BrokenPipe));
        let (stdout, stderr) = streams(&acc.output.freeze());
        let (lost, whole) = if failed == Stream::Stdout { (stdout, stderr) } else { (stderr, stdout) };
        assert_eq!(lost, Some(b"p".to_vec()));
        assert_eq!(whole, Some(b"q1q2".to_vec()));
    }
}

#[test]
fn snapshot_outlives_the_output() {
    let mut acc = combined();
    acc.fill_buf(data(Stream::Combined, b"kept"));
    let snapshot = acc.output.snapshot();
    acc.output.as_combined_mut().extend_from_slice(b" more");
    drop(acc);
    assert_eq!(streams(&snapshot), (Some(b"kept".to_vec()), None));
}

#[test]
fn later_snapshot_in_progress_begins_with_the_earlier() {
    let mut acc = split();
    acc.fill_buf(data(Stream::Stdout, b"a"));
    acc.fill_buf(failure(Stream::Stderr, io::ErrorKind::TimedOut));
    let first: ChildExecutionOutput<()> = acc.snapshot_in_progress("reading");
    acc.fill_buf(data(Stream::Stdout, b"b"));
    acc.fill_buf(failure(Stream::Stdout, io::ErrorKind::BrokenPipe));
    let second: ChildExecutionOutput<()> = acc.snapshot_in_progress("reading");
    let ChildExecutionOutput::Output { output, errors, .. } = first;
    assert_eq!(streams(&output), (Some(b"a".to_vec()), Some(Vec::new())));
    assert_eq!(errors.errors.len(), 1);
    let ChildExecutionOutput::Output { output, errors: later, .. } = second;
    assert_eq!(streams(&output), (Some(b"ab".to_vec()), Some(Vec::new())));
    assert_eq!(later.errors.len(), 2);
    assert_eq!(kind_of(&later.errors[0]), kind_of(&errors.errors[0]));
    assert_eq!(kind_of(&later.errors[1]), (Stream::Stdout, io::ErrorKind::BrokenPipe));
}
