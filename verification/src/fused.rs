//! A reader that is not read again once it has ended.
use bytes::BytesMut;
use std::io;
use vstd::prelude::*;
use crate::buffer::{bytes_mut_contents, bytes_mut_start, has_room};
use crate::model::{read_view, taken_view, StreamView};

verus! {

/// The size of each buffered reader's buffer, and the size at which the buffers
/// that collect output start.
///
/// This is the page size on most systems.
pub const CHUNK_SIZE: usize = 4096;

/// A buffered reader, and whether it is done: whether a read of it has brought
/// the end of the stream or an error.
///
/// The reader is the caller's, with a buffer of [`CHUNK_SIZE`] bytes; it is
/// carried along and not looked into.
pub struct FusedBufReader<R> {
    reader: R,
    done: bool,
}

/// The state of the stream that `reader` reads and `acc` collects.
pub open spec fn stream_view<R>(reader: FusedBufReader<R>, acc: BytesMut) -> StreamView {
    StreamView { bytes: bytes_mut_contents(acc), done: reader.done() }
}

/// What taking in a read does: `before` and `acc_before` become `after` and
/// `acc_after`, and `taken` is returned.
pub open spec fn takes_in<R>(
    before: FusedBufReader<R>,
    acc_before: BytesMut,
    res: Result<&[u8], io::Error>,
    after: FusedBufReader<R>,
    acc_after: BytesMut,
    taken: Result<usize, io::Error>,
) -> bool {
    &&& stream_view(after, acc_after) == stream_view(before, acc_before).step(read_view(res))
    &&& taken_view(taken) == stream_view(before, acc_before).outcome(read_view(res))
    &&& after.reader() == before.reader()
    &&& bytes_mut_start(acc_after) <= bytes_mut_start(acc_before)
    &&& before.done() ==> after == before && acc_after == acc_before
}

impl<R> FusedBufReader<R> {
    /// The reader.
    pub closed spec fn reader(&self) -> R {
        self.reader
    }

    /// Whether the reader is done.
    pub closed spec fn done(&self) -> bool {
        self.done
    }

    /// A reader of which nothing has been read.
    pub fn new(reader: R) -> (fused: Self)
        ensures
            fused.reader() == reader,
            !fused.done(),
    {
        FusedBufReader { reader, done: false }
    }

    /// Takes in what a read of the reader brought: the bytes go behind those in
    /// `acc`, and no bytes, or an error, make the reader done. A reader that is
    /// done takes nothing in.
    ///
    /// Returns how many bytes were taken out of the reader's buffer, for the
    /// caller to consume.
    pub fn fill_buf(&mut self, acc: &mut BytesMut, res: Result<&[u8], io::Error>) -> (taken: Result<
        usize,
        io::Error,
    >)
        requires
            !old(self).done() && res is Ok ==> has_room(*old(acc), res->Ok_0@.len()),
        ensures
            takes_in(*old(self), *old(acc), res, *final(self), *final(acc), taken),
            final(self).reader() == old(self).reader(),
            old(self).done() ==> {
                &&& *final(self) == *old(self)
                &&& *final(acc) == *old(acc)
                &&& taken == Ok::<usize, io::Error>(0)
            },
            !old(self).done() ==> match res {
                Ok(buf) => {
                    &&& bytes_mut_contents(*final(acc)) == bytes_mut_contents(*old(acc)) + buf@
                    &&& final(self).done() <==> buf@.len() == 0
                    &&& taken is Ok && taken->Ok_0 == buf@.len()
                },
                Err(error) => {
                    &&& *final(acc) == *old(acc)
                    &&& final(self).done()
                    &&& taken == Err::<usize, io::Error>(error)
                },
            },
    {
        if self.done {
            return Ok(0);
        }
        match res {
            Ok(buf) => {
                acc.extend_from_slice(buf);
                if buf.is_empty() {
                    self.done = true;
                }
                Ok(buf.len())
            },
            Err(error) => {
                self.done = true;
                Err(error)
            },
        }
    }

    /// The reader itself, to be read from.
    pub fn reader_mut(&mut self) -> (reader: &mut R)
        ensures
            *reader == old(self).reader(),
            final(self).reader() == *final(reader),
            final(self).done() == old(self).done(),
    {
        &mut self.reader
    }

    /// Whether the reader is done.
    pub fn is_done(&self) -> (done: bool)
        ensures
            done == self.done(),
    {
        self.done
    }
}

/// A version of [`FusedBufReader::fill_buf`] for a reader that may be missing. A
/// reader that is there has a buffer to fill.
pub fn fill_buf_opt<R>(
    reader: Option<&mut FusedBufReader<R>>,
    acc: Option<&mut BytesMut>,
    res: Result<&[u8], io::Error>,
) -> (taken: Result<usize, io::Error>)
    requires
        reader is Some ==> acc is Some,
        reader is Some && !reader->0.done() && res is Ok ==> has_room(
            *acc->0,
            res->Ok_0@.len(),
        ),
    ensures
        match (reader, acc) {
            (Some(reader), Some(acc)) => {
                &&& takes_in(*reader, *acc, res, *final(reader), *final(acc), taken)
                &&& final(reader).reader() == reader.reader()
                &&& reader.done() ==> {
                    &&& *final(reader) == *reader
                    &&& *final(acc) == *acc
                    &&& taken == Ok::<usize, io::Error>(0)
                }
                &&& !reader.done() ==> match res {
                    Ok(buf) => {
                        &&& bytes_mut_contents(*final(acc)) == bytes_mut_contents(*acc) + buf@
                        &&& final(reader).done() <==> buf@.len() == 0
                        &&& taken is Ok && taken->Ok_0 == buf@.len()
                    },
                    Err(error) => {
                        &&& *final(acc) == *acc
                        &&& final(reader).done()
                        &&& taken == Err::<usize, io::Error>(error)
                    },
                }
            },
            (None, Some(acc)) => *final(acc) == *acc && taken == Ok::<usize, io::Error>(0),
            (None, None) => taken == Ok::<usize, io::Error>(0),
            (Some(_), None) => false,
        },
{
    if let Some(reader) = reader {
        let acc = acc.expect("reader and acc must match");
        reader.fill_buf(acc, res)
    } else {
        Ok(0)
    }
}

/// A version of [`FusedBufReader::is_done`] for a reader that may be missing: one
/// that is missing is done.
pub fn is_done_opt<R>(reader: Option<&FusedBufReader<R>>) -> (done: bool)
    ensures
        done == (reader matches Some(reader) ==> reader.done()),
{
    match reader {
        Some(reader) => reader.is_done(),
        None => true,
    }
}

} // verus!
