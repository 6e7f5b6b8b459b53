//! What the library relies on of the `bytes` buffers.
//!
//! A [`BytesMut`] is described by the bytes it holds and by how far into its
//! allocation they begin; a [`Bytes`] by the bytes it holds. The contracts in
//! this file are trusted: they are read off the source of the `bytes` crate.
use bytes::{Bytes, BytesMut};
use vstd::prelude::*;

verus! {

/// The growable buffer of the `bytes` crate.
#[verifier::external_type_specification]
#[verifier::external_body]
pub struct ExBytesMut(BytesMut);

/// The immutable, shared buffer of the `bytes` crate.
#[verifier::external_type_specification]
#[verifier::external_body]
pub struct ExBytes(Bytes);

/// The bytes that a [`BytesMut`] holds.
pub uninterp spec fn bytes_mut_contents(buf: BytesMut) -> Seq<u8>;

/// How many bytes of its allocation a [`BytesMut`] has left behind: the
/// distance from the start of the allocation to the first byte it holds. It is
/// zero until bytes are taken off the front.
pub uninterp spec fn bytes_mut_start(buf: BytesMut) -> nat;

/// The bytes that a [`Bytes`] holds.
pub uninterp spec fn bytes_contents(buf: Bytes) -> Seq<u8>;

/// Whether `extra` more bytes can be put behind those that `buf` holds.
///
/// No allocation exceeds `isize::MAX` bytes, and a buffer that has to grow may
/// ask for up to twice what it needs. It does not grow for nothing.
pub open spec fn has_room(buf: BytesMut, extra: nat) -> bool {
    extra == 0 || 2 * (bytes_mut_start(buf) + bytes_mut_contents(buf).len() + extra) <= isize::MAX
}

/// [`BytesMut::with_capacity`] gives an empty buffer at the front of a fresh
/// allocation. It panics where the capacity exceeds `isize::MAX`. How much the
/// allocation holds, at least `capacity` bytes, is left unsaid.
pub assume_specification[ BytesMut::with_capacity ](capacity: usize) -> (buf: BytesMut)
    requires
        capacity <= isize::MAX,
    ensures
        bytes_mut_contents(buf) == Seq::<u8>::empty(),
        bytes_mut_start(buf) == 0,
;

/// [`BytesMut::extend_from_slice`] puts a copy of `extend` behind the bytes that
/// the buffer holds. It makes room with `BytesMut::reserve`, which leaves the
/// bytes where they begin or moves them to the front of an allocation: their own,
/// or, where another handle shares it, a fresh one. It panics where the allocation
/// would exceed `isize::MAX`.
pub assume_specification[ BytesMut::extend_from_slice ](buf: &mut BytesMut, extend: &[u8])
    requires
        has_room(*old(buf), extend@.len()),
    ensures
        bytes_mut_contents(*final(buf)) == bytes_mut_contents(*old(buf)) + extend@,
        bytes_mut_start(*final(buf)) <= bytes_mut_start(*old(buf)),
;

/// [`BytesMut::len`] counts the bytes that the buffer holds.
pub assume_specification[ BytesMut::len ](buf: &BytesMut) -> (len: usize)
    ensures
        len == bytes_mut_contents(*buf).len(),
;

/// Cloning a [`BytesMut`] goes through `From<&[u8]>`, which copies the bytes into a
/// new vector: to the front of a fresh allocation.
pub assume_specification[ <BytesMut as Clone>::clone ](buf: &BytesMut) -> (copy: BytesMut)
    ensures
        bytes_mut_contents(copy) == bytes_mut_contents(*buf),
        bytes_mut_start(copy) == 0,
;

/// [`BytesMut::freeze`] hands over the same bytes as a [`Bytes`]. One that owns its
/// vector alone turns the whole vector into a [`Bytes`] and advances it by what the
/// buffer had left behind; one that shares it keeps pointer and length.
pub assume_specification[ BytesMut::freeze ](buf: BytesMut) -> (frozen: Bytes)
    ensures
        bytes_contents(frozen) == bytes_mut_contents(buf),
;

} // verus!
