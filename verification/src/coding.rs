//! The frame codec: stateless conversion between raw transport bytes and an
//! opaque application frame.
//!
//! Because the underlying transport already delimits messages at the datagram
//! boundary, one datagram is one frame: decoding a non-empty buffer takes the
//! whole buffer as a single frame, and encoding appends a frame's bytes
//! verbatim. No length prefix, escaping, or reassembly is performed.
use vstd::prelude::*;

use bytes::{BufMut, Bytes, BytesMut};

verus! {

#[verifier::external_type_specification]
#[verifier::external_body]
pub struct ExBytesMut(BytesMut);

#[verifier::external_type_specification]
#[verifier::external_body]
pub struct ExBytes(Bytes);

/// The bytes a `bytes::BytesMut` buffer currently holds.
pub uninterp spec fn bytes_mut_data(b: BytesMut) -> Seq<u8>;

/// The bytes a `bytes::Bytes` value holds.
pub uninterp spec fn bytes_data(b: Bytes) -> Seq<u8>;

/// Relies on `BytesMut::len`: the number of bytes the buffer holds.
#[verifier::external_body]
fn bm_len(b: &BytesMut) -> (r: usize)
    ensures
        r == bytes_mut_data(*b).len(),
{
    b.len()
}

/// Relies on `BytesMut::is_empty`: true exactly when the buffer holds no bytes.
#[verifier::external_body]
fn bm_is_empty(b: &BytesMut) -> (r: bool)
    ensures
        r == (bytes_mut_data(*b).len() == 0),
{
    b.is_empty()
}

/// Relies on `BytesMut::split_to`: afterwards the buffer keeps the bytes from
/// `at` on, and the returned buffer holds the first `at` bytes. Panics when
/// `at` exceeds the length, so that is required away.
#[verifier::external_body]
fn bm_split_to(b: &mut BytesMut, at: usize) -> (r: BytesMut)
    requires
        at <= bytes_mut_data(*old(b)).len(),
    ensures
        bytes_mut_data(r) == bytes_mut_data(*old(b)).take(at as int),
        bytes_mut_data(*final(b)) == bytes_mut_data(*old(b)).skip(at as int),
{
    b.split_to(at)
}

/// Relies on `BytesMut::reserve`: it only grows capacity and leaves the held
/// bytes as they were. Panics when the new capacity overflows, so the sum is
/// bounded here.
#[verifier::external_body]
fn bm_reserve(b: &mut BytesMut, additional: usize)
    requires
        bytes_mut_data(*old(b)).len() + additional <= isize::MAX,
    ensures
        bytes_mut_data(*final(b)) == bytes_mut_data(*old(b)),
{
    b.reserve(additional)
}

/// Relies on `BufMut::put` as `BytesMut` implements it: the source's bytes are
/// appended in order, growing the buffer as needed up to the allocation limit.
#[verifier::external_body]
fn bm_put(b: &mut BytesMut, data: Bytes)
    requires
        bytes_mut_data(*old(b)).len() + bytes_data(data).len() <= isize::MAX,
    ensures
        bytes_mut_data(*final(b)) == bytes_mut_data(*old(b)) + bytes_data(data),
{
    b.put(data)
}

/// Relies on `Bytes::len`: the number of bytes held.
#[verifier::external_body]
fn bytes_len(b: &Bytes) -> (r: usize)
    ensures
        r == bytes_data(*b).len(),
{
    b.len()
}

/// Relies on `slice::to_vec`, reached through `BytesMut`'s deref to `[u8]`:
/// copies the held bytes into a fresh vector.
#[verifier::external_body]
pub(crate) fn bm_to_vec(b: &BytesMut) -> (r: Vec<u8>)
    ensures
        r@ == bytes_mut_data(*b),
{
    b.to_vec()
}

/// The one way encoding can fail: the frame and the already buffered bytes
/// together would exceed what a single allocation may hold. Fatal to the
/// current send attempt, not to the process.
#[derive(Clone, Copy, Debug, PartialEq, Eq, Structural)]
pub enum CodecError {
    Capacity,
}

/// What decoding a buffer yields: a non-empty buffer becomes one whole frame,
/// an empty buffer yields no frame at all (a keepalive, not an error).
pub open spec fn decode_spec(b: Seq<u8>) -> Option<Seq<u8>> {
    if b.len() > 0 {
        Some(b)
    } else {
        None
    }
}

/// What encoding appends: the frame's bytes, verbatim, after what the output
/// buffer already holds.
pub open spec fn encode_spec(out: Seq<u8>, data: Seq<u8>) -> Seq<u8> {
    out + data
}

#[derive(Copy, Clone, Debug, Eq, PartialEq, Ord, PartialOrd, Hash, Default)]
pub struct Codec;

impl Codec {
    pub fn new() -> (r: Self)
        ensures
            r == (Codec {  }),
    {
        Codec {  }
    }

    /// Extract one frame from `buf`: the entire buffer if it is non-empty
    /// (leaving it drained), nothing if it is empty. Never fails.
    pub fn decode(&self, buf: &mut BytesMut) -> (r: Result<Option<BytesMut>, CodecError>)
        ensures
            decode_spec(bytes_mut_data(*old(buf))) matches Some(f) ==> (r matches Ok(Some(frame))
                && bytes_mut_data(frame) == f && bytes_mut_data(*final(buf)).len() == 0),
            decode_spec(bytes_mut_data(*old(buf))) is None ==> (r matches Ok(o) && o is None
                && bytes_mut_data(*final(buf)) == bytes_mut_data(*old(buf))),
    {
        if !bm_is_empty(buf) {
            let len = bm_len(buf);
            let frame = bm_split_to(buf, len);
            proof {
                assert(bytes_mut_data(frame) =~= bytes_mut_data(*old(buf)));
            }
            Ok(Some(frame))
        } else {
            Ok(None)
        }
    }

    /// Append the frame's bytes verbatim to `out_buf`, reserving capacity
    /// first. The bound keeps the reservation from overflowing the allocator's
    /// limit; within it, encoding always succeeds.
    pub fn encode(&self, data: Bytes, out_buf: &mut BytesMut) -> (r: Result<(), CodecError>)
        requires
            bytes_mut_data(*old(out_buf)).len() + bytes_data(data).len() <= isize::MAX,
        ensures
            r is Ok,
            bytes_mut_data(*final(out_buf)) == encode_spec(
                bytes_mut_data(*old(out_buf)),
                bytes_data(data),
            ),
    {
        let n = bytes_len(&data);
        bm_reserve(out_buf, n);
        bm_put(out_buf, data);
        Ok(())
    }
}

/// Round trip: every non-empty byte sequence decodes to exactly one frame
/// holding those bytes, and encoding that frame into an empty buffer
/// reproduces the sequence unchanged; an empty buffer decodes to no frame.
pub proof fn lemma_codec_round_trip(b: Seq<u8>)
    ensures
        b.len() > 0 ==> (decode_spec(b) matches Some(f) && f == b && encode_spec(
            Seq::<u8>::empty(),
            f,
        ) == b),
        b.len() == 0 ==> decode_spec(b) is None,
{
    if b.len() > 0 {
        assert(encode_spec(Seq::<u8>::empty(), b) =~= b);
    }
}

} // verus!
