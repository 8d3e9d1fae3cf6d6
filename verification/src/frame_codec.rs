//! Newline-delimited framing of JSON-RPC messages over a byte stream.
use vstd::prelude::*;
use bytes::{BufMut, BytesMut};

verus! {

#[verifier::external_type_specification]
#[verifier::external_body]
pub struct ExBytesMut(bytes::BytesMut);

/// The bytes that a `BytesMut` buffer holds, first to last.
pub uninterp spec fn buffer_bytes(b: BytesMut) -> Seq<u8>;

/// `BytesMut::new`: an empty buffer.
#[verifier::external_body]
fn buffer_new() -> (r: BytesMut)
    ensures
        buffer_bytes(r) == Seq::<u8>::empty(),
{
    BytesMut::new()
}

/// `BytesMut`'s `Deref` to `[u8]`: the bytes it holds.
#[verifier::external_body]
fn buffer_slice(b: &BytesMut) -> (r: &[u8])
    ensures
        r@ == buffer_bytes(*b),
{
    &b[..]
}

/// `BytesMut::split_to`: the buffer keeps the bytes from `at` on and the
/// bytes before `at` are handed back. Panics when `at` exceeds the length.
#[verifier::external_body]
fn buffer_split_to(b: &mut BytesMut, at: usize) -> (r: BytesMut)
    requires
        at <= buffer_bytes(*old(b)).len(),
    ensures
        buffer_bytes(r) == buffer_bytes(*old(b)).take(at as int),
        buffer_bytes(*final(b)) == buffer_bytes(*old(b)).skip(at as int),
{
    b.split_to(at)
}

/// `BytesMut::extend_from_slice`: appends the bytes of `s`. Panics when the
/// new capacity overflows `usize`.
#[verifier::external_body]
fn buffer_extend_from_slice(b: &mut BytesMut, s: &[u8])
    requires
        buffer_bytes(*old(b)).len() + s@.len() <= usize::MAX,
    ensures
        buffer_bytes(*final(b)) == buffer_bytes(*old(b)) + s@,
{
    b.extend_from_slice(s);
}

/// `BytesMut::reserve`: makes room; the bytes held stay as they are. Panics
/// when the new capacity overflows `usize`.
#[verifier::external_body]
fn buffer_reserve(b: &mut BytesMut, additional: usize)
    requires
        buffer_bytes(*old(b)).len() + additional <= usize::MAX,
    ensures
        buffer_bytes(*final(b)) == buffer_bytes(*old(b)),
{
    b.reserve(additional);
}

/// `BufMut::put_slice` on a `BytesMut`: appends the bytes of `s`.
#[verifier::external_body]
fn buffer_put_slice(b: &mut BytesMut, s: &[u8])
    requires
        buffer_bytes(*old(b)).len() + s@.len() <= usize::MAX,
    ensures
        buffer_bytes(*final(b)) == buffer_bytes(*old(b)) + s@,
{
    b.put_slice(s);
}

/// `BufMut::put_u8` on a `BytesMut`: appends one byte.
#[verifier::external_body]
fn buffer_put_u8(b: &mut BytesMut, x: u8)
    requires
        buffer_bytes(*old(b)).len() + 1 <= usize::MAX,
    ensures
        buffer_bytes(*final(b)) == buffer_bytes(*old(b)).push(x),
{
    b.put_u8(x);
}

/// The byte that ends a frame.
pub open spec fn newline() -> u8 {
    10u8
}

/// Whether `s` holds a newline.
pub open spec fn has_newline(s: Seq<u8>) -> bool {
    exists|i: int| 0 <= i < s.len() && s[i] == newline()
}

/// `p` is the position of the first newline of `s`.
pub open spec fn first_newline_at(s: Seq<u8>, p: int) -> bool {
    &&& 0 <= p < s.len()
    &&& s[p] == newline()
    &&& !has_newline(s.take(p))
}

/// What one decoding step makes of the buffered bytes `s`: `None` while no
/// complete frame is buffered, else the first frame (its newline dropped) and
/// the bytes that stay buffered.
pub open spec fn decode_step(s: Seq<u8>) -> Option<(Seq<u8>, Seq<u8>)> {
    if has_newline(s) {
        let p = choose|p: int| first_newline_at(s, p);
        Some((s.take(p), s.skip(p + 1)))
    } else {
        None
    }
}

/// The bytes that encoding `item` appends.
pub open spec fn encode_frame(item: Seq<u8>) -> Seq<u8> {
    item.push(newline())
}

/// The first newline of `s` is unique, so `decode_step` is determined.
pub proof fn lemma_first_newline_unique(s: Seq<u8>, p: int, q: int)
    requires
        first_newline_at(s, p),
        first_newline_at(s, q),
    ensures
        p == q,
{
    if p < q {
        assert(s.take(q)[p] == newline());
    } else if q < p {
        assert(s.take(p)[q] == newline());
    }
}

/// Decoding gives back an encoded frame: a frame without newline, encoded
/// and followed by any further bytes, decodes to itself, and exactly those
/// further bytes stay buffered.
pub proof fn law_decode_encoded(item: Seq<u8>, rest: Seq<u8>)
    requires
        !has_newline(item),
    ensures
        decode_step(encode_frame(item) + rest) == Some((item, rest)),
{
    let s = encode_frame(item) + rest;
    let n = item.len() as int;
    assert(s[n] == newline());
    assert(s.take(n) =~= item);
    assert(first_newline_at(s, n));
    let p = choose|p: int| first_newline_at(s, p);
    lemma_first_newline_unique(s, p, n);
    assert(s.skip(n + 1) =~= rest);
}

/// The codec that reads and writes newline-delimited JSON-RPC frames.
pub struct JsonRpcFrameCodec;

impl JsonRpcFrameCodec {
    /// Takes the first complete frame out of `src`, without its newline.
    /// Leaves `src` as it was when it holds no newline yet.
    pub fn decode(&mut self, src: &mut BytesMut) -> (r: Option<BytesMut>)
        ensures
            match decode_step(buffer_bytes(*old(src))) {
                Some((frame, rest)) => r is Some && buffer_bytes(r->0) == frame && buffer_bytes(*final(src)) == rest,
                None => r is None && buffer_bytes(*final(src)) == buffer_bytes(*old(src)),
            },
    {
        let ghost s = buffer_bytes(*src);
        let bytes = buffer_slice(src);
        let n = bytes.len();
        let mut i: usize = 0;
        while i < n
            invariant
                n == s.len(),
                bytes@ == s,
                i <= n,
                !has_newline(s.take(i as int)),
            ensures
                i <= n,
                !has_newline(s.take(i as int)),
                i < n ==> s[i as int] == newline(),
            decreases n - i,
        {
            if bytes[i] == 10u8 {
                break;
            }
            assert(!has_newline(s.take(i + 1))) by {
                assert forall|k: int| 0 <= k < i + 1 implies #[trigger] s.take(i + 1)[k] != newline() by {
                    if k < i {
                        assert(s.take(i + 1)[k] == s.take(i as int)[k]);
                    }
                }
            }
            i = i + 1;
        }
        if i == n {
            assert(s.take(n as int) =~= s);
            return None;
        }
        proof {
            assert(first_newline_at(s, i as int));
            let p = choose|p: int| first_newline_at(s, p);
            lemma_first_newline_unique(s, p, i as int);
        }
        assert(buffer_bytes(*src) == s);
        let frame = buffer_split_to(src, i + 1);
        assert(buffer_bytes(frame) == s.take(i + 1));
        let mut result = buffer_new();
        let frame_bytes = buffer_slice(&frame);
        let body = vstd::slice::slice_subrange(frame_bytes, 0, i);
        buffer_extend_from_slice(&mut result, body);
        proof {
            assert(frame_bytes@ == s.take(i + 1));
            assert(body@ =~= s.take(i as int));
            assert(buffer_bytes(result) =~= Seq::<u8>::empty() + body@);
            assert(buffer_bytes(result) =~= s.take(i as int));
        }
        Some(result)
    }

    /// Whether `item` and a newline can be appended to `dst` without its
    /// length overflowing.
    pub fn fits(&self, item: &Vec<u8>, dst: &BytesMut) -> (r: bool)
        ensures
            r == (buffer_bytes(*dst).len() + item@.len() + 1 <= usize::MAX),
    {
        let held = buffer_slice(dst).len();
        held < usize::MAX && item.len() < usize::MAX - held
    }

    /// Appends `item` and a newline to `dst`.
    pub fn encode(&mut self, item: Vec<u8>, dst: &mut BytesMut)
        requires
            buffer_bytes(*old(dst)).len() + item@.len() + 1 <= usize::MAX,
        ensures
            buffer_bytes(*final(dst)) == buffer_bytes(*old(dst)) + encode_frame(item@),
    {
        buffer_reserve(dst, item.len() + 1);
        buffer_put_slice(dst, item.as_slice());
        buffer_put_u8(dst, 10u8);
        assert(buffer_bytes(*dst) =~= buffer_bytes(*old(dst)) + encode_frame(item@));
    }
}

} // verus!
