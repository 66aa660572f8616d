//! Wire framing for compressed records.
//!
//! A byte-stream transport may split one write into several reads or merge
//! several writes into one read, so a compressed record cannot be recovered
//! from a single read's bytes. Each record is therefore carried as one
//! frame: a 4-byte little-endian length header followed by exactly that many
//! payload bytes. The deframer reassembles frames from arbitrarily chunked
//! input; `lemma_deframe_extend` states that the frames recovered do not
//! depend on where the chunk boundaries fell.

use vstd::prelude::*;
use vstd::bytes::spec_u32_from_le_bytes;
use vstd::bytes::spec_u32_to_le_bytes;
use vstd::bytes::u32_from_le_bytes;
use vstd::bytes::u32_to_le_bytes;
use vstd::bytes::lemma_auto_spec_u32_to_from_le_bytes;
use vstd::slice::slice_subrange;
use vstd::slice::slice_to_vec;

verus! {

/// One payload wrapped as a frame: its length as a 4-byte little-endian
/// header, then the payload itself.
pub open spec fn frame_spec(p: Seq<u8>) -> Seq<u8>
    recommends
        p.len() <= u32::MAX,
{
    spec_u32_to_le_bytes(p.len() as u32) + p
}

/// Concatenation of a sequence of byte sequences, in order.
pub open spec fn concat_seqs(xs: Seq<Seq<u8>>) -> Seq<u8>
    decreases xs.len(),
{
    if xs.len() == 0 {
        Seq::<u8>::empty()
    } else {
        xs[0] + concat_seqs(xs.drop_first())
    }
}

/// Appending one more byte sequence appends its bytes to the concatenation.
pub proof fn lemma_concat_push(xs: Seq<Seq<u8>>, y: Seq<u8>)
    ensures
        concat_seqs(xs.push(y)) == concat_seqs(xs) + y,
    decreases xs.len(),
{
    if xs.len() == 0 {
        assert(concat_seqs(Seq::<Seq<u8>>::empty()) == Seq::<u8>::empty());
        assert(xs.push(y).drop_first() =~= Seq::<Seq<u8>>::empty());
        assert(xs.push(y)[0] == y);
        assert(concat_seqs(xs.push(y)) =~= concat_seqs(xs) + y);
    } else {
        assert(xs.push(y)[0] == xs[0]);
        assert(xs.push(y).drop_first() =~= xs.drop_first().push(y));
        lemma_concat_push(xs.drop_first(), y);
        assert(concat_seqs(xs.push(y)) =~= concat_seqs(xs) + y);
    }
}

/// Greedy frame extraction: the payloads of every complete frame at the
/// front of `s`, and the remaining bytes (an incomplete frame, if any).
pub open spec fn spec_deframe(s: Seq<u8>) -> (Seq<Seq<u8>>, Seq<u8>)
    decreases s.len(),
{
    if s.len() < 4 {
        (Seq::<Seq<u8>>::empty(), s)
    } else {
        let n = spec_u32_from_le_bytes(s.subrange(0, 4)) as int;
        if s.len() < 4 + n {
            (Seq::<Seq<u8>>::empty(), s)
        } else {
            let payload = s.subrange(4, 4 + n);
            let rest = spec_deframe(s.subrange(4 + n, s.len() as int));
            (seq![payload] + rest.0, rest.1)
        }
    }
}

/// Frame reassembly is independent of chunk boundaries: deframing `s + t`
/// yields the frames of `s` followed by the frames of `s`'s remainder with
/// `t` appended, and the remainder of the latter. Delivering a byte stream
/// in any number of arbitrarily sized chunks therefore recovers the same
/// record sequence as delivering it whole.
pub proof fn lemma_deframe_extend(s: Seq<u8>, t: Seq<u8>)
    ensures
        spec_deframe(s + t).0 == spec_deframe(s).0 + spec_deframe(spec_deframe(s).1 + t).0,
        spec_deframe(s + t).1 == spec_deframe(spec_deframe(s).1 + t).1,
    decreases s.len(),
{
    if s.len() < 4 {
        assert(spec_deframe(s).1 == s);
        assert(s + t == spec_deframe(s).1 + t);
        assert(spec_deframe(s).0 + spec_deframe(s + t).0 =~= spec_deframe(s + t).0);
    } else {
        let n = spec_u32_from_le_bytes(s.subrange(0, 4)) as int;
        assert((s + t).subrange(0, 4) =~= s.subrange(0, 4));
        if s.len() < 4 + n {
            assert(spec_deframe(s).1 == s);
            assert(s + t =~= spec_deframe(s).1 + t);
            assert(spec_deframe(s).0 + spec_deframe(s + t).0 =~= spec_deframe(s + t).0);
        } else {
            let payload = s.subrange(4, 4 + n);
            let s1 = s.subrange(4 + n, s.len() as int);
            assert((s + t).len() >= 4 + n);
            assert((s + t).subrange(4, 4 + n) =~= payload);
            assert((s + t).subrange(4 + n, (s + t).len() as int) =~= s1 + t);
            lemma_deframe_extend(s1, t);
            assert(spec_deframe(s).1 == spec_deframe(s1).1);
            assert(spec_deframe(s + t).0 == seq![payload] + spec_deframe(s1 + t).0);
            assert(spec_deframe(s).0 + spec_deframe(spec_deframe(s).1 + t).0 =~= seq![
                payload,
            ] + (spec_deframe(s1).0 + spec_deframe(spec_deframe(s1).1 + t).0));
            assert(seq![payload] + spec_deframe(s1 + t).0 =~= seq![payload] + (spec_deframe(s1).0
                + spec_deframe(spec_deframe(s1).1 + t).0));
        }
    }
}

/// The frames recovered when a byte stream arrives as a sequence of chunks,
/// each chunk deframed together with the remainder the previous chunks left
/// (exactly how the deframer's buffer behaves), and the final remainder.
pub open spec fn spec_deframe_chunked(chunks: Seq<Seq<u8>>) -> (Seq<Seq<u8>>, Seq<u8>)
    decreases chunks.len(),
{
    if chunks.len() == 0 {
        (Seq::<Seq<u8>>::empty(), Seq::<u8>::empty())
    } else {
        let prev = spec_deframe_chunked(chunks.drop_last());
        let step = spec_deframe(prev.1 + chunks.last());
        (prev.0 + step.0, step.1)
    }
}

/// Frame reassembly is independent of I/O chunking, for any number of
/// arbitrarily sized chunks: delivering a byte stream in N chunks recovers
/// exactly the frames of the whole stream, with the same remainder, wherever
/// the chunk boundaries fall — inside a length header, inside a payload, or
/// between frames.
pub proof fn lemma_deframe_chunking_independent(chunks: Seq<Seq<u8>>)
    ensures
        spec_deframe_chunked(chunks) == spec_deframe(concat_seqs(chunks)),
    decreases chunks.len(),
{
    if chunks.len() == 0 {
        assert(concat_seqs(chunks) == Seq::<u8>::empty());
        assert(spec_deframe(Seq::<u8>::empty()) == (Seq::<Seq<u8>>::empty(), Seq::<u8>::empty()));
    } else {
        let front = chunks.drop_last();
        let last = chunks.last();
        lemma_deframe_chunking_independent(front);
        assert(front.push(last) =~= chunks);
        lemma_concat_push(front, last);
        assert(concat_seqs(chunks) == concat_seqs(front) + last);
        lemma_deframe_extend(concat_seqs(front), last);
        assert(spec_deframe_chunked(chunks).0 =~= spec_deframe(concat_seqs(chunks)).0);
        assert(spec_deframe_chunked(chunks) == spec_deframe(concat_seqs(chunks)));
    }
}

/// One whole frame at the front of a byte sequence is recovered exactly,
/// and deframing goes on behind it.
pub proof fn lemma_deframe_whole_frame(p: Seq<u8>, rest: Seq<u8>)
    requires
        p.len() <= u32::MAX,
    ensures
        spec_deframe(frame_spec(p) + rest).0 == seq![p] + spec_deframe(rest).0,
        spec_deframe(frame_spec(p) + rest).1 == spec_deframe(rest).1,
{
    lemma_auto_spec_u32_to_from_le_bytes();
    let s = frame_spec(p) + rest;
    assert(s.len() == 4 + p.len() + rest.len());
    assert(s.subrange(0, 4) =~= spec_u32_to_le_bytes(p.len() as u32));
    let n = spec_u32_from_le_bytes(s.subrange(0, 4)) as int;
    assert(n == p.len());
    assert(s.subrange(4, 4 + n) =~= p);
    assert(s.subrange(4 + n, s.len() as int) =~= rest);
}

/// Wraps one record payload as a frame for the wire.
pub fn frame(payload: &[u8]) -> (r: Vec<u8>)
    requires
        payload@.len() <= u32::MAX,
    ensures
        r@ == frame_spec(payload@),
        r@.len() == 4 + payload@.len(),
{
    proof {
        lemma_auto_spec_u32_to_from_le_bytes();
    }
    let n: u32 = payload.len() as u32;
    let mut r = u32_to_le_bytes(n);
    let mut tail = slice_to_vec(payload);
    r.append(&mut tail);
    r
}

/// Reassembles frames from arbitrarily chunked wire bytes.
pub struct Deframer {
    /// Bytes received but not yet returned as a frame payload.
    pub buf: Vec<u8>,
}

impl Deframer {
    /// A deframer that has seen no bytes.
    pub fn new() -> (r: Self)
        ensures
            r.buf@ == Seq::<u8>::empty(),
    {
        Deframer { buf: Vec::new() }
    }

    /// Hands the deframer the bytes of one underlying read.
    pub fn push(&mut self, chunk: &[u8])
        ensures
            final(self).buf@ == old(self).buf@ + chunk@,
    {
        let mut t = slice_to_vec(chunk);
        self.buf.append(&mut t);
    }

    /// Whether at least one complete frame is sitting in the buffer.
    pub fn has_frame(&self) -> (r: bool)
        ensures
            r == (spec_deframe(self.buf@).0.len() > 0),
    {
        if self.buf.len() < 4 {
            return false;
        }
        let header = slice_subrange(self.buf.as_slice(), 0, 4);
        let n32 = u32_from_le_bytes(header);
        let n = n32 as usize;
        self.buf.len() - 4 >= n
    }

    /// Takes the payload of the first complete frame out of the buffer, or
    /// reports that no complete frame has arrived yet.
    pub fn next_frame(&mut self) -> (r: Option<Vec<u8>>)
        ensures
            match r {
                Some(p) => {
                    &&& spec_deframe(old(self).buf@).0.len() > 0
                    &&& p@ == spec_deframe(old(self).buf@).0[0]
                    &&& final(self).buf@.len() + 4 + p@.len() == old(self).buf@.len()
                    &&& spec_deframe(final(self).buf@).0 == spec_deframe(
                        old(self).buf@,
                    ).0.drop_first()
                    &&& spec_deframe(final(self).buf@).1 == spec_deframe(old(self).buf@).1
                },
                None => {
                    &&& *final(self) == *old(self)
                    &&& spec_deframe(old(self).buf@).0.len() == 0
                },
            },
    {
        if self.buf.len() < 4 {
            return None;
        }
        let header = slice_subrange(self.buf.as_slice(), 0, 4);
        let n32 = u32_from_le_bytes(header);
        let n = n32 as usize;
        if self.buf.len() - 4 < n {
            return None;
        }
        let payload = slice_to_vec(slice_subrange(self.buf.as_slice(), 4, 4 + n));
        let rest = slice_to_vec(slice_subrange(self.buf.as_slice(), 4 + n, self.buf.len()));
        proof {
            let s = self.buf@;
            let ni = spec_u32_from_le_bytes(s.subrange(0, 4)) as int;
            assert(ni == n as int);
            assert(spec_deframe(s).0 == seq![s.subrange(4, 4 + ni)] + spec_deframe(
                s.subrange(4 + ni, s.len() as int),
            ).0);
            assert(spec_deframe(s).0.drop_first() =~= spec_deframe(
                s.subrange(4 + ni, s.len() as int),
            ).0);
        }
        self.buf = rest;
        Some(payload)
    }
}

} // verus!
