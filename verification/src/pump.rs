//! Framed pump: the unidirectional byte mover of a relay session.
//!
//! A pump sits between one readable stream and one writable stream. The
//! unverified shell reads chunks of at most `READ_BUF_LEN` bytes and hands
//! each to `on_chunk`, writing the returned bytes to the sink; a zero-length
//! read is end-of-stream and is handed to `on_eof`, after which the shell
//! half-closes the sink exactly once and never reads again. The compressing
//! side turns each chunk into one framed compressed record; the decompressing
//! side reassembles records across arbitrary read boundaries, decodes each,
//! and emits the decoded bytes in order. The pump also keeps the direction's
//! transfer counters: raw bytes (uncompressed side) and wire bytes (framed,
//! possibly compressed side).

use vstd::prelude::*;
use crate::codec::CompressAlgo;
use crate::codec::decode;
use crate::codec::encode;
use crate::codec::encode_spec;
use crate::errors::DecodeError;
use crate::frame::Deframer;
use crate::frame::concat_seqs;
use crate::frame::frame;
use crate::frame::frame_spec;
use crate::frame::lemma_concat_push;
use crate::frame::spec_deframe;

verus! {

/// Saturating addition on the transfer counters: a counter that would pass
/// `u64::MAX` stays at `u64::MAX` rather than wrapping.
pub open spec fn sat_add_u64(a: u64, b: int) -> u64 {
    if a + b > u64::MAX {
        u64::MAX
    } else {
        (a + b) as u64
    }
}

/// Size of the fixed read buffer a pump's source is read with.
pub const READ_BUF_LEN: usize = 8192;

/// Which half of the session's transform this pump applies. Exactly one side
/// of any given byte stream compresses; the cooperating side decompresses.
#[derive(Copy, Clone, Debug, PartialEq, Eq, Structural)]
pub enum Direction {
    Compress,
    Decompress,
}

/// `frames` is, record for record, the encoding of `xs`. A record's length
/// fits the block format's `u32` size header; nothing longer can be encoded.
pub open spec fn decodes_to(algo: CompressAlgo, frames: Seq<Seq<u8>>, xs: Seq<Seq<u8>>) -> bool {
    &&& xs.len() == frames.len()
    &&& forall|i: int|
        0 <= i < frames.len() ==> frames[i] == encode_spec(algo, xs[i]) && xs[i].len()
            <= u32::MAX
}

/// Saturating add of a chunk length onto a transfer counter.
fn sat_add(a: u64, b: usize) -> (r: u64)
    ensures
        r == sat_add_u64(a, b as int),
{
    a.saturating_add(b as u64)
}

/// One direction's mover: transform state, reassembly buffer, and the
/// direction's transfer counters.
pub struct Pump {
    /// Which half of the transform this pump applies.
    pub dir: Direction,
    /// The session's compression algorithm.
    pub algo: CompressAlgo,
    /// Reassembly buffer for framed records (decompressing side only).
    pub input: Deframer,
    /// Total bytes on the uncompressed side of the transform.
    pub raw: u64,
    /// Total bytes on the framed, possibly compressed side.
    pub wire: u64,
    /// Whether this pump has seen end-of-stream or failed.
    pub done: bool,
}

impl Pump {
    /// A pump holds reassembled bytes only while decompressing `Lz4`; in
    /// every other configuration its buffer is empty.
    pub open spec fn wf(self) -> bool {
        (self.dir == Direction::Compress || self.algo == CompressAlgo::Plain)
            ==> self.input.buf@.len() == 0
    }

    /// A fresh pump: nothing moved, nothing buffered, not yet at
    /// end-of-stream.
    pub fn new(dir: Direction, algo: CompressAlgo) -> (r: Pump)
        ensures
            r.dir == dir,
            r.algo == algo,
            r.input.buf@.len() == 0,
            r.raw == 0,
            r.wire == 0,
            !r.done,
            r.wf(),
    {
        Pump { dir, algo, input: Deframer::new(), raw: 0, wire: 0, done: false }
    }

    /// The direction's transfer counters, `(rawBytes, wireBytes)`.
    pub fn counters(&self) -> (r: (u64, u64))
        ensures
            r.0 == self.raw,
            r.1 == self.wire,
    {
        (self.raw, self.wire)
    }

    /// Whether the pump has terminated (end-of-stream seen, or failed).
    pub fn is_done(&self) -> (r: bool)
        ensures
            r == self.done,
    {
        self.done
    }

    /// Moves the bytes of one underlying read through the transform and
    /// returns what must be written to the sink.
    ///
    /// Compressing: the chunk becomes exactly one framed compressed record
    /// (or is passed through verbatim under `Plain`). Decompressing under
    /// `Lz4`: the chunk joins the reassembly buffer, every record that is
    /// now complete is decoded in order, and the result does not depend on
    /// where the read boundaries fell; a record that is no encoding of
    /// anything fails the pump with `CorruptFrame`.
    pub fn on_chunk(&mut self, chunk: &[u8]) -> (r: Result<Vec<u8>, DecodeError>)
        requires
            old(self).wf(),
            !old(self).done,
            1 <= chunk@.len() <= READ_BUF_LEN,
        ensures
            final(self).wf(),
            final(self).dir == old(self).dir,
            final(self).algo == old(self).algo,
            old(self).dir == Direction::Compress ==> (r matches Ok(out) && {
                &&& out@ == (match old(self).algo {
                    CompressAlgo::Plain => chunk@,
                    CompressAlgo::Lz4 => frame_spec(encode_spec(CompressAlgo::Lz4, chunk@)),
                })
                &&& out@.len() <= 28 + chunk@.len() * 110 / 100
                &&& !final(self).done
                &&& final(self).input.buf@.len() == 0
                &&& final(self).raw == sat_add_u64(old(self).raw, chunk@.len() as int)
                &&& final(self).wire == sat_add_u64(old(self).wire, out@.len() as int)
            }),
            old(self).dir == Direction::Decompress && old(self).algo == CompressAlgo::Plain ==> (
            r matches Ok(out) && {
                &&& out@ == chunk@
                &&& !final(self).done
                &&& final(self).raw == sat_add_u64(old(self).raw, chunk@.len() as int)
                &&& final(self).wire == sat_add_u64(old(self).wire, chunk@.len() as int)
            }),
            old(self).dir == Direction::Decompress && old(self).algo == CompressAlgo::Lz4 ==> (
            match r {
                Ok(out) => {
                    &&& !final(self).done
                    &&& final(self).input.buf@ == spec_deframe(
                        old(self).input.buf@ + chunk@,
                    ).1
                    &&& forall|xs: Seq<Seq<u8>>|
                        decodes_to(
                            CompressAlgo::Lz4,
                            spec_deframe(old(self).input.buf@ + chunk@).0,
                            xs,
                        ) ==> out@ == concat_seqs(xs)
                    &&& final(self).wire == sat_add_u64(old(self).wire, chunk@.len() as int)
                    &&& final(self).raw == sat_add_u64(old(self).raw, out@.len() as int)
                },
                Err(e) => {
                    &&& e == DecodeError::CorruptFrame
                    &&& final(self).done
                    &&& !(exists|xs: Seq<Seq<u8>>|
                        decodes_to(
                            CompressAlgo::Lz4,
                            spec_deframe(old(self).input.buf@ + chunk@).0,
                            xs,
                        ))
                    &&& final(self).wire == sat_add_u64(old(self).wire, chunk@.len() as int)
                    &&& final(self).raw == old(self).raw
                },
            }),
    {
        match self.dir {
            Direction::Compress => {
                let encoded = encode(self.algo, chunk);
                let out: Vec<u8> = match self.algo {
                    CompressAlgo::Plain => encoded,
                    CompressAlgo::Lz4 => frame(encoded.as_slice()),
                };
                self.raw = sat_add(self.raw, chunk.len());
                self.wire = sat_add(self.wire, out.len());
                Ok(out)
            },
            Direction::Decompress => {
                match self.algo {
                    CompressAlgo::Plain => {
                        let out = vstd::slice::slice_to_vec(chunk);
                        self.raw = sat_add(self.raw, chunk.len());
                        self.wire = sat_add(self.wire, chunk.len());
                        Ok(out)
                    },
                    CompressAlgo::Lz4 => self.decode_chunk(chunk),
                }
            },
        }
    }

    /// The decompressing `Lz4` half of `on_chunk`: reassemble, decode every
    /// complete record, emit the decoded bytes in order.
    fn decode_chunk(&mut self, chunk: &[u8]) -> (r: Result<Vec<u8>, DecodeError>)
        requires
            !old(self).done,
            old(self).dir == Direction::Decompress,
            old(self).algo == CompressAlgo::Lz4,
            chunk@.len() >= 1,
        ensures
            final(self).dir == old(self).dir,
            final(self).algo == old(self).algo,
            match r {
                Ok(out) => {
                    &&& !final(self).done
                    &&& final(self).input.buf@ == spec_deframe(
                        old(self).input.buf@ + chunk@,
                    ).1
                    &&& forall|xs: Seq<Seq<u8>>|
                        decodes_to(
                            CompressAlgo::Lz4,
                            spec_deframe(old(self).input.buf@ + chunk@).0,
                            xs,
                        ) ==> out@ == concat_seqs(xs)
                    &&& final(self).wire == sat_add_u64(old(self).wire, chunk@.len() as int)
                    &&& final(self).raw == sat_add_u64(old(self).raw, out@.len() as int)
                },
                Err(e) => {
                    &&& e == DecodeError::CorruptFrame
                    &&& final(self).done
                    &&& !(exists|xs: Seq<Seq<u8>>|
                        decodes_to(
                            CompressAlgo::Lz4,
                            spec_deframe(old(self).input.buf@ + chunk@).0,
                            xs,
                        ))
                    &&& final(self).wire == sat_add_u64(old(self).wire, chunk@.len() as int)
                    &&& final(self).raw == old(self).raw
                },
            },
    {
        self.input.push(chunk);
        self.wire = sat_add(self.wire, chunk.len());
        let ghost s0 = self.input.buf@;
        let ghost wire1 = self.wire;
        let ghost raw0 = self.raw;
        let mut out: Vec<u8> = Vec::new();
        let ghost mut frames_done: Seq<Seq<u8>> = Seq::<Seq<u8>>::empty();
        proof {
            assert(spec_deframe(s0).0 =~= frames_done + spec_deframe(self.input.buf@).0);
        }
        while self.input.has_frame()
            invariant
                !self.done,
                self.dir == Direction::Decompress,
                self.algo == CompressAlgo::Lz4,
                old(self).dir == Direction::Decompress,
                old(self).algo == CompressAlgo::Lz4,
                s0 == old(self).input.buf@ + chunk@,
                wire1 == sat_add_u64(old(self).wire, chunk@.len() as int),
                raw0 == old(self).raw,
                self.wire == wire1,
                self.raw == raw0,
                spec_deframe(s0).0 == frames_done + spec_deframe(self.input.buf@).0,
                spec_deframe(s0).1 == spec_deframe(self.input.buf@).1,
                forall|xs: Seq<Seq<u8>>|
                    decodes_to(CompressAlgo::Lz4, frames_done, xs) ==> out@ == concat_seqs(xs),
            decreases self.input.buf@.len(),
        {
            let ghost buf_before = self.input.buf@;
            match self.input.next_frame() {
                Some(p) => {
                    match decode(self.algo, p.as_slice()) {
                        Ok(mut d) => {
                            proof {
                                let k = frames_done.len() as int;
                                assert(spec_deframe(s0).0[k] == p@);
                                assert forall|xs: Seq<Seq<u8>>|
                                    decodes_to(
                                        CompressAlgo::Lz4,
                                        frames_done.push(p@),
                                        xs,
                                    ) implies out@ + d@ == concat_seqs(xs) by {
                                    let head = xs.take(k);
                                    assert forall|i: int| 0 <= i < k implies frames_done[i]
                                        == encode_spec(CompressAlgo::Lz4, head[i]) && head[i].len()
                                        <= u32::MAX by {
                                        assert(head[i] == xs[i]);
                                        assert(frames_done.push(p@)[i] == encode_spec(
                                            CompressAlgo::Lz4,
                                            xs[i],
                                        ) && xs[i].len() <= u32::MAX);
                                        assert(frames_done[i] == frames_done.push(p@)[i]);
                                    }
                                    assert(decodes_to(CompressAlgo::Lz4, frames_done, head));
                                    assert(out@ == concat_seqs(head));
                                    assert(frames_done.push(p@)[k] == encode_spec(
                                        CompressAlgo::Lz4,
                                        xs[k],
                                    ) && xs[k].len() <= u32::MAX);
                                    assert(p@ == encode_spec(CompressAlgo::Lz4, xs[k]));
                                    assert(d@ == xs[k]);
                                    assert(xs =~= head.push(xs[k]));
                                    lemma_concat_push(head, xs[k]);
                                }
                                assert(frames_done.push(p@) + spec_deframe(buf_before).0.drop_first()
                                    =~= frames_done + spec_deframe(buf_before).0);
                            }
                            out.append(&mut d);
                            proof {
                                frames_done = frames_done.push(p@);
                            }
                        },
                        Err(e) => {
                            self.done = true;
                            proof {
                                let k = frames_done.len() as int;
                                assert(spec_deframe(s0).0[k] == p@);
                                assert forall|xs: Seq<Seq<u8>>|
                                    !decodes_to(CompressAlgo::Lz4, spec_deframe(s0).0, xs) by {
                                    if decodes_to(CompressAlgo::Lz4, spec_deframe(s0).0, xs) {
                                        assert(0 <= k < spec_deframe(s0).0.len());
                                        assert(spec_deframe(s0).0[k] == encode_spec(
                                            CompressAlgo::Lz4,
                                            xs[k],
                                        ) && xs[k].len() <= u32::MAX);
                                        assert(p@ == encode_spec(CompressAlgo::Lz4, xs[k]));
                                        assert(false);
                                    }
                                }
                            }
                            return Err(e);
                        },
                    }
                },
                None => {
                    proof {
                        assert(false);
                    }
                },
            }
        }
        proof {
            assert(spec_deframe(self.input.buf@).0.len() == 0);
            assert(frames_done =~= spec_deframe(s0).0);
            assert(spec_deframe(self.input.buf@).1 == self.input.buf@);
            assert(self.input.buf@ == spec_deframe(s0).1);
        }
        self.raw = sat_add(self.raw, out.len());
        Ok(out)
    }

    /// The source has reported end-of-stream: the pump terminates, and the
    /// caller forwards exactly one half-close to the sink. Bytes of an
    /// incomplete record still sitting in the reassembly buffer mean the
    /// stream was cut inside a record: that is a corrupt frame.
    pub fn on_eof(&mut self) -> (r: Result<(), DecodeError>)
        requires
            !old(self).done,
        ensures
            final(self).done,
            final(self).dir == old(self).dir,
            final(self).algo == old(self).algo,
            final(self).raw == old(self).raw,
            final(self).wire == old(self).wire,
            final(self).input.buf@ == old(self).input.buf@,
            r is Ok <==> old(self).input.buf@.len() == 0,
            r matches Err(e) ==> e == DecodeError::CorruptFrame,
    {
        self.done = true;
        if self.input.buf.len() == 0 {
            Ok(())
        } else {
            Err(DecodeError::CorruptFrame)
        }
    }
}

} // verus!
