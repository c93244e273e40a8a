//! Rate conversion: frame-accurate carry-over accounting around a
//! fixed-block resampling transform.
//!
//! The transform behind this accounting accepts an exact number of input
//! frames per call and produces a transform-determined number of output
//! frames. Callers feed arbitrarily chunked interleaved stereo samples with
//! [`RateConverter::accept`]; whenever a whole input block has accumulated,
//! [`RateConverter::take_block`] hands it out deinterleaved, in order and
//! without losing a sample. Leftover partial frames persist across calls, so
//! the converter itself never drops anything.
//!
//! The transform works on floating-point data, which this crate does not
//! hold, so running a block through it is the caller's side of the loop; the
//! accounting here guarantees that the sequence of blocks handed out is a
//! function of the concatenated input stream alone, independent of how the
//! stream was chunked.

use vstd::prelude::*;

use vstd::arithmetic::div_mod::{
    lemma_fundamental_div_mod,
    lemma_fundamental_div_mod_converse,
    lemma_mod_add_multiples_vanish,
    lemma_small_mod,
};

use crate::codec;
use crate::codec::channel_samples;

verus! {

/// Carry-over accounting for the resampling stage.
pub struct RateConverter {
    /// Whole, unconsumed samples waiting for the next block: always the
    /// suffix of everything accepted so far that was not yet handed out.
    carry: Vec<u64>,
    /// Input frames the transform takes per block.
    input_frames: usize,
    /// Output frames the transform returns per block.
    output_frames: usize,
    /// Every sample ever accepted, in order.
    history: Ghost<Seq<u64>>,
    /// How many samples of `history` were already handed out in blocks.
    taken: Ghost<nat>,
}

impl RateConverter {
    /// Every sample ever accepted, in order.
    pub closed spec fn spec_history(self) -> Seq<u64> {
        self.history@
    }

    /// How many samples of the history were already handed out in blocks;
    /// always a whole number of blocks.
    pub closed spec fn spec_taken(self) -> nat {
        self.taken@
    }

    /// The samples still waiting: the not-yet-consumed suffix of the
    /// history.
    pub closed spec fn spec_pending(self) -> Seq<u64> {
        self.carry@
    }

    /// Input frames the transform takes per block.
    pub closed spec fn spec_input_frames(self) -> nat {
        self.input_frames as nat
    }

    /// Output frames the transform returns per block.
    pub closed spec fn spec_output_frames(self) -> nat {
        self.output_frames as nat
    }

    /// Samples per input block: two channels per frame.
    pub open spec fn spec_block_len(self) -> nat {
        2 * self.spec_input_frames()
    }

    /// A whole block has accumulated and can be taken.
    pub open spec fn spec_block_ready(self) -> bool {
        self.spec_pending().len() >= self.spec_block_len()
    }

    /// Well-formedness: block sizes are usable, a whole number of blocks has
    /// been consumed, and the pending samples are exactly the unconsumed
    /// suffix of the history — the converter never drops a sample.
    pub open spec fn wf(self) -> bool {
        &&& 1 <= self.spec_input_frames()
        &&& self.spec_block_len() <= usize::MAX
        &&& self.spec_taken() % self.spec_block_len() == 0
        &&& self.spec_taken() + self.spec_pending().len() == self.spec_history().len()
        &&& self.spec_pending() == self.spec_history().skip(self.spec_taken() as int)
    }

    /// A fresh converter for a transform that takes `input_frames` frames
    /// per block and returns `output_frames` frames per block.
    pub fn new(input_frames: usize, output_frames: usize) -> (c: RateConverter)
        requires
            1 <= input_frames,
            2 * input_frames <= usize::MAX,
        ensures
            c.wf(),
            c.spec_history() == Seq::<u64>::empty(),
            c.spec_taken() == 0,
            c.spec_input_frames() == input_frames,
            c.spec_output_frames() == output_frames,
    {
        let c = RateConverter {
            carry: Vec::new(),
            input_frames,
            output_frames,
            history: Ghost(Seq::empty()),
            taken: Ghost(0),
        };
        proof {
            assert(c.spec_pending() =~= c.spec_history().skip(0));
            lemma_small_mod(0, c.spec_block_len());
        }
        c
    }

    /// Appends freshly produced samples to the carry-over buffer. Nothing is
    /// consumed here; the new samples only extend the history.
    pub fn accept(&mut self, data: &[u64])
        requires
            old(self).wf(),
        ensures
            final(self).wf(),
            final(self).spec_history() == old(self).spec_history() + data@,
            final(self).spec_taken() == old(self).spec_taken(),
            final(self).spec_input_frames() == old(self).spec_input_frames(),
            final(self).spec_output_frames() == old(self).spec_output_frames(),
            final(self).spec_pending() == old(self).spec_pending() + data@,
    {
        let n = data.len();
        let mut i: usize = 0;
        while i < n
            invariant
                n == data@.len(),
                i <= n,
                self.carry@ == old(self).carry@ + data@.take(i as int),
                self.input_frames == old(self).input_frames,
                self.output_frames == old(self).output_frames,
                self.history == old(self).history,
                self.taken == old(self).taken,
            decreases n - i,
        {
            self.carry.push(data[i]);
            proof {
                assert(self.carry@ =~= old(self).carry@ + data@.take(i + 1));
            }
            i = i + 1;
        }
        proof {
            assert(data@.take(n as int) =~= data@);
            self.history@ = self.history@ + data@;
            assert(final(self).spec_pending() =~= final(self).spec_history().skip(
                final(self).spec_taken() as int,
            ));
        }
    }

    /// A whole input block has accumulated.
    pub fn block_ready(&self) -> (r: bool)
        requires
            self.wf(),
        ensures
            r == self.spec_block_ready(),
    {
        self.carry.len() >= 2 * self.input_frames
    }

    /// Hands out the next input block, deinterleaved into the two channel
    /// buffers, and removes it from the carry-over buffer: the block is the
    /// next unconsumed stretch of the history, so blocks come out in order
    /// and none is skipped.
    pub fn take_block(&mut self, out0: &mut Vec<u64>, out1: &mut Vec<u64>)
        requires
            old(self).wf(),
            old(self).spec_block_ready(),
        ensures
            final(self).wf(),
            final(self).spec_history() == old(self).spec_history(),
            final(self).spec_input_frames() == old(self).spec_input_frames(),
            final(self).spec_output_frames() == old(self).spec_output_frames(),
            final(self).spec_taken() == old(self).spec_taken() + old(self).spec_block_len(),
            final(out0)@ == channel_samples(
                old(self).spec_history().subrange(
                    old(self).spec_taken() as int,
                    old(self).spec_taken() as int + old(self).spec_block_len() as int,
                ),
                0,
            ),
            final(out1)@ == channel_samples(
                old(self).spec_history().subrange(
                    old(self).spec_taken() as int,
                    old(self).spec_taken() as int + old(self).spec_block_len() as int,
                ),
                1,
            ),
            final(self).spec_pending() == old(self).spec_pending().skip(
                old(self).spec_block_len() as int,
            ),
    {
        let block_len = 2 * self.input_frames;
        codec::deinterleave(self.carry.as_slice(), self.input_frames, out0, out1);
        let tail = self.carry.split_off(block_len);
        self.carry = tail;
        proof {
            let ghost b = old(self).spec_block_len() as int;
            let ghost t = old(self).spec_taken() as int;
            assert(old(self).carry@.take(b) =~= old(self).spec_history().subrange(t, t + b));
            self.taken@ = self.taken@ + old(self).spec_block_len();
            lemma_mod_add_multiples_vanish(
                old(self).spec_taken() as int,
                old(self).spec_block_len() as int,
            );
            assert(final(self).spec_pending() =~= final(self).spec_history().skip(t + b));
        }
    }

    /// How many samples are waiting in the carry-over buffer.
    pub fn pending_len(&self) -> (n: usize)
        ensures
            n == self.spec_pending().len(),
    {
        self.carry.len()
    }

    /// Input frames the transform takes per block.
    pub fn input_frames(&self) -> (n: usize)
        ensures
            n == self.spec_input_frames(),
    {
        self.input_frames
    }

    /// Output frames the transform returns per block.
    pub fn output_frames(&self) -> (n: usize)
        ensures
            n == self.spec_output_frames(),
    {
        self.output_frames
    }

    /// Carry-over accounting is independent of chunking: two converters for
    /// the same block size that have accepted the same total sample stream —
    /// in however different chunks — and have both been drained (no whole
    /// block left) have consumed exactly the same blocks of the stream and
    /// hold exactly the same leftover samples. Since each consumed block is
    /// a fixed stretch of the history, a deterministic transform then sees
    /// bit-identical inputs either way.
    pub proof fn lemma_chunking_independent(a: RateConverter, b: RateConverter)
        requires
            a.wf(),
            b.wf(),
            !a.spec_block_ready(),
            !b.spec_block_ready(),
            a.spec_history() == b.spec_history(),
            a.spec_input_frames() == b.spec_input_frames(),
        ensures
            a.spec_taken() == b.spec_taken(),
            a.spec_pending() == b.spec_pending(),
    {
        let blk = a.spec_block_len() as int;
        let len = a.spec_history().len() as int;
        Self::lemma_drained_taken(a, blk, len);
        Self::lemma_drained_taken(b, blk, len);
    }

    /// In a drained converter the consumed prefix is pinned down: it is the
    /// largest whole number of blocks that fits in the history.
    proof fn lemma_drained_taken(c: RateConverter, blk: int, len: int)
        requires
            c.wf(),
            !c.spec_block_ready(),
            blk == c.spec_block_len(),
            len == c.spec_history().len(),
        ensures
            c.spec_taken() == len - len % blk,
    {
        let t = c.spec_taken() as int;
        lemma_fundamental_div_mod(t, blk);
        assert(t == blk * (t / blk));
        assert(len == (t / blk) * blk + (len - t)) by {
            assert(blk * (t / blk) == (t / blk) * blk);
        }
        lemma_fundamental_div_mod_converse(len, blk, t / blk, len - t);
    }
}

} // verus!
