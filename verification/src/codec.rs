//! Channel frame codec: pure shuffling between interleaved stereo streams
//! and per-channel planar buffers.
//!
//! An interleaved stereo stream alternates one sample of the left channel and
//! one of the right channel per frame. The resampling transform wants planar
//! buffers, one per channel; [`deinterleave`] splits a prefix of a stream
//! into the two, [`interleave`] merges them back.

use vstd::prelude::*;

verus! {

/// The samples of one channel of an interleaved stereo stream: every second
/// sample, starting at `which` (0 for the left channel, 1 for the right).
pub open spec fn channel_samples(s: Seq<u64>, which: int) -> Seq<u64>
    recommends
        which == 0 || which == 1,
{
    Seq::new(s.len() / 2, |i: int| s[2 * i + which])
}

/// The interleaved stereo stream built from two equally long channels:
/// frame `i` holds `c0[i]` then `c1[i]`.
pub open spec fn interleaved(c0: Seq<u64>, c1: Seq<u64>) -> Seq<u64>
    recommends
        c0.len() == c1.len(),
{
    Seq::new(2 * c0.len(), |i: int| if i % 2 == 0 {
        c0[i / 2]
    } else {
        c1[i / 2]
    })
}

/// Splits the first `frames` stereo frames of `flat` into the two channel
/// buffers, replacing their previous contents and preserving order.
///
/// The caller must guarantee that `flat` holds at least `frames` whole
/// frames; the converter's frame accounting does.
pub fn deinterleave(flat: &[u64], frames: usize, out0: &mut Vec<u64>, out1: &mut Vec<u64>)
    requires
        2 * frames <= flat@.len(),
    ensures
        final(out0)@ == channel_samples(flat@.take(2 * frames as int), 0),
        final(out1)@ == channel_samples(flat@.take(2 * frames as int), 1),
{
    out0.clear();
    out1.clear();
    let total: usize = flat.len();
    let mut i: usize = 0;
    while i < frames
        invariant
            2 * frames <= total,
            total == flat@.len(),
            i <= frames,
            out0@.len() == i,
            out1@.len() == i,
            forall|j: int| 0 <= j < i ==> out0@[j] == flat@[2 * j],
            forall|j: int| 0 <= j < i ==> out1@[j] == flat@[2 * j + 1],
        decreases frames - i,
    {
        out0.push(flat[2 * i]);
        out1.push(flat[2 * i + 1]);
        i = i + 1;
    }
    proof {
        assert(out0@ =~= channel_samples(flat@.take(2 * frames as int), 0));
        assert(out1@ =~= channel_samples(flat@.take(2 * frames as int), 1));
    }
}

/// Appends the interleaved merge of two equally long channel buffers to
/// `out`: the inverse of [`deinterleave`].
pub fn interleave(c0: &[u64], c1: &[u64], out: &mut Vec<u64>)
    requires
        c0@.len() == c1@.len(),
    ensures
        final(out)@ == old(out)@ + interleaved(c0@, c1@),
{
    let frames = c0.len();
    let ghost base = out@.len() as int;
    let mut i: usize = 0;
    while i < frames
        invariant
            frames == c0@.len(),
            c0@.len() == c1@.len(),
            i <= frames,
            base == old(out)@.len(),
            out@.len() == base + 2 * i,
            out@.take(base) == old(out)@,
            forall|j: int| 0 <= j < i ==> out@[base + 2 * j] == c0@[j],
            forall|j: int| 0 <= j < i ==> out@[base + 2 * j + 1] == c1@[j],
        decreases frames - i,
    {
        out.push(c0[i]);
        out.push(c1[i]);
        i = i + 1;
    }
    proof {
        assert(out@ =~= old(out)@ + interleaved(c0@, c1@));
    }
}

/// Round trip: splitting an even-length stereo stream into its two channels
/// and interleaving them again reconstructs the stream exactly.
pub proof fn lemma_interleave_roundtrip(s: Seq<u64>)
    requires
        s.len() % 2 == 0,
    ensures
        interleaved(channel_samples(s, 0), channel_samples(s, 1)) == s,
{
    let merged = interleaved(channel_samples(s, 0), channel_samples(s, 1));
    assert forall|i: int| 0 <= i < s.len() implies merged[i] == s[i] by {
        if i % 2 == 0 {
            assert(2 * (i / 2) + 0 == i);
        } else {
            assert(2 * (i / 2) + 1 == i);
        }
    }
    assert(merged =~= s);
}

/// The other direction of the round trip: the two channels read back from an
/// interleaved merge are the original channel buffers.
pub proof fn lemma_deinterleave_roundtrip(c0: Seq<u64>, c1: Seq<u64>)
    requires
        c0.len() == c1.len(),
    ensures
        channel_samples(interleaved(c0, c1), 0) == c0,
        channel_samples(interleaved(c0, c1), 1) == c1,
{
    let merged = interleaved(c0, c1);
    assert(channel_samples(merged, 0) =~= c0);
    assert(channel_samples(merged, 1) =~= c1);
}

} // verus!
