//! The pipeline core: capacity policy, one-shot wiring, and steady-state
//! sample delivery.
//!
//! [`AudioPlayer::new`] is run once, after the device capability matcher has
//! fixed the output configuration: it sizes the handoff buffer from the
//! output rate and installs the rate converter exactly when the selected
//! rate differs from the requested one. [`AudioPlayer::queue`] is the
//! steady-state entry: it never fails and never blocks — with a converter it
//! extends the carry-over stream, without one it pushes straight into the
//! handoff buffer, silently dropping what does not fit.
//!
//! The resampling transform itself works on floating-point blocks that this
//! crate does not hold, so the playback side drives it: it drains ready
//! input blocks with [`AudioPlayer::next_input_block`], runs them through
//! the transform, and hands the results back with
//! [`AudioPlayer::push_converted`].

use vstd::prelude::*;

use crate::buffer::HandoffBuffer;
use crate::codec;
use crate::codec::interleaved;
use crate::config::{SampleFormat, SelectedConfig};
use crate::converter::RateConverter;

verus! {

/// How many samples the handoff buffer may hold: a fraction of a second's
/// worth against the output rate, or an explicit count. A smaller buffer
/// lowers the delay between production and playback but risks underruns on
/// slow producers; the trade-off is the caller's.
#[derive(Debug, Clone, Copy, Default)]
pub enum BufferSize {
    /// A quarter second's worth of samples.
    #[default]
    QuarterSecond,
    /// Half a second's worth of samples.
    HalfSecond,
    /// One second's worth of samples.
    OneSecond,
    /// An explicit number of samples, counted over all channels.
    Samples(usize),
}

impl BufferSize {
    /// The sample count this policy yields for the given rate and channel
    /// count.
    pub open spec fn spec_store_for_samples(self, sample_rate: nat, channels: nat) -> nat {
        match self {
            BufferSize::QuarterSecond => (sample_rate / 4) * channels,
            BufferSize::HalfSecond => (sample_rate / 2) * channels,
            BufferSize::OneSecond => sample_rate * channels,
            BufferSize::Samples(n) => n as nat,
        }
    }

    /// Returns the number of samples the buffer has to store under this
    /// policy.
    pub fn store_for_samples(&self, sample_rate: usize, channels: usize) -> (n: usize)
        requires
            sample_rate * channels <= usize::MAX,
        ensures
            n == self.spec_store_for_samples(sample_rate as nat, channels as nat),
    {
        proof {
            assert((sample_rate as int / 4) * channels <= sample_rate * channels)
                by (nonlinear_arith)
                requires
                    sample_rate >= 0,
                    channels >= 0,
            ;
            assert((sample_rate as int / 2) * channels <= sample_rate * channels)
                by (nonlinear_arith)
                requires
                    sample_rate >= 0,
                    channels >= 0,
            ;
        }
        match self {
            BufferSize::QuarterSecond => sample_rate / 4 * channels,
            BufferSize::HalfSecond => sample_rate / 2 * channels,
            BufferSize::OneSecond => sample_rate * channels,
            BufferSize::Samples(alternative_samples) => *alternative_samples,
        }
    }
}

/// The assembled pipeline: the optional rate converter in front of the
/// bounded handoff buffer, pinned to the selected output configuration.
pub struct AudioPlayer {
    buffer: HandoffBuffer,
    converter: Option<RateConverter>,
    selected: SelectedConfig,
    /// Reusable interleaved output buffer for converted blocks.
    merged: Vec<u64>,
}

impl AudioPlayer {
    /// The handoff buffer between producer and playback callback.
    pub closed spec fn spec_buffer(self) -> HandoffBuffer {
        self.buffer
    }

    /// The rate converter, present exactly when the selected rate differs
    /// from the requested one.
    pub closed spec fn spec_converter(self) -> Option<RateConverter> {
        self.converter
    }

    /// The output configuration the pipeline was built for.
    pub closed spec fn spec_selected(self) -> SelectedConfig {
        self.selected
    }

    /// Well-formedness of the assembled pipeline.
    pub open spec fn wf(self) -> bool {
        &&& self.spec_buffer().wf()
        &&& match self.spec_converter() {
            Some(c) => c.wf(),
            None => true,
        }
    }

    /// Wires the pipeline once, after matching: the handoff buffer is sized
    /// by the policy against the selected output rate for two channels, and
    /// a rate converter — with the block sizes the transform reported — is
    /// installed if and only if the selected rate differs from the rate the
    /// caller produces at.
    pub fn new(
        requested_rate: u32,
        selected: SelectedConfig,
        buffer_size: BufferSize,
        converter_blocks: Option<(usize, usize)>,
    ) -> (p: AudioPlayer)
        requires
            2 * selected.rate <= usize::MAX,
            1 <= buffer_size.spec_store_for_samples(selected.rate as nat, 2),
            buffer_size.spec_store_for_samples(selected.rate as nat, 2) <= usize::MAX,
            converter_blocks is Some <==> selected.rate != requested_rate,
            converter_blocks matches Some((input_frames, _)) ==> 1 <= input_frames && 2
                * input_frames <= usize::MAX,
        ensures
            p.wf(),
            p.spec_selected() == selected,
            p.spec_buffer()@ == Seq::<u64>::empty(),
            p.spec_buffer().spec_capacity() == buffer_size.spec_store_for_samples(
                selected.rate as nat,
                2,
            ),
            p.spec_converter() is Some <==> selected.rate != requested_rate,
            p.spec_converter() matches Some(c) ==> {
                &&& c.spec_history() == Seq::<u64>::empty()
                &&& Some((c.spec_input_frames() as usize, c.spec_output_frames() as usize))
                    == converter_blocks
            },
    {
        let capacity = buffer_size.store_for_samples(selected.rate as usize, 2);
        let buffer = HandoffBuffer::new(capacity);
        let converter = match converter_blocks {
            Some((input_frames, output_frames)) => Some(
                RateConverter::new(input_frames, output_frames),
            ),
            None => None,
        };
        AudioPlayer { buffer, converter, selected, merged: Vec::new() }
    }

    /// Queues freshly produced samples; never fails and never blocks.
    ///
    /// Without a converter the samples go straight into the handoff buffer
    /// and whatever exceeds the free space is silently dropped. With a
    /// converter they only extend the carry-over stream; the playback side
    /// then drains whole blocks through [`AudioPlayer::next_input_block`].
    pub fn queue(&mut self, data: &[u64])
        requires
            old(self).wf(),
        ensures
            final(self).wf(),
            final(self).spec_selected() == old(self).spec_selected(),
            final(self).spec_buffer().spec_capacity() == old(self).spec_buffer().spec_capacity(),
            old(self).spec_converter() is None ==> {
                &&& final(self).spec_converter() is None
                &&& final(self).spec_buffer()@ == old(self).spec_buffer()@ + data@.take(
                    old(self).spec_buffer().spec_accept_count(data@.len()) as int,
                )
            },
            old(self).spec_converter() matches Some(c) ==> {
                &&& final(self).spec_buffer() == old(self).spec_buffer()
                &&& final(self).spec_converter() matches Some(d)
                &&& c.spec_history() + data@ == final(self).spec_converter()->Some_0.spec_history()
                &&& final(self).spec_converter()->Some_0.spec_taken() == c.spec_taken()
                &&& final(self).spec_converter()->Some_0.spec_input_frames()
                    == c.spec_input_frames()
                &&& final(self).spec_converter()->Some_0.spec_output_frames()
                    == c.spec_output_frames()
            },
    {
        match &mut self.converter {
            Some(converter) => {
                converter.accept(data);
            },
            None => {
                self.buffer.push(data);
            },
        }
    }

    /// Drains the next whole input block into the two channel scratch
    /// buffers, if a converter is present and a block has accumulated.
    /// The playback side runs the block through the transform and hands the
    /// result back to [`AudioPlayer::push_converted`].
    pub fn next_input_block(&mut self, out0: &mut Vec<u64>, out1: &mut Vec<u64>) -> (got: bool)
        requires
            old(self).wf(),
        ensures
            final(self).wf(),
            final(self).spec_selected() == old(self).spec_selected(),
            final(self).spec_buffer() == old(self).spec_buffer(),
            got == (old(self).spec_converter() matches Some(c) && c.spec_block_ready()),
            !got ==> *final(self) == *old(self) && final(out0)@ == old(out0)@ && final(out1)@
                == old(out1)@,
            got ==> (old(self).spec_converter() matches Some(c) && {
                &&& final(self).spec_converter() matches Some(d)
                &&& d.spec_history() == c.spec_history()
                &&& d.spec_input_frames() == c.spec_input_frames()
                &&& d.spec_output_frames() == c.spec_output_frames()
                &&& d.spec_taken() == c.spec_taken() + c.spec_block_len()
                &&& final(out0)@ == codec::channel_samples(
                    c.spec_history().subrange(
                        c.spec_taken() as int,
                        c.spec_taken() as int + c.spec_block_len() as int,
                    ),
                    0,
                )
                &&& final(out1)@ == codec::channel_samples(
                    c.spec_history().subrange(
                        c.spec_taken() as int,
                        c.spec_taken() as int + c.spec_block_len() as int,
                    ),
                    1,
                )
            }),
    {
        match &mut self.converter {
            Some(converter) => {
                if converter.block_ready() {
                    converter.take_block(out0, out1);
                    true
                } else {
                    false
                }
            },
            None => false,
        }
    }

    /// Accepts one transformed block back from the playback side: the two
    /// equally long channel buffers are interleaved again and pushed into
    /// the handoff buffer, dropping the samples that do not fit.
    pub fn push_converted(&mut self, out0: &[u64], out1: &[u64]) -> (n: usize)
        requires
            old(self).wf(),
            out0@.len() == out1@.len(),
        ensures
            final(self).wf(),
            final(self).spec_selected() == old(self).spec_selected(),
            final(self).spec_converter() == old(self).spec_converter(),
            final(self).spec_buffer().spec_capacity() == old(self).spec_buffer().spec_capacity(),
            n == old(self).spec_buffer().spec_accept_count(interleaved(out0@, out1@).len()),
            final(self).spec_buffer()@ == old(self).spec_buffer()@ + interleaved(
                out0@,
                out1@,
            ).take(n as int),
    {
        self.merged.clear();
        codec::interleave(out0, out1, &mut self.merged);
        let n = self.buffer.push(self.merged.as_slice());
        n
    }

    /// Dequeues the eldest sample for playback, or nothing when the buffer
    /// has run empty.
    pub fn pop_sample(&mut self) -> (r: Option<u64>)
        requires
            old(self).wf(),
        ensures
            final(self).wf(),
            final(self).spec_selected() == old(self).spec_selected(),
            final(self).spec_converter() == old(self).spec_converter(),
            final(self).spec_buffer().spec_capacity() == old(self).spec_buffer().spec_capacity(),
            old(self).spec_buffer()@.len() == 0 ==> r is None && final(self).spec_buffer()@ == old(self).spec_buffer()@,
            old(self).spec_buffer()@.len() > 0 ==> r == Some(old(self).spec_buffer()@[0]) && final(self).spec_buffer()@ == old(self).spec_buffer()@.drop_first(),
    {
        self.buffer.pop()
    }

    /// Dequeues the eldest sample for playback, substituting the given
    /// neutral (silence) sample on an underrun; never blocks, never fails.
    pub fn pop_sample_or(&mut self, neutral: u64) -> (s: u64)
        requires
            old(self).wf(),
        ensures
            final(self).wf(),
            final(self).spec_selected() == old(self).spec_selected(),
            final(self).spec_converter() == old(self).spec_converter(),
            final(self).spec_buffer().spec_capacity() == old(self).spec_buffer().spec_capacity(),
            old(self).spec_buffer()@.len() == 0 ==> s == neutral && final(self).spec_buffer()@
                == old(self).spec_buffer()@,
            old(self).spec_buffer()@.len() > 0 ==> s == old(self).spec_buffer()@[0] && final(self).spec_buffer()@ == old(self).spec_buffer()@.drop_first(),
    {
        self.buffer.pop_or(neutral)
    }

    /// The rate the device will play at.
    pub fn output_rate(&self) -> (r: u32)
        ensures
            r == self.spec_selected().rate,
    {
        self.selected.rate
    }

    /// The sample representation the device expects.
    pub fn output_format(&self) -> (f: SampleFormat)
        ensures
            f == self.spec_selected().format,
    {
        self.selected.format
    }

    /// Whether a rate converter sits in front of the handoff buffer.
    pub fn needs_converter(&self) -> (r: bool)
        ensures
            r == (self.spec_converter() is Some),
    {
        self.converter.is_some()
    }

    /// The fixed capacity of the handoff buffer.
    pub fn buffer_capacity(&self) -> (c: usize)
        ensures
            c == self.spec_buffer().spec_capacity(),
    {
        self.buffer.capacity()
    }

    /// How many samples are queued for playback right now.
    pub fn buffered_len(&self) -> (n: usize)
        ensures
            n == self.spec_buffer()@.len(),
    {
        self.buffer.len()
    }

    /// An exact capability match runs without rate conversion: when some
    /// device configuration exactly serves the request, the matcher selects
    /// the requested rate (its contract), and a pipeline built from that
    /// selection (the contract of [`AudioPlayer::new`]) installs no rate
    /// converter.
    pub proof fn lemma_exact_match_runs_unconverted(
        self,
        configs: Seq<crate::config::DeviceConfig>,
        requested_rate: u32,
        requested_format: SampleFormat,
    )
        requires
            crate::config::has_exact_match(configs, requested_rate, requested_format),
            self.spec_selected() == (SelectedConfig {
                rate: requested_rate,
                format: requested_format,
            }),
            self.spec_converter() is Some <==> self.spec_selected().rate != requested_rate,
        ensures
            self.spec_converter() is None,
    {
    }
}

} // verus!
