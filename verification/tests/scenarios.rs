//! End-to-end pipeline scenarios, with the real resampling transform
//! driving the converted path.

use dynwave::config::{select_output_config, DeviceConfig, SampleFormat, SelectedConfig};
use dynwave::player::{AudioPlayer, BufferSize};
use rubato::audioadapter_buffers::direct::SequentialSliceOfVecs;
use rubato::{Fft, FixedSync, Resampler};

fn word(s: f32) -> u64 {
    s.to_bits() as u64
}

fn sample(w: u64) -> f32 {
    f32::from_bits(w as u32)
}

/// Runs every ready input block through the transform and hands the results
/// back to the pipeline.
fn drive(player: &mut AudioPlayer, fft: &mut Fft<f32>) {
    let mut in0: Vec<u64> = Vec::new();
    let mut in1: Vec<u64> = Vec::new();
    while player.next_input_block(&mut in0, &mut in1) {
        let frames_in = in0.len();
        let wave_in = vec![
            in0.iter().map(|w| sample(*w)).collect::<Vec<f32>>(),
            in1.iter().map(|w| sample(*w)).collect::<Vec<f32>>(),
        ];
        let frames_out = fft.output_frames_next();
        let mut wave_out = vec![vec![0.0f32; frames_out], vec![0.0f32; frames_out]];
        let input = SequentialSliceOfVecs::new(&wave_in[..], 2, frames_in).unwrap();
        let mut output = SequentialSliceOfVecs::new_mut(&mut wave_out[..], 2, frames_out).unwrap();
        fft.process_into_buffer(&input, &mut output, None).unwrap();
        let out0 = wave_out[0].iter().map(|s| word(*s)).collect::<Vec<u64>>();
        let out1 = wave_out[1].iter().map(|s| word(*s)).collect::<Vec<u64>>();
        player.push_converted(&out0, &out1);
    }
}

#[test]
fn scenario_device_needs_resampling() {
    // the device only plays 48000 stereo float; the caller produces 44100
    let configs = vec![DeviceConfig {
        channels: 2,
        min_rate: 48000,
        max_rate: 48000,
        format: SampleFormat::F32,
    }];
    let selected = select_output_config(&configs, 44100, SampleFormat::F32).unwrap();
    assert_eq!(selected, SelectedConfig { rate: 48000, format: SampleFormat::F32 });

    let mut fft =
        Fft::<f32>::new(44100, 48000, 44100 / 60, 2, FixedSync::Both).unwrap();
    let frames_in = fft.input_frames_next();
    let frames_out = fft.output_frames_next();
    let mut player = AudioPlayer::new(
        44100,
        selected,
        BufferSize::OneSecond,
        Some((frames_in, frames_out)),
    );
    assert!(player.needs_converter());
    assert_eq!(player.output_rate(), 48000);

    // queue a thousand silent samples at a time until a whole transform
    // block has accumulated and been converted
    let silence = vec![word(0.0); 1000];
    let mut queued_frames: usize = 0;
    while player.buffered_len() == 0 {
        player.queue(&silence);
        queued_frames += silence.len() / 2;
        drive(&mut player, &mut fft);
        assert!(queued_frames < 100 * frames_in, "converter never produced output");
    }

    // whole converted blocks arrive: two samples per output frame
    let produced = player.buffered_len();
    assert_eq!(produced % (2 * frames_out), 0);
    // and they pop as a proper stereo stream, frame by frame
    let mut popped: usize = 0;
    while let Some(_) = player.pop_sample() {
        popped += 1;
    }
    assert_eq!(popped, produced);
}

#[test]
fn scenario_exact_rate_passes_samples_through() {
    let configs = vec![DeviceConfig {
        channels: 2,
        min_rate: 44100,
        max_rate: 44100,
        format: SampleFormat::F32,
    }];
    let selected = select_output_config(&configs, 44100, SampleFormat::F32).unwrap();
    assert_eq!(selected, SelectedConfig { rate: 44100, format: SampleFormat::F32 });

    let mut player = AudioPlayer::new(44100, selected, BufferSize::OneSecond, None);
    assert!(!player.needs_converter());

    let data: Vec<u64> = vec![word(0.1), word(-0.2), word(0.3), word(-0.4)];
    player.queue(&data);
    assert_eq!(player.buffered_len(), 4);
    // samples appear unmodified, in order
    assert_eq!(player.pop_sample(), Some(word(0.1)));
    assert_eq!(player.pop_sample(), Some(word(-0.2)));
    assert_eq!(player.pop_sample(), Some(word(0.3)));
    assert_eq!(player.pop_sample(), Some(word(-0.4)));
    assert_eq!(player.pop_sample(), None);
    // an underrun substitutes silence
    assert_eq!(player.pop_sample_or(word(0.0)), word(0.0));
}

#[test]
fn scenario_burst_larger_than_buffer_keeps_earliest_samples() {
    let selected = SelectedConfig { rate: 44100, format: SampleFormat::F32 };
    let mut player =
        AudioPlayer::new(44100, selected, BufferSize::Samples(8), None);
    assert_eq!(player.buffer_capacity(), 8);

    let burst: Vec<u64> = (1..=12).collect();
    player.queue(&burst);
    // exactly the capacity is retained: the earliest-fitting samples
    assert_eq!(player.buffered_len(), 8);
    for expected in 1u64..=8 {
        assert_eq!(player.pop_sample(), Some(expected));
    }
    assert_eq!(player.pop_sample(), None);
}

#[test]
fn resampled_output_is_identical_for_any_chunking() {
    let run = |chunk_len: usize| -> Vec<u64> {
        let selected = SelectedConfig { rate: 48000, format: SampleFormat::F32 };
        let mut fft =
            Fft::<f32>::new(44100, 48000, 44100 / 60, 2, FixedSync::Both).unwrap();
        let mut player = AudioPlayer::new(
            44100,
            selected,
            BufferSize::Samples(1 << 20),
            Some((fft.input_frames_next(), fft.output_frames_next())),
        );
        let stream: Vec<u64> =
            (0..4000).map(|i| word(((i % 100) as f32 - 50.0) / 50.0)).collect();
        for chunk in stream.chunks(chunk_len) {
            player.queue(chunk);
            drive(&mut player, &mut fft);
        }
        let mut out = Vec::new();
        while let Some(w) = player.pop_sample() {
            out.push(w);
        }
        out
    };

    let all_at_once = run(4000);
    let one_at_a_time = run(1);
    let odd_chunks = run(37);
    assert!(!all_at_once.is_empty());
    assert_eq!(all_at_once, one_at_a_time);
    assert_eq!(all_at_once, odd_chunks);
}
