//! Tests for the rate-converter carry-over accounting and the buffer-size
//! policy.

use dynwave::converter::RateConverter;
use dynwave::player::BufferSize;

#[test]
fn blocks_come_out_deinterleaved_and_in_order() {
    // two frames per block: four samples
    let mut c = RateConverter::new(2, 3);
    c.accept(&[1, 2, 3]);
    assert!(!c.block_ready());
    assert_eq!(c.pending_len(), 3);
    c.accept(&[4, 5]);
    assert!(c.block_ready());
    let mut c0: Vec<u64> = Vec::new();
    let mut c1: Vec<u64> = Vec::new();
    c.take_block(&mut c0, &mut c1);
    assert_eq!(c0, vec![1, 3]);
    assert_eq!(c1, vec![2, 4]);
    // the partial frame carries over
    assert!(!c.block_ready());
    assert_eq!(c.pending_len(), 1);
    assert_eq!(c.input_frames(), 2);
    assert_eq!(c.output_frames(), 3);
}

#[test]
fn carry_over_never_drops_a_sample() {
    let mut c = RateConverter::new(2, 2);
    let stream: Vec<u64> = (0..23).collect();
    for chunk in stream.chunks(5) {
        c.accept(chunk);
    }
    let mut recovered: Vec<u64> = Vec::new();
    let mut c0: Vec<u64> = Vec::new();
    let mut c1: Vec<u64> = Vec::new();
    while c.block_ready() {
        c.take_block(&mut c0, &mut c1);
        for i in 0..c0.len() {
            recovered.push(c0[i]);
            recovered.push(c1[i]);
        }
    }
    // 23 samples: five whole blocks of 4 came out, 3 samples wait
    assert_eq!(recovered, (0..20).collect::<Vec<u64>>());
    assert_eq!(c.pending_len(), 3);
}

#[test]
fn chunking_does_not_change_the_blocks() {
    let stream: Vec<u64> = (0..101).map(|i| i * 7 + 1).collect();

    // all at once
    let mut a = RateConverter::new(4, 4);
    a.accept(&stream);
    let mut blocks_a: Vec<Vec<u64>> = Vec::new();
    let mut c0: Vec<u64> = Vec::new();
    let mut c1: Vec<u64> = Vec::new();
    while a.block_ready() {
        a.take_block(&mut c0, &mut c1);
        blocks_a.push(c0.clone());
        blocks_a.push(c1.clone());
    }

    // one sample at a time, draining eagerly as the pipeline does
    let mut b = RateConverter::new(4, 4);
    let mut blocks_b: Vec<Vec<u64>> = Vec::new();
    for s in &stream {
        b.accept(&[*s]);
        while b.block_ready() {
            b.take_block(&mut c0, &mut c1);
            blocks_b.push(c0.clone());
            blocks_b.push(c1.clone());
        }
    }

    assert_eq!(blocks_a, blocks_b);
    assert_eq!(a.pending_len(), b.pending_len());
}

#[test]
fn buffer_size_formulas() {
    assert_eq!(BufferSize::QuarterSecond.store_for_samples(44100, 2), 22050);
    assert_eq!(BufferSize::HalfSecond.store_for_samples(44100, 2), 44100);
    assert_eq!(BufferSize::OneSecond.store_for_samples(44100, 2), 88200);
    assert_eq!(BufferSize::Samples(1234).store_for_samples(44100, 2), 1234);
    // odd rates divide first, then multiply by the channel count
    assert_eq!(BufferSize::QuarterSecond.store_for_samples(44102, 2), 22050);
    assert_eq!(BufferSize::QuarterSecond.store_for_samples(7, 2), 2);
}

#[test]
fn default_buffer_size_is_a_quarter_second() {
    let d = BufferSize::default();
    assert_eq!(d.store_for_samples(48000, 2), 24000);
}
