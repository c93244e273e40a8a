//! Tests for the device capability matcher.

use dynwave::config::{
    select_default_config, select_output_config, DeviceConfig, SampleFormat, SelectedConfig,
};
use dynwave::error::AudioPlayerError;

fn cfg(channels: u16, min_rate: u32, max_rate: u32, format: SampleFormat) -> DeviceConfig {
    DeviceConfig { channels, min_rate, max_rate, format }
}

#[test]
fn exact_match_selects_requested_rate() {
    let configs = vec![
        cfg(1, 44100, 44100, SampleFormat::F32),
        cfg(2, 8000, 192000, SampleFormat::F32),
    ];
    let r = select_output_config(&configs, 44100, SampleFormat::F32);
    assert_eq!(r, Some(SelectedConfig { rate: 44100, format: SampleFormat::F32 }));
}

#[test]
fn exact_match_needs_rate_in_range_and_format() {
    // right rate range but wrong format: not an exact match, scored instead
    let configs = vec![cfg(2, 44100, 44100, SampleFormat::I16)];
    let r = select_output_config(&configs, 44100, SampleFormat::F32);
    // scored winner supports the requested rate, so the rate is pinned to it
    assert_eq!(r, Some(SelectedConfig { rate: 44100, format: SampleFormat::I16 }));
}

#[test]
fn best_effort_picks_highest_score() {
    let configs = vec![
        cfg(1, 44100, 44100, SampleFormat::F32),  // no dual channel: never wins
        cfg(2, 48000, 48000, SampleFormat::I16),  // dual channel only
        cfg(2, 48000, 48000, SampleFormat::F32),  // dual channel + format
    ];
    let r = select_output_config(&configs, 44100, SampleFormat::F32);
    // winner is the third config; 44100 is outside its range, so its
    // maximum rate is taken
    assert_eq!(r, Some(SelectedConfig { rate: 48000, format: SampleFormat::F32 }));
}

#[test]
fn best_effort_tie_keeps_first_seen() {
    let configs = vec![
        cfg(2, 48000, 48000, SampleFormat::F32),
        cfg(2, 96000, 96000, SampleFormat::F32),
    ];
    let r = select_output_config(&configs, 44100, SampleFormat::F32);
    assert_eq!(r, Some(SelectedConfig { rate: 48000, format: SampleFormat::F32 }));
}

#[test]
fn rate_in_range_beats_channels_only() {
    let configs = vec![
        cfg(2, 48000, 48000, SampleFormat::I16),  // score: channels only
        cfg(2, 8000, 96000, SampleFormat::I16),   // score: channels + rate in range
    ];
    let r = select_output_config(&configs, 44100, SampleFormat::F32);
    assert_eq!(r, Some(SelectedConfig { rate: 44100, format: SampleFormat::I16 }));
}

#[test]
fn no_dual_channel_config_yields_no_selection() {
    let configs = vec![
        cfg(1, 44100, 44100, SampleFormat::F32),
        cfg(6, 44100, 44100, SampleFormat::F32),
    ];
    let r = select_output_config(&configs, 44100, SampleFormat::F32);
    assert_eq!(r, None);
}

#[test]
fn empty_config_list_yields_no_selection() {
    let configs: Vec<DeviceConfig> = Vec::new();
    let r = select_output_config(&configs, 44100, SampleFormat::F32);
    assert_eq!(r, None);
}

#[test]
fn default_config_accepted_when_dual_channel() {
    let r = select_default_config(2, 48000, SampleFormat::I16);
    assert_eq!(r, Ok(SelectedConfig { rate: 48000, format: SampleFormat::I16 }));
}

#[test]
fn default_config_rejected_without_dual_channel() {
    let r = select_default_config(1, 48000, SampleFormat::F32);
    assert_eq!(r, Err(AudioPlayerError::DualChannelNotSupported));
}
