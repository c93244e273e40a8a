//! Core of a dynamic audio player for a continuously generated sample stream.
//!
//! The pipeline absorbs the mismatch between the rate at which a caller
//! produces interleaved stereo samples and the rate a hardware output device
//! actually plays:
//!
//! - [`config`] negotiates an output configuration against the device's
//!   declared capabilities;
//! - [`codec`] splits interleaved stereo streams into planar channel buffers
//!   and merges them back;
//! - [`converter`] keeps the frame-accurate carry-over accounting around a
//!   fixed-block resampling transform;
//! - [`buffer`] is the bounded handoff queue between the producer and the
//!   real-time playback callback;
//! - [`player`] wires those together once, at construction time.
//!
//! Samples travel through the pipeline as opaque 64-bit words: the pipeline
//! only moves them, it never does arithmetic on them. The caller chooses a
//! concrete representation (for example the bit pattern of an `f32`) and the
//! playback side interprets the words again.

pub mod buffer;
pub mod codec;
pub mod config;
pub mod converter;
pub mod error;
pub mod player;
