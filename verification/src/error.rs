//! Error types of the audio player.
//!
//! Construction-time failures are reported as [`AudioPlayerError`]; starting
//! and stopping playback reports [`PlayError`]. Conditions the audio backend
//! reports with its own payload are carried as their textual description.

use vstd::prelude::*;

verus! {

/// Everything that can go wrong while building the pipeline.
#[derive(Debug, Clone, PartialEq, Eq)]
pub enum AudioPlayerError {
    /// No output device was found.
    NoOutputDevice,
    /// The device does not support dual-channel output in any configuration.
    DualChannelNotSupported,
    /// The device is no longer available.
    DeviceNotAvailable,
    /// A backend-specific failure, carried as its description.
    DeviceBackendSpecificError(String),
    /// The requested stream type is not supported by the device.
    StreamTypeNotSupported,
    /// The backend rejected an argument of a stream-configuration query.
    StreamConfigInvalidArgument,
    /// Registering one more stream would overflow the backend's stream ids.
    StreamIdOverflow,
    /// The chosen stream configuration is not supported by the device.
    StreamConfigNotSupported,
    /// The resampling transform rejected the requested rate pair,
    /// carried as its description.
    ResamplerConstructionError(String),
}

/// Everything that can go wrong when starting or pausing playback.
#[derive(Debug, Clone, PartialEq, Eq)]
pub enum PlayError {
    /// The device associated with the stream is no longer available.
    DeviceNotAvailable,
    /// A backend-specific failure, carried as its description.
    DeviceBackendSpecificError(String),
}

} // verus!
