//! Typed messages between the UI shell and the engine.

use vstd::prelude::*;
use crate::state::EngineState;
use crate::types::{AudioDevice, CaptureSource, StreamConfig, StreamMetrics, WarningType};

verus! {

/// Channel capacity for commands (UI to engine).
pub const COMMAND_CHANNEL_CAPACITY: usize = 64;

/// Channel capacity for events (engine to UI).
pub const EVENT_CHANNEL_CAPACITY: usize = 256;

/// Commands that the UI can send to the engine.
#[derive(Debug, Clone)]
pub enum EngineCommand {
    /// Start streaming with the given configuration.
    Start { config: StreamConfig },
    /// Stop the current stream.
    Stop,
    /// Set microphone volume in permille of full scale (0..=1000).
    SetMicVolume(u32),
    /// Set system audio volume in permille of full scale (0..=1000).
    SetSystemVolume(u32),
    /// Mute or unmute the microphone.
    SetMicMuted(bool),
    /// Mute or unmute system audio.
    SetSystemMuted(bool),
    /// Request the list of available capture sources.
    GetCaptureSources,
    /// Request the list of available audio devices.
    GetAudioDevices,
    /// Request the current engine state.
    GetState,
    /// Shut the engine down completely.
    Shutdown,
}

/// Events that the engine can send to the UI.
#[derive(Debug, Clone)]
pub enum EngineEvent {
    /// Engine state has changed.
    StateChanged {
        /// Previous state.
        previous: Box<EngineState>,
        /// Current state.
        current: Box<EngineState>,
    },
    /// Updated stream metrics.
    Metrics(StreamMetrics),
    /// Performance warning detected.
    PerformanceWarning(WarningType),
    /// Error occurred.
    Error {
        /// Whether the error is recoverable.
        recoverable: bool,
        /// Error message.
        message: String,
    },
    /// List of available capture sources.
    CaptureSources(Vec<CaptureSource>),
    /// List of available audio devices.
    AudioDevices(Vec<AudioDevice>),
    /// Engine is ready.
    Ready,
    /// Engine has shut down.
    Shutdown,
}

} // verus!
