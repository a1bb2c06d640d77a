//! Core logic of a live-streaming broadcaster: bitstream adapters for H.264
//! (Annex B / AVCC / FLV tags), an RTMP publishing session driver, the engine
//! lifecycle state machine with phased startup and reverse-order rollback,
//! pixel and audio sample conversion, the audio mixer, encoder facades, and
//! stream metrics.
//!
//! Platform capture, sockets, clocks and threads live outside this crate; the
//! functions here are pure with respect to those: callers hand in the bytes,
//! samples and clock readings, and every decision made on them is verified.

pub mod audio_enc;
pub mod capture;
pub mod connection;
pub mod engine;
pub mod errors;
pub mod video_enc;
pub mod ipc;
pub mod metrics;
pub mod mixer;
pub mod nal;
pub mod phases;
pub mod pixel;
pub mod rtmp;
pub mod rtmp_session;
pub mod state;
pub mod stream;
pub mod text;
pub mod types;

pub use capture::{CaptureTimestamp, CapturedFrame, MonitorInfo, WindowInfo};
pub use connection::{ConnectionState, ReconnectPolicy};
pub use errors::{AudioError, CaptureError, EncoderError, TransportError};
pub use ipc::{EngineCommand, EngineEvent};
pub use nal::{NalUnit, NalUnitType};
pub use state::{EngineState, ShutdownPhase, StartupPhase, StopReason};
pub use types::{
    AudioDevice, AudioDeviceType, CaptureSource, CaptureSourceType, StreamConfig, StreamMetrics,
    WarningType,
};
