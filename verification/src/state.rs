//! Engine lifecycle state machine types: engine states, startup and shutdown
//! phases, and stop reasons.

use vstd::prelude::*;
use crate::types::{StreamConfig, StreamMetrics};

verus! {

use vstd::string::StringExecFns;

/// The current state of the broadcast engine.
#[derive(Debug, Clone)]
pub enum EngineState {
    /// Engine is idle, not streaming.
    Idle,
    /// Engine is starting up.
    Starting {
        /// Current startup phase.
        phase: StartupPhase,
    },
    /// Engine is live and streaming.
    Live {
        /// Active stream configuration.
        config: StreamConfig,
        /// Current stream metrics.
        metrics: StreamMetrics,
    },
    /// Engine is stopping.
    Stopping {
        /// Reason for stopping.
        reason: StopReason,
        /// Current shutdown phase.
        phase: ShutdownPhase,
    },
    /// Engine encountered a fatal error.
    Error {
        /// Error message.
        message: String,
        /// Whether recovery is possible.
        recoverable: bool,
    },
}

impl Default for EngineState {
    fn default() -> (r: Self)
        ensures
            r is Idle,
    {
        Self::Idle
    }
}

impl EngineState {
    /// Returns true if the engine is in the Idle state.
    pub fn is_idle(&self) -> (r: bool)
        ensures
            r == (self is Idle),
    {
        matches!(self, Self::Idle)
    }

    /// Returns true if the engine is currently live.
    pub fn is_live(&self) -> (r: bool)
        ensures
            r == (self is Live),
    {
        matches!(self, Self::Live { .. })
    }

    /// Returns true if the engine is starting.
    pub fn is_starting(&self) -> (r: bool)
        ensures
            r == (self is Starting),
    {
        matches!(self, Self::Starting { .. })
    }

    /// Returns true if the engine is stopping.
    pub fn is_stopping(&self) -> (r: bool)
        ensures
            r == (self is Stopping),
    {
        matches!(self, Self::Stopping { .. })
    }

    /// Returns true if the engine is in an error state.
    pub fn is_error(&self) -> (r: bool)
        ensures
            r == (self is Error),
    {
        matches!(self, Self::Error { .. })
    }

    /// The simple name of this state.
    pub open spec fn name_spec(self) -> Seq<char> {
        match self {
            Self::Idle => "Idle"@,
            Self::Starting { .. } => "Starting"@,
            Self::Live { .. } => "Live"@,
            Self::Stopping { .. } => "Stopping"@,
            Self::Error { .. } => "Error"@,
        }
    }

    /// Returns a simple string representation of the state.
    pub fn name(&self) -> (r: &'static str)
        ensures
            r@ == self.name_spec(),
    {
        match self {
            Self::Idle => "Idle",
            Self::Starting { .. } => "Starting",
            Self::Live { .. } => "Live",
            Self::Stopping { .. } => "Stopping",
            Self::Error { .. } => "Error",
        }
    }
}

/// Startup phases for the engine, in order.
#[derive(Debug, Clone, Copy, PartialEq, Eq, Structural)]
pub enum StartupPhase {
    /// Initializing capture subsystem.
    InitCapture,
    /// Initializing audio subsystem.
    InitAudio,
    /// Initializing video/audio encoders.
    InitEncoder,
    /// Connecting to the RTMP server.
    ConnectRtmp,
    /// Starting transmission.
    StartTransmission,
}

/// The phase after `p`, if any.
pub open spec fn phase_next(p: StartupPhase) -> Option<StartupPhase> {
    match p {
        StartupPhase::InitCapture => Some(StartupPhase::InitAudio),
        StartupPhase::InitAudio => Some(StartupPhase::InitEncoder),
        StartupPhase::InitEncoder => Some(StartupPhase::ConnectRtmp),
        StartupPhase::ConnectRtmp => Some(StartupPhase::StartTransmission),
        StartupPhase::StartTransmission => None,
    }
}

/// The phase before `p`, if any.
pub open spec fn phase_previous(p: StartupPhase) -> Option<StartupPhase> {
    match p {
        StartupPhase::InitCapture => None,
        StartupPhase::InitAudio => Some(StartupPhase::InitCapture),
        StartupPhase::InitEncoder => Some(StartupPhase::InitAudio),
        StartupPhase::ConnectRtmp => Some(StartupPhase::InitEncoder),
        StartupPhase::StartTransmission => Some(StartupPhase::ConnectRtmp),
    }
}

impl StartupPhase {
    /// Returns the next phase, if any.
    pub fn next(self) -> (r: Option<Self>)
        ensures
            r == phase_next(self),
    {
        match self {
            Self::InitCapture => Some(Self::InitAudio),
            Self::InitAudio => Some(Self::InitEncoder),
            Self::InitEncoder => Some(Self::ConnectRtmp),
            Self::ConnectRtmp => Some(Self::StartTransmission),
            Self::StartTransmission => None,
        }
    }

    /// Returns the previous phase, if any (for rollback).
    pub fn previous(self) -> (r: Option<Self>)
        ensures
            r == phase_previous(self),
    {
        match self {
            Self::InitCapture => None,
            Self::InitAudio => Some(Self::InitCapture),
            Self::InitEncoder => Some(Self::InitAudio),
            Self::ConnectRtmp => Some(Self::InitEncoder),
            Self::StartTransmission => Some(Self::ConnectRtmp),
        }
    }

    /// The display name for this phase.
    pub open spec fn name_spec(self) -> Seq<char> {
        match self {
            Self::InitCapture => "Initializing capture"@,
            Self::InitAudio => "Initializing audio"@,
            Self::InitEncoder => "Initializing encoder"@,
            Self::ConnectRtmp => "Connecting to server"@,
            Self::StartTransmission => "Starting stream"@,
        }
    }

    /// Returns the display name for this phase.
    pub fn name(self) -> (r: &'static str)
        ensures
            r@ == self.name_spec(),
    {
        match self {
            Self::InitCapture => "Initializing capture",
            Self::InitAudio => "Initializing audio",
            Self::InitEncoder => "Initializing encoder",
            Self::ConnectRtmp => "Connecting to server",
            Self::StartTransmission => "Starting stream",
        }
    }
}

/// `previous` undoes `next`: walking one phase forward and then one phase
/// back returns to the starting phase, and the other way round.
pub proof fn lemma_phase_next_previous_inverse(p: StartupPhase)
    ensures
        phase_next(p) matches Some(q) ==> phase_previous(q) == Some(p),
        phase_previous(p) matches Some(q) ==> phase_next(q) == Some(p),
{
}

/// Shutdown phases for the engine, in order.
#[derive(Debug, Clone, Copy, PartialEq, Eq, Structural)]
pub enum ShutdownPhase {
    /// Stopping transmission.
    StopTransmission,
    /// Disconnecting from the RTMP server.
    DisconnectRtmp,
    /// Shutting down encoders.
    ShutdownEncoder,
    /// Shutting down audio.
    ShutdownAudio,
    /// Shutting down capture.
    ShutdownCapture,
}

/// The shutdown phase after `p`, if any.
pub open spec fn shutdown_phase_next(p: ShutdownPhase) -> Option<ShutdownPhase> {
    match p {
        ShutdownPhase::StopTransmission => Some(ShutdownPhase::DisconnectRtmp),
        ShutdownPhase::DisconnectRtmp => Some(ShutdownPhase::ShutdownEncoder),
        ShutdownPhase::ShutdownEncoder => Some(ShutdownPhase::ShutdownAudio),
        ShutdownPhase::ShutdownAudio => Some(ShutdownPhase::ShutdownCapture),
        ShutdownPhase::ShutdownCapture => None,
    }
}

impl ShutdownPhase {
    /// Returns the next phase, if any.
    pub fn next(self) -> (r: Option<Self>)
        ensures
            r == shutdown_phase_next(self),
    {
        match self {
            Self::StopTransmission => Some(Self::DisconnectRtmp),
            Self::DisconnectRtmp => Some(Self::ShutdownEncoder),
            Self::ShutdownEncoder => Some(Self::ShutdownAudio),
            Self::ShutdownAudio => Some(Self::ShutdownCapture),
            Self::ShutdownCapture => None,
        }
    }

    /// The display name for this phase.
    pub open spec fn name_spec(self) -> Seq<char> {
        match self {
            Self::StopTransmission => "Stopping stream"@,
            Self::DisconnectRtmp => "Disconnecting"@,
            Self::ShutdownEncoder => "Stopping encoder"@,
            Self::ShutdownAudio => "Stopping audio"@,
            Self::ShutdownCapture => "Stopping capture"@,
        }
    }

    /// Returns the display name for this phase.
    pub fn name(self) -> (r: &'static str)
        ensures
            r@ == self.name_spec(),
    {
        match self {
            Self::StopTransmission => "Stopping stream",
            Self::DisconnectRtmp => "Disconnecting",
            Self::ShutdownEncoder => "Stopping encoder",
            Self::ShutdownAudio => "Stopping audio",
            Self::ShutdownCapture => "Stopping capture",
        }
    }
}

/// Reason for stopping the stream.
#[derive(Debug, Clone)]
pub enum StopReason {
    /// User requested stop.
    UserRequested,
    /// Network connection lost.
    NetworkLost,
    /// Encoder error.
    EncoderError { message: String },
    /// Capture error.
    CaptureError { message: String },
    /// Fatal error occurred.
    FatalError { message: String },
}

impl StopReason {
    /// The display message for this reason.
    pub open spec fn message_spec(self) -> Seq<char> {
        match self {
            Self::UserRequested => "Stream stopped by user"@,
            Self::NetworkLost => "Network connection lost"@,
            Self::EncoderError { message } => "Encoder error: "@ + message@,
            Self::CaptureError { message } => "Capture error: "@ + message@,
            Self::FatalError { message } => "Fatal error: "@ + message@,
        }
    }

    /// Returns a display message for this reason.
    pub fn message(&self) -> (r: String)
        ensures
            r@ == self.message_spec(),
    {
        match self {
            Self::UserRequested => String::from_str("Stream stopped by user"),
            Self::NetworkLost => String::from_str("Network connection lost"),
            Self::EncoderError { message } => crate::text::concat_strs(
                "Encoder error: ",
                message.as_str(),
            ),
            Self::CaptureError { message } => crate::text::concat_strs(
                "Capture error: ",
                message.as_str(),
            ),
            Self::FatalError { message } => crate::text::concat_strs(
                "Fatal error: ",
                message.as_str(),
            ),
        }
    }
}

} // verus!
