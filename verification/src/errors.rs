//! Error types of the capture, audio, encoder and transport subsystems.
//!
//! Each enum offers a `message` method with an exact contract in place of a
//! `Display` implementation.

use vstd::prelude::*;
use crate::text::{dec_digits, u64_to_string};

verus! {

use vstd::string::StringExecFns;

/// Errors that can occur during capture operations.
#[derive(Debug, Clone)]
pub enum CaptureError {
    /// Platform API error.
    WindowsApi { message: String },
    /// Capture source not found.
    SourceNotFound(String),
    /// Capture already started.
    AlreadyStarted,
    /// Capture not started.
    NotStarted,
    /// Frame conversion error.
    FrameConversion(String),
    /// Device lost during capture.
    DeviceLost,
    /// Graphics capture not supported on this system.
    NotSupported,
    /// Permission denied for capture.
    PermissionDenied,
    /// Channel send error.
    ChannelDisconnected,
}

impl CaptureError {
    /// The display message for this error.
    pub open spec fn message_spec(self) -> Seq<char> {
        match self {
            Self::WindowsApi { message } => "Windows API error: "@ + message@,
            Self::SourceNotFound(s) => "Capture source not found: "@ + s@,
            Self::AlreadyStarted => "Capture already started"@,
            Self::NotStarted => "Capture not started"@,
            Self::FrameConversion(s) => "Frame conversion error: "@ + s@,
            Self::DeviceLost => "Capture device lost"@,
            Self::NotSupported => "Windows Graphics Capture not supported"@,
            Self::PermissionDenied => "Permission denied for capture"@,
            Self::ChannelDisconnected => "Failed to send frame: channel disconnected"@,
        }
    }

    /// Render the display message.
    pub fn message(&self) -> (r: String)
        ensures
            r@ == self.message_spec(),
    {
        match self {
            Self::WindowsApi { message } => crate::text::concat_strs(
                "Windows API error: ",
                message.as_str(),
            ),
            Self::SourceNotFound(s) => crate::text::concat_strs(
                "Capture source not found: ",
                s.as_str(),
            ),
            Self::AlreadyStarted => String::from_str("Capture already started"),
            Self::NotStarted => String::from_str("Capture not started"),
            Self::FrameConversion(s) => crate::text::concat_strs(
                "Frame conversion error: ",
                s.as_str(),
            ),
            Self::DeviceLost => String::from_str("Capture device lost"),
            Self::NotSupported => String::from_str("Windows Graphics Capture not supported"),
            Self::PermissionDenied => String::from_str("Permission denied for capture"),
            Self::ChannelDisconnected => String::from_str(
                "Failed to send frame: channel disconnected",
            ),
        }
    }
}

/// Errors that can occur during audio operations.
#[derive(Debug, Clone)]
pub enum AudioError {
    /// Platform API error.
    WindowsApi { message: String },
    /// Audio device not found.
    DeviceNotFound(String),
    /// Audio format not supported.
    FormatNotSupported(String),
    /// Capture already started.
    AlreadyStarted,
    /// Capture not started.
    NotStarted,
    /// Device lost during capture.
    DeviceLost,
    /// Channel send error.
    ChannelDisconnected,
    /// Mixer error.
    MixerError(String),
}

impl AudioError {
    /// The display message for this error.
    pub open spec fn message_spec(self) -> Seq<char> {
        match self {
            Self::WindowsApi { message } => "Windows API error: "@ + message@,
            Self::DeviceNotFound(s) => "Audio device not found: "@ + s@,
            Self::FormatNotSupported(s) => "Audio format not supported: "@ + s@,
            Self::AlreadyStarted => "Audio capture already started"@,
            Self::NotStarted => "Audio capture not started"@,
            Self::DeviceLost => "Audio device lost"@,
            Self::ChannelDisconnected => "Failed to send audio: channel disconnected"@,
            Self::MixerError(s) => "Mixer error: "@ + s@,
        }
    }

    /// Render the display message.
    pub fn message(&self) -> (r: String)
        ensures
            r@ == self.message_spec(),
    {
        match self {
            Self::WindowsApi { message } => crate::text::concat_strs(
                "Windows API error: ",
                message.as_str(),
            ),
            Self::DeviceNotFound(s) => crate::text::concat_strs(
                "Audio device not found: ",
                s.as_str(),
            ),
            Self::FormatNotSupported(s) => crate::text::concat_strs(
                "Audio format not supported: ",
                s.as_str(),
            ),
            Self::AlreadyStarted => String::from_str("Audio capture already started"),
            Self::NotStarted => String::from_str("Audio capture not started"),
            Self::DeviceLost => String::from_str("Audio device lost"),
            Self::ChannelDisconnected => String::from_str(
                "Failed to send audio: channel disconnected",
            ),
            Self::MixerError(s) => crate::text::concat_strs("Mixer error: ", s.as_str()),
        }
    }
}

/// Errors that can occur during encoding operations.
#[derive(Debug, Clone)]
pub enum EncoderError {
    /// NVENC not available.
    NvencNotAvailable(String),
    /// NVENC initialization failed.
    NvencInitFailed(String),
    /// x264 initialization failed.
    X264InitFailed(String),
    /// AAC encoder initialization failed.
    AacInitFailed(String),
    /// General initialization error.
    Initialization(String),
    /// General encoding error.
    Encoding(String),
    /// Invalid input data.
    InvalidInput(String),
    /// Encoder overload.
    Overload(usize),
    /// Encoder not initialized.
    NotInitialized,
}

impl EncoderError {
    /// The display message for this error.
    pub open spec fn message_spec(self) -> Seq<char> {
        match self {
            Self::NvencNotAvailable(s) => "NVENC not available: "@ + s@,
            Self::NvencInitFailed(s) => "NVENC initialization failed: "@ + s@,
            Self::X264InitFailed(s) => "x264 initialization failed: "@ + s@,
            Self::AacInitFailed(s) => "AAC encoder initialization failed: "@ + s@,
            Self::Initialization(s) => "Initialization failed: "@ + s@,
            Self::Encoding(s) => "Encoding error: "@ + s@,
            Self::InvalidInput(s) => "Invalid input data: "@ + s@,
            Self::Overload(depth) => "Encoder overload: queue depth "@ + dec_digits(depth as nat),
            Self::NotInitialized => "Encoder not initialized"@,
        }
    }

    /// Render the display message.
    pub fn message(&self) -> (r: String)
        ensures
            r@ == self.message_spec(),
    {
        match self {
            Self::NvencNotAvailable(s) => crate::text::concat_strs(
                "NVENC not available: ",
                s.as_str(),
            ),
            Self::NvencInitFailed(s) => crate::text::concat_strs(
                "NVENC initialization failed: ",
                s.as_str(),
            ),
            Self::X264InitFailed(s) => crate::text::concat_strs(
                "x264 initialization failed: ",
                s.as_str(),
            ),
            Self::AacInitFailed(s) => crate::text::concat_strs(
                "AAC encoder initialization failed: ",
                s.as_str(),
            ),
            Self::Initialization(s) => crate::text::concat_strs(
                "Initialization failed: ",
                s.as_str(),
            ),
            Self::Encoding(s) => crate::text::concat_strs("Encoding error: ", s.as_str()),
            Self::InvalidInput(s) => crate::text::concat_strs("Invalid input data: ", s.as_str()),
            Self::Overload(depth) => {
                let mut s = String::from_str("Encoder overload: queue depth ");
                let d = u64_to_string(*depth as u64);
                s.append(d.as_str());
                proof {
                    assert(s@ =~= self.message_spec());
                }
                s
            },
            Self::NotInitialized => String::from_str("Encoder not initialized"),
        }
    }
}

/// Errors that can occur during transport operations.
#[derive(Debug, Clone)]
pub enum TransportError {
    /// Connection failed.
    ConnectionFailed(String),
    /// Connection error (general).
    Connection(String),
    /// Connection lost.
    ConnectionLost(String),
    /// Authentication failed.
    AuthenticationFailed(String),
    /// Invalid RTMP URL.
    InvalidUrl(String),
    /// Send failed.
    SendFailed(String),
    /// Send error.
    Send(String),
    /// Reconnect attempts exhausted.
    ReconnectExhausted(u32),
    /// Not connected.
    NotConnected,
    /// Already connected.
    AlreadyConnected,
    /// Channel disconnected.
    ChannelDisconnected,
    /// IO error.
    Io(String),
    /// RTMP protocol error.
    Protocol(String),
}

impl TransportError {
    /// The display message for this error.
    pub open spec fn message_spec(self) -> Seq<char> {
        match self {
            Self::ConnectionFailed(s) => "Connection failed: "@ + s@,
            Self::Connection(s) => "Connection error: "@ + s@,
            Self::ConnectionLost(s) => "Connection lost: "@ + s@,
            Self::AuthenticationFailed(s) => "Authentication failed: "@ + s@,
            Self::InvalidUrl(s) => "Invalid RTMP URL: "@ + s@,
            Self::SendFailed(s) => "Send failed: "@ + s@,
            Self::Send(s) => "Send error: "@ + s@,
            Self::ReconnectExhausted(n) => "Reconnect attempts exhausted after "@ + dec_digits(
                n as nat,
            ) + " attempts"@,
            Self::NotConnected => "Not connected"@,
            Self::AlreadyConnected => "Already connected"@,
            Self::ChannelDisconnected => "Channel disconnected"@,
            Self::Io(s) => "IO error: "@ + s@,
            Self::Protocol(s) => "RTMP protocol error: "@ + s@,
        }
    }

    /// Render the display message.
    pub fn message(&self) -> (r: String)
        ensures
            r@ == self.message_spec(),
    {
        match self {
            Self::ConnectionFailed(s) => crate::text::concat_strs(
                "Connection failed: ",
                s.as_str(),
            ),
            Self::Connection(s) => crate::text::concat_strs("Connection error: ", s.as_str()),
            Self::ConnectionLost(s) => crate::text::concat_strs("Connection lost: ", s.as_str()),
            Self::AuthenticationFailed(s) => crate::text::concat_strs(
                "Authentication failed: ",
                s.as_str(),
            ),
            Self::InvalidUrl(s) => crate::text::concat_strs("Invalid RTMP URL: ", s.as_str()),
            Self::SendFailed(s) => crate::text::concat_strs("Send failed: ", s.as_str()),
            Self::Send(s) => crate::text::concat_strs("Send error: ", s.as_str()),
            Self::ReconnectExhausted(n) => {
                let mut s = String::from_str("Reconnect attempts exhausted after ");
                let d = u64_to_string(*n as u64);
                s.append(d.as_str());
                s.append(" attempts");
                proof {
                    assert(s@ =~= self.message_spec());
                }
                s
            },
            Self::NotConnected => String::from_str("Not connected"),
            Self::AlreadyConnected => String::from_str("Already connected"),
            Self::ChannelDisconnected => String::from_str("Channel disconnected"),
            Self::Io(s) => crate::text::concat_strs("IO error: ", s.as_str()),
            Self::Protocol(s) => crate::text::concat_strs("RTMP protocol error: ", s.as_str()),
        }
    }
}

} // verus!
