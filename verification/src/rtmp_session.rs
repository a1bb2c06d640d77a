//! The RTMP publishing session driver.
//!
//! The protocol work — chunking, AMF0 commands, handshake digests — is done
//! by rml_rtmp behind the trusted wrappers at the top of this module. The
//! driver below them is verified: it owns the session bring-up state machine
//! (handshake, connect request, publish request), decides what follows every
//! outcome the session layer reports, and chooses the publish call and drop
//! flag for each wire packet. The socket itself lives outside this crate:
//! callers write the returned bytes and feed back what the peer sent.

use vstd::prelude::*;
use crate::errors::TransportError;
use crate::rtmp::RtmpPacket;

verus! {

use vstd::string::StringExecFns;
use rml_rtmp::sessions::{ClientSessionEvent, ClientSessionResult};
use rml_rtmp::handshake::HandshakeProcessResult;

/// How many reads the caller should attempt while waiting for the connection
/// request to be accepted (about five seconds at the poll interval).
pub const CONNECT_POLL_BUDGET: u32 = 50;

/// How many reads the caller should attempt while waiting for the publish
/// request to be accepted (about three seconds at the poll interval).
pub const PUBLISH_POLL_BUDGET: u32 = 30;

#[verifier::external_type_specification]
#[verifier::external_body]
pub struct ExHandshake(rml_rtmp::handshake::Handshake);

#[verifier::external_type_specification]
#[verifier::external_body]
pub struct ExClientSession(rml_rtmp::sessions::ClientSession);

#[verifier::external_type_specification]
#[verifier::external_body]
pub struct ExClientSessionConfig(rml_rtmp::sessions::ClientSessionConfig);

#[verifier::external_type_specification]
#[verifier::external_body]
pub struct ExClientSessionResult(rml_rtmp::sessions::ClientSessionResult);

/// Progress of the RTMP handshake after feeding it received bytes.
pub enum HandshakeProgress {
    /// Still handshaking; send these bytes to the peer.
    InProgress { response: Vec<u8> },
    /// Handshake done; send the response, then feed the surplus bytes to the
    /// session parser.
    Completed { response: Vec<u8>, remaining: Vec<u8> },
}

/// One result reported by the session layer, reduced to what the driver
/// needs.
pub enum SessionOutcome {
    /// Bytes that must go to the peer, in order; droppable ones may be shed
    /// under pressure.
    Outbound { bytes: Vec<u8>, droppable: bool },
    /// The server accepted the connection request.
    ConnectionAccepted,
    /// The server rejected the connection request.
    ConnectionRejected { description: String },
    /// The server accepted the publish request.
    PublishAccepted,
    /// Any other event the driver has no decision for.
    OtherEvent,
    /// A message the session layer could not handle.
    Unhandleable,
}

/// Relies on rml_rtmp::handshake::Handshake::new: a fresh client-side
/// handshake state.
#[verifier::external_body]
fn handshake_new() -> rml_rtmp::handshake::Handshake {
    rml_rtmp::handshake::Handshake::new(rml_rtmp::handshake::PeerType::Client)
}

/// Relies on rml_rtmp::handshake::Handshake::generate_outbound_p0_and_p1:
/// it always succeeds, and packets 0 and 1 are one command byte followed by
/// a 1536-byte packet.
#[verifier::external_body]
fn handshake_generate_p0_p1(h: &mut rml_rtmp::handshake::Handshake) -> (r: Result<
    Vec<u8>,
    TransportError,
>)
    ensures
        r is Ok,
        r matches Ok(v) ==> v@.len() == 1537,
{
    match h.generate_outbound_p0_and_p1() {
        Ok(bytes) => Ok(bytes),
        Err(e) => Err(TransportError::Connection(format!("Handshake generation failed: {:?}", e))),
    }
}

/// Relies on rml_rtmp::handshake::Handshake::process_bytes: advances the
/// handshake with received bytes, yielding either a response to send or the
/// completion with surplus bytes for the session parser.
#[verifier::external_body]
fn handshake_process_bytes(h: &mut rml_rtmp::handshake::Handshake, data: &[u8]) -> Result<
    HandshakeProgress,
    TransportError,
> {
    match h.process_bytes(data) {
        Ok(HandshakeProcessResult::InProgress { response_bytes }) => Ok(HandshakeProgress::InProgress { response: response_bytes }),
        Ok(HandshakeProcessResult::Completed { response_bytes, remaining_bytes }) => Ok(HandshakeProgress::Completed { response: response_bytes, remaining: remaining_bytes }),
        Err(e) => Err(TransportError::Connection(format!("Handshake failed: {:?}", e))),
    }
}

/// Relies on the shape of rml_rtmp::sessions::ClientSessionResult: reduces
/// one result to the outcome the driver acts on, moving its fields.
#[verifier::external_body]
fn convert_session_result(r: ClientSessionResult) -> SessionOutcome {
    match r {
        ClientSessionResult::OutboundResponse(p) => SessionOutcome::Outbound { bytes: p.bytes, droppable: p.can_be_dropped },
        ClientSessionResult::RaisedEvent(ClientSessionEvent::ConnectionRequestAccepted) => SessionOutcome::ConnectionAccepted,
        ClientSessionResult::RaisedEvent(ClientSessionEvent::ConnectionRequestRejected { description }) => SessionOutcome::ConnectionRejected { description },
        ClientSessionResult::RaisedEvent(ClientSessionEvent::PublishRequestAccepted) => SessionOutcome::PublishAccepted,
        ClientSessionResult::RaisedEvent(_) => SessionOutcome::OtherEvent,
        ClientSessionResult::UnhandleableMessageReceived(_) => SessionOutcome::Unhandleable,
    }
}

/// Relies on rml_rtmp::sessions::ClientSession::new with the default client
/// configuration: a fresh session plus its initial outbound frames.
#[verifier::external_body]
fn client_session_new() -> Result<(rml_rtmp::sessions::ClientSession, Vec<SessionOutcome>), TransportError> {
    match rml_rtmp::sessions::ClientSession::new(rml_rtmp::sessions::ClientSessionConfig::new()) {
        Ok((session, results)) => Ok(
            (session, results.into_iter().map(convert_session_result).collect()),
        ),
        Err(e) => Err(TransportError::Connection(format!("Session creation failed: {:?}", e))),
    }
}

/// Relies on rml_rtmp::sessions::ClientSession::handle_input: parses received
/// bytes and reports the session's responses and events, in order.
#[verifier::external_body]
fn session_handle_input(s: &mut rml_rtmp::sessions::ClientSession, bytes: &[u8]) -> Result<
    Vec<SessionOutcome>,
    TransportError,
> {
    match s.handle_input(bytes) {
        Ok(results) => Ok(results.into_iter().map(convert_session_result).collect()),
        Err(e) => Err(TransportError::Connection(format!("Session input error: {:?}", e))),
    }
}

/// Relies on rml_rtmp::sessions::ClientSession::request_connection: forms the
/// AMF0 connect command for the application.
#[verifier::external_body]
fn session_request_connection(s: &mut rml_rtmp::sessions::ClientSession, app: String) -> Result<
    SessionOutcome,
    TransportError,
> {
    match s.request_connection(app) {
        Ok(result) => Ok(convert_session_result(result)),
        Err(e) => Err(TransportError::Connection(format!("Connection request failed: {:?}", e))),
    }
}

/// Relies on rml_rtmp::sessions::ClientSession::request_publishing with the
/// live publish type: forms the stream-creation command for the key.
#[verifier::external_body]
fn session_request_publishing(s: &mut rml_rtmp::sessions::ClientSession, key: String) -> Result<
    SessionOutcome,
    TransportError,
> {
    match s.request_publishing(key, rml_rtmp::sessions::PublishRequestType::Live) {
        Ok(result) => Ok(convert_session_result(result)),
        Err(e) => Err(TransportError::Connection(format!("Publish request failed: {:?}", e))),
    }
}

/// Relies on rml_rtmp::sessions::ClientSession::publish_video_data: wraps the
/// payload as a video message at the timestamp, droppable or not.
#[verifier::external_body]
fn session_publish_video(
    s: &mut rml_rtmp::sessions::ClientSession,
    data: Vec<u8>,
    timestamp_ms: u32,
    droppable: bool,
) -> Result<SessionOutcome, TransportError> {
    let ts = rml_rtmp::time::RtmpTimestamp::new(timestamp_ms);
    match s.publish_video_data(bytes::Bytes::from(data), ts, droppable) {
        Ok(result) => Ok(convert_session_result(result)),
        Err(e) => Err(TransportError::Send(format!("Failed to publish data: {:?}", e))),
    }
}

/// Relies on rml_rtmp::sessions::ClientSession::publish_audio_data: wraps the
/// payload as an audio message at the timestamp, droppable or not.
#[verifier::external_body]
fn session_publish_audio(
    s: &mut rml_rtmp::sessions::ClientSession,
    data: Vec<u8>,
    timestamp_ms: u32,
    droppable: bool,
) -> Result<SessionOutcome, TransportError> {
    let ts = rml_rtmp::time::RtmpTimestamp::new(timestamp_ms);
    match s.publish_audio_data(bytes::Bytes::from(data), ts, droppable) {
        Ok(result) => Ok(convert_session_result(result)),
        Err(e) => Err(TransportError::Send(format!("Failed to publish data: {:?}", e))),
    }
}

/// Where the publishing session stands.
#[derive(Debug, Clone, Copy, PartialEq, Eq, Structural)]
pub enum SessionPhase {
    /// Handshake done, connect command sent; waiting for acceptance.
    AwaitingConnection,
    /// Connect accepted, publish command sent; waiting for acceptance.
    AwaitingPublish,
    /// Publishing: data packets may be sent.
    Publishing,
}

/// How far along a phase is, for monotonicity statements.
pub open spec fn phase_rank(p: SessionPhase) -> int {
    match p {
        SessionPhase::AwaitingConnection => 0,
        SessionPhase::AwaitingPublish => 1,
        SessionPhase::Publishing => 2,
    }
}

/// What one feeding of received bytes produced.
pub struct SessionIoStep {
    /// Bytes to write to the peer, in order.
    pub to_write: Vec<u8>,
    /// Whether the publish request was accepted during this step.
    pub publishing_now: bool,
}

/// The verified session driver: bring-up state machine and per-packet
/// publish decisions, over the trusted session wrappers.
pub struct PublishDriver {
    /// The underlying protocol session.
    pub session: rml_rtmp::sessions::ClientSession,
    /// Where the bring-up stands.
    pub phase: SessionPhase,
    /// The stream key to publish under.
    pub stream_key: String,
}

impl PublishDriver {
    /// Create the session and request a connection to `app_name`: the
    /// returned bytes (the session's initial frames, then the connect
    /// command) must be written to the peer, and the driver then awaits the
    /// server's acceptance.
    pub fn start(app_name: String, stream_key: String) -> (r: Result<
        (PublishDriver, Vec<u8>),
        TransportError,
    >)
        ensures
            r matches Ok(pair) ==> pair.0.phase is AwaitingConnection && pair.0.stream_key@
                == stream_key@,
    {
        let (mut session, initial) = match client_session_new() {
            Ok(p) => p,
            Err(e) => { return Err(e) },
        };
        let mut to_write: Vec<u8> = Vec::new();
        append_outbound(&mut to_write, initial);
        let connect_outcome = match session_request_connection(&mut session, app_name) {
            Ok(o) => o,
            Err(e) => { return Err(e) },
        };
        match connect_outcome {
            SessionOutcome::Outbound { mut bytes, .. } => to_write.append(&mut bytes),
            _ => {},
        }
        let driver = PublishDriver {
            session,
            phase: SessionPhase::AwaitingConnection,
            stream_key,
        };
        Ok((driver, to_write))
    }

    /// Feed bytes received from the peer. Responses the session layer owes
    /// are gathered in order; a connection acceptance advances the phase and
    /// appends the publish request; a publish acceptance moves the driver to
    /// `Publishing`. A rejection or parse failure is an error, and the phase
    /// otherwise never moves backwards.
    pub fn on_socket_bytes(&mut self, bytes: &[u8]) -> (r: Result<SessionIoStep, TransportError>)
        ensures
            final(self).stream_key@ == old(self).stream_key@,
            r matches Ok(step) ==> ({
                &&& phase_rank(final(self).phase) >= phase_rank(old(self).phase)
                &&& (step.publishing_now <==> (final(self).phase is Publishing && !(old(
                    self,
                ).phase is Publishing)))
            }),
    {
        let outcomes = match session_handle_input(&mut self.session, bytes) {
            Ok(o) => o,
            Err(e) => { return Err(e) },
        };
        let mut to_write: Vec<u8> = Vec::new();
        let mut publishing_now = false;
        let ghost entry_phase = self.phase;
        let mut rest = outcomes;
        while rest.len() > 0
            invariant
                phase_rank(self.phase) >= phase_rank(entry_phase),
                publishing_now <==> (self.phase is Publishing && !(entry_phase is Publishing)),
                self.stream_key@ == old(self).stream_key@,
            decreases rest@.len(),
        {
            let outcome = rest.remove(0);
            match outcome {
                SessionOutcome::Outbound { mut bytes, .. } => {
                    to_write.append(&mut bytes);
                },
                SessionOutcome::ConnectionAccepted => {
                    if matches!(self.phase, SessionPhase::AwaitingConnection) {
                        let key = self.stream_key.clone();
                        let publish_outcome = match session_request_publishing(
                            &mut self.session,
                            key,
                        ) {
                            Ok(o) => o,
                            Err(e) => { return Err(e) },
                        };
                        match publish_outcome {
                            SessionOutcome::Outbound { mut bytes, .. } => {
                                to_write.append(&mut bytes)
                            },
                            _ => {},
                        }
                        self.phase = SessionPhase::AwaitingPublish;
                    }
                },
                SessionOutcome::ConnectionRejected { description } => {
                    let mut msg = String::from_str("Connection rejected: ");
                    msg.append(description.as_str());
                    return Err(TransportError::Connection(msg));
                },
                SessionOutcome::PublishAccepted => {
                    if matches!(self.phase, SessionPhase::AwaitingPublish) {
                        self.phase = SessionPhase::Publishing;
                        publishing_now = true;
                    }
                },
                SessionOutcome::OtherEvent => {},
                SessionOutcome::Unhandleable => {},
            }
        }
        Ok(SessionIoStep { to_write, publishing_now })
    }

    /// Publish one wire packet: video goes through the video publish call
    /// with its drop eligibility (only non-keyframes may be shed), audio
    /// through the audio call and never droppable. The returned bytes must
    /// be written to the peer.
    pub fn publish_packet(&mut self, packet: RtmpPacket) -> (r: Result<Vec<u8>, TransportError>)
        requires
            old(self).phase is Publishing,
        ensures
            final(self).phase == old(self).phase,
            final(self).stream_key@ == old(self).stream_key@,
    {
        let droppable = packet.can_be_dropped();
        let outcome = if packet.is_video {
            session_publish_video(&mut self.session, packet.data, packet.timestamp_ms, droppable)
        } else {
            session_publish_audio(&mut self.session, packet.data, packet.timestamp_ms, false)
        };
        match outcome {
            Ok(SessionOutcome::Outbound { bytes, .. }) => Ok(bytes),
            Ok(_) => Ok(Vec::new()),
            Err(e) => Err(e),
        }
    }

    /// Run the handshake to completion from the caller's reads: create the
    /// handshake with `begin_handshake`, write its packet, and feed every
    /// read through `handshake_step` until it completes.
    pub fn begin_handshake() -> (r: Result<
        (rml_rtmp::handshake::Handshake, Vec<u8>),
        TransportError,
    >)
        ensures
            r is Ok,
            r matches Ok(pair) ==> pair.1@.len() == 1537,
    {
        let mut handshake = handshake_new();
        match handshake_generate_p0_p1(&mut handshake) {
            Ok(bytes) => Ok((handshake, bytes)),
            Err(e) => Err(e),
        }
    }

    /// Advance the handshake with received bytes.
    pub fn handshake_step(handshake: &mut rml_rtmp::handshake::Handshake, data: &[u8]) -> Result<
        HandshakeProgress,
        TransportError,
    > {
        handshake_process_bytes(handshake, data)
    }
}

/// Append every outbound frame of `outcomes` to `to_write`, in order.
fn append_outbound(to_write: &mut Vec<u8>, outcomes: Vec<SessionOutcome>) {
    let mut rest = outcomes;
    while rest.len() > 0
        decreases rest@.len(),
    {
        let outcome = rest.remove(0);
        match outcome {
            SessionOutcome::Outbound { mut bytes, .. } => to_write.append(&mut bytes),
            _ => {},
        }
    }
}

} // verus!
