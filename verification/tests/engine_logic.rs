//! Tests for the engine state machine, phases, reconnect policy, metrics and
//! addressing.

use broadcaster::capture::{parse_capture_source_id, CapturedFrame, CaptureTimestamp, SourceSelector};
use broadcaster::connection::ConnectionState;
use broadcaster::engine::{handle_command, startup_failed, startup_succeeded, stop_completed, EngineDirective};
use broadcaster::errors::CaptureError;
use broadcaster::ipc::EngineCommand;
use broadcaster::metrics::MetricsCollector;
use broadcaster::phases::{rollback_sequence, startup_sequence};
use broadcaster::rtmp::{parse_rtmp_url, reconnect_step, ReconnectDecision, RtmpPacket};
use broadcaster::rtmp_session::{PublishDriver, SessionPhase};
use broadcaster::state::{EngineState, ShutdownPhase, StartupPhase, StopReason};
use broadcaster::types::{StreamConfig, WarningType};
use broadcaster::ReconnectPolicy;

#[test]
fn test_reconnect_policy_delays() {
    let policy = ReconnectPolicy::default();

    assert_eq!(policy.delay_for_attempt(1), 1000);
    assert_eq!(policy.delay_for_attempt(2), 2000);
    assert_eq!(policy.delay_for_attempt(3), 4000);
}

#[test]
fn test_reconnect_policy_should_retry() {
    let policy = ReconnectPolicy::default();

    assert!(policy.should_retry(0));
    assert!(policy.should_retry(1));
    assert!(policy.should_retry(2));
    assert!(!policy.should_retry(3));
}

#[test]
fn reconnect_delay_caps_at_max() {
    let policy = ReconnectPolicy::default();
    assert_eq!(policy.delay_for_attempt(0), 1000);
    assert_eq!(policy.delay_for_attempt(5), 10000);
    assert_eq!(policy.delay_for_attempt(64), 10000);
}

#[test]
fn reconnect_step_retries_then_gives_up() {
    let policy = ReconnectPolicy::default();
    match reconnect_step(&policy, 0) {
        ReconnectDecision::Retry { next_attempt, delay_ms, state } => {
            assert_eq!(next_attempt, 1);
            assert_eq!(delay_ms, 1000);
            assert!(matches!(state, ConnectionState::Reconnecting { attempt: 1 }));
        }
        _ => panic!("expected a retry"),
    }
    match reconnect_step(&policy, 2) {
        ReconnectDecision::GiveUp { attempts, state, error: _ } => {
            assert_eq!(attempts, 3);
            assert!(state.is_failed());
        }
        _ => panic!("expected giving up"),
    }
}

#[test]
fn idle_start_begins_startup() {
    let step = handle_command(
        EngineState::Idle,
        EngineCommand::Start { config: StreamConfig::default() },
    );
    assert!(matches!(
        step.state,
        EngineState::Starting { phase: StartupPhase::InitCapture }
    ));
    assert!(step.state_changed);
    assert!(matches!(step.directive, EngineDirective::StartPipeline { .. }));
    assert!(step.keep_running);
}

#[test]
fn idle_stop_is_ignored() {
    let step = handle_command(EngineState::Idle, EngineCommand::Stop);
    assert!(step.state.is_idle());
    assert!(!step.state_changed);
    assert!(matches!(step.directive, EngineDirective::Idle));
}

#[test]
fn live_stop_enters_stopping_then_idle() {
    let live = startup_succeeded(StreamConfig::default());
    assert!(live.is_live());
    let step = handle_command(live, EngineCommand::Stop);
    assert!(matches!(
        step.state,
        EngineState::Stopping {
            reason: StopReason::UserRequested,
            phase: ShutdownPhase::StopTransmission
        }
    ));
    assert!(step.state_changed);
    assert!(matches!(step.directive, EngineDirective::StopPipeline { .. }));
    assert!(stop_completed().is_idle());
}

#[test]
fn live_start_is_ignored_and_volume_changes_keep_state() {
    let live = startup_succeeded(StreamConfig::default());
    let step = handle_command(live, EngineCommand::Start { config: StreamConfig::default() });
    assert!(step.state.is_live());
    assert!(!step.state_changed);

    let live2 = startup_succeeded(StreamConfig::default());
    let step2 = handle_command(live2, EngineCommand::SetMicVolume(0));
    assert!(step2.state.is_live());
    assert!(!step2.state_changed);
    assert!(matches!(step2.directive, EngineDirective::ApplyMicVolume(0)));
}

#[test]
fn shutdown_stops_and_exits_loop() {
    let live = startup_succeeded(StreamConfig::default());
    let step = handle_command(live, EngineCommand::Shutdown);
    assert!(step.state.is_stopping());
    assert!(!step.keep_running);
}

#[test]
fn startup_failure_is_recoverable_error() {
    let state = startup_failed(String::from("Capture init failed"));
    assert!(state.is_error());
    match state {
        EngineState::Error { message, recoverable } => {
            assert_eq!(message, "Capture init failed");
            assert!(recoverable);
        }
        _ => unreachable!(),
    }
}

#[test]
fn rollback_is_reverse_of_startup() {
    let up = startup_sequence(StartupPhase::StartTransmission);
    let down = rollback_sequence(StartupPhase::StartTransmission);
    assert_eq!(up.len(), 5);
    assert_eq!(down.len(), 5);
    let mut reversed = up.clone();
    reversed.reverse();
    assert_eq!(down, reversed);

    let partial_up = startup_sequence(StartupPhase::InitEncoder);
    let partial_down = rollback_sequence(StartupPhase::InitEncoder);
    assert_eq!(
        partial_up,
        vec![
            StartupPhase::InitCapture,
            StartupPhase::InitAudio,
            StartupPhase::InitEncoder
        ]
    );
    assert_eq!(
        partial_down,
        vec![
            StartupPhase::InitEncoder,
            StartupPhase::InitAudio,
            StartupPhase::InitCapture
        ]
    );
}

#[test]
fn startup_phase_order() {
    assert_eq!(StartupPhase::InitCapture.next(), Some(StartupPhase::InitAudio));
    assert_eq!(StartupPhase::ConnectRtmp.next(), Some(StartupPhase::StartTransmission));
    assert_eq!(StartupPhase::StartTransmission.next(), None);
    assert_eq!(StartupPhase::InitCapture.previous(), None);
    assert_eq!(StartupPhase::StartTransmission.previous(), Some(StartupPhase::ConnectRtmp));
    assert_eq!(ShutdownPhase::StopTransmission.next(), Some(ShutdownPhase::DisconnectRtmp));
    assert_eq!(ShutdownPhase::ShutdownCapture.next(), None);
    assert_eq!(StartupPhase::ConnectRtmp.name(), "Connecting to server");
    assert_eq!(ShutdownPhase::DisconnectRtmp.name(), "Disconnecting");
}

#[test]
fn stop_reason_messages() {
    assert_eq!(StopReason::UserRequested.message(), "Stream stopped by user");
    assert_eq!(StopReason::NetworkLost.message(), "Network connection lost");
    assert_eq!(
        StopReason::EncoderError { message: String::from("x") }.message(),
        "Encoder error: x"
    );
}

#[test]
fn connection_state_queries_and_messages() {
    assert!(ConnectionState::Connected.is_connected());
    assert!(ConnectionState::Connecting.is_transient());
    assert!(ConnectionState::Reconnecting { attempt: 1 }.is_transient());
    assert!(ConnectionState::Failed { reason: String::from("x") }.is_failed());
    assert!(!ConnectionState::Disconnected.is_connected());
    assert_eq!(ConnectionState::Reconnecting { attempt: 2 }.message(), "Reconnecting (2/3)");
    assert_eq!(
        ConnectionState::Failed { reason: String::from("boom") }.message(),
        "Failed: boom"
    );
}

#[test]
fn test_capture_source_id_prefixes() {
    assert_eq!(
        parse_capture_source_id("monitor:3").unwrap(),
        SourceSelector::Monitor(3)
    );
    assert_eq!(
        parse_capture_source_id("window:-7").unwrap(),
        SourceSelector::Window(-7)
    );
    assert!(matches!(
        parse_capture_source_id("camera:1"),
        Err(CaptureError::SourceNotFound(_))
    ));
    assert!(matches!(
        parse_capture_source_id("monitor:abc"),
        Err(CaptureError::SourceNotFound(_))
    ));
    assert!(matches!(
        parse_capture_source_id(""),
        Err(CaptureError::SourceNotFound(_))
    ));
}

#[test]
fn rtmp_url_rejections_and_parsing() {
    assert!(parse_rtmp_url("http://x/app").is_err());
    assert!(parse_rtmp_url("rtmp://h").is_err());
    assert!(parse_rtmp_url("rtmp://h/").is_err());
    assert!(parse_rtmp_url("rtmp://:1935/app").is_err());
    assert!(parse_rtmp_url("rtmp://h:port/app").is_err());

    let ep = parse_rtmp_url("rtmp://h:1936/app").unwrap();
    assert_eq!(ep.host, "h");
    assert_eq!(ep.port, 1936);
    assert_eq!(ep.app, "app");
    assert!(!ep.tls);

    let default_port = parse_rtmp_url("rtmp://live.example.com/live").unwrap();
    assert_eq!(default_port.port, 1935);
    assert_eq!(default_port.app, "live");

    let tls = parse_rtmp_url("rtmps://h/app").unwrap();
    assert!(tls.tls);
}

#[test]
fn metrics_snapshot_rates() {
    let mut metrics = MetricsCollector::new(60_000, 6000, 0);
    metrics.start(0);
    for _ in 0..60 {
        metrics.record_frame();
    }
    metrics.record_bytes_sent(125_000);
    let snap = metrics.snapshot(1000);
    assert_eq!(snap.fps_millihertz, 60_000);
    assert_eq!(snap.bitrate_kbps, 1000);
    assert_eq!(snap.uptime_seconds, 1);
    assert_eq!(snap.dropped_frames, 0);

    metrics.mark_reported(1000);
    metrics.record_capture_drop();
    metrics.record_encode_drop();
    metrics.record_network_drop();
    let snap2 = metrics.snapshot(2000);
    assert_eq!(snap2.fps_millihertz, 0);
    assert_eq!(snap2.dropped_frames, 3);
    assert_eq!(snap2.capture_drops, 1);
}

#[test]
fn metrics_warnings_thresholds() {
    let mut metrics = MetricsCollector::new(60_000, 6000, 0);
    metrics.update_encoder_load(95);
    metrics.update_buffer_fullness(50);
    let warnings = metrics.check_warnings();
    assert_eq!(warnings.len(), 1);
    assert!(matches!(warnings[0], WarningType::EncoderOverload { load_percent: 95 }));

    metrics.update_buffer_fullness(85);
    assert_eq!(metrics.check_warnings().len(), 2);

    metrics.update_encoder_load(90);
    metrics.update_buffer_fullness(80);
    assert!(metrics.check_warnings().is_empty());

    metrics.update_encoder_load(500);
    let clamped = metrics.snapshot(0);
    assert_eq!(clamped.encoder_load_percent, 100);
}

#[test]
fn captured_frame_validation() {
    let frame = CapturedFrame::new(
        vec![0; 6],
        2,
        2,
        CaptureTimestamp::from_elapsed(10_000),
        0,
    );
    assert!(frame.is_valid());
    assert_eq!(CapturedFrame::nv12_buffer_size(2, 2), 6);
    assert_eq!(frame.timestamp.pts_ms(), 1);

    let bad = CapturedFrame::new(vec![0; 5], 2, 2, CaptureTimestamp::from_elapsed(0), 1);
    assert!(!bad.is_valid());
}

#[test]
fn wire_packet_drop_eligibility() {
    let video_key = RtmpPacket {
        data: vec![],
        timestamp_ms: 0,
        is_video: true,
        is_keyframe: true,
        is_sequence_header: false,
    };
    assert!(!video_key.can_be_dropped());
    let video_inter = RtmpPacket { is_keyframe: false, ..video_key.clone() };
    assert!(video_inter.can_be_dropped());
    let audio = RtmpPacket { is_video: false, is_keyframe: false, ..video_key };
    assert!(!audio.can_be_dropped());
}

#[test]
fn engine_state_names() {
    assert_eq!(EngineState::Idle.name(), "Idle");
    assert!(EngineState::default().is_idle());
    assert_eq!(
        EngineState::Starting { phase: StartupPhase::InitAudio }.name(),
        "Starting"
    );
}

#[test]
fn rtmp_handshake_and_session_bring_up_shapes() {
    // C0+C1 is one version byte (3 = no encryption) plus a 1536-byte packet.
    let (_handshake, c0c1) = PublishDriver::begin_handshake().unwrap();
    assert_eq!(c0c1.len(), 1537);
    assert_eq!(c0c1[0], 3);

    // Starting a session emits the AMF0 connect command and awaits the
    // server's answer.
    let (driver, to_write) =
        PublishDriver::start(String::from("live"), String::from("sk")).unwrap();
    assert_eq!(driver.phase, SessionPhase::AwaitingConnection);
    assert!(!to_write.is_empty());
}
