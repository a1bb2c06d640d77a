//! The orchestrator's command handling, as a pure transition function.
//!
//! The runtime shell around the engine blocks on the command channel, calls
//! `handle_command` for each command, emits a `StateChanged` event whenever a
//! transition was accepted, and carries out the returned directive (resource
//! startup, pipeline shutdown, a volume change, an enumeration). Every
//! decision — which commands are accepted in which states, and where each
//! transition leads — is made here.

use vstd::prelude::*;
use crate::ipc::EngineCommand;
use crate::state::{EngineState, ShutdownPhase, StartupPhase, StopReason};
use crate::types::{zero_metrics, StreamConfig, StreamMetrics};

verus! {

/// What the runtime shell must carry out after a command was handled.
#[derive(Debug, Clone)]
pub enum EngineDirective {
    /// Nothing to do.
    Idle,
    /// Initialize resources for the configuration and start the stream
    /// worker; report the outcome with `startup_succeeded` or
    /// `startup_failed`.
    StartPipeline { config: StreamConfig },
    /// Stop the stream worker, shut resources down, then report with
    /// `stop_completed`.
    StopPipeline { reason: StopReason },
    /// Apply a microphone volume, in permille of full scale.
    ApplyMicVolume(u32),
    /// Apply a system audio volume, in permille of full scale.
    ApplySystemVolume(u32),
    /// Mute or unmute the microphone.
    ApplyMicMuted(bool),
    /// Mute or unmute system audio.
    ApplySystemMuted(bool),
    /// Enumerate capture sources and reply with them.
    EnumerateCaptureSources,
    /// Enumerate audio devices and reply with them.
    EnumerateAudioDevices,
    /// Reply with the current state.
    ReportState,
}

/// The result of handling one command.
pub struct CommandStep {
    /// The state after the command.
    pub state: EngineState,
    /// Whether a transition was accepted (a `StateChanged` event is due).
    pub state_changed: bool,
    /// What the runtime shell must do next.
    pub directive: EngineDirective,
    /// False once the engine must exit its command loop.
    pub keep_running: bool,
}

/// Whether a start command is accepted in `state`: starting is idempotent,
/// so it is ignored while already starting or live.
pub open spec fn start_accepted(state: EngineState) -> bool {
    !(state is Starting || state is Live)
}

/// Whether a stop command is accepted in `state`: stopping is idempotent, so
/// it is ignored while already idle or stopping.
pub open spec fn stop_accepted(state: EngineState) -> bool {
    !(state is Idle || state is Stopping)
}

/// The state a accepted start command moves to: the first startup phase.
pub open spec fn starting_state() -> EngineState {
    EngineState::Starting { phase: StartupPhase::InitCapture }
}

/// The state an accepted stop command moves to: the first shutdown phase,
/// carrying the reason.
pub open spec fn stopping_state(reason: StopReason) -> EngineState {
    EngineState::Stopping { reason, phase: ShutdownPhase::StopTransmission }
}

/// The engine state one command leads to, from a given state.
pub open spec fn next_engine_state(state: EngineState, command: EngineCommand) -> EngineState {
    match command {
        EngineCommand::Start { .. } => if start_accepted(state) {
            starting_state()
        } else {
            state
        },
        EngineCommand::Stop | EngineCommand::Shutdown => if stop_accepted(state) {
            stopping_state(StopReason::UserRequested)
        } else {
            state
        },
        _ => state,
    }
}

/// From Idle, a Start command — and only a Start command — moves the engine
/// to Starting, entering at the first startup phase.
pub proof fn lemma_idle_only_start_begins(command: EngineCommand)
    ensures
        next_engine_state(EngineState::Idle, command) is Starting <==> command is Start,
        command is Start ==> next_engine_state(EngineState::Idle, command) == starting_state(),
{
}

/// From Live, Stop and Shutdown — and only those — move the engine to
/// Stopping, entering at the first shutdown phase with the user-requested
/// reason; every other command leaves the live state untouched.
pub proof fn lemma_live_stop_transitions(
    config: StreamConfig,
    metrics: StreamMetrics,
    command: EngineCommand,
)
    ensures
        ({
            let live = EngineState::Live { config, metrics };
            &&& (next_engine_state(live, command) is Stopping <==> (command is Stop || command
                is Shutdown))
            &&& ((command is Stop || command is Shutdown) ==> next_engine_state(live, command)
                == stopping_state(StopReason::UserRequested))
            &&& (!(command is Stop || command is Shutdown) ==> next_engine_state(live, command)
                == live)
        }),
{
}

/// Handle one command: the next state, whether it changed, and what the
/// runtime shell must carry out.
///
/// Start and stop are idempotent; setter and query commands never change the
/// state; `Shutdown` behaves like a stop and additionally ends the command
/// loop.
pub fn handle_command(state: EngineState, command: EngineCommand) -> (r: CommandStep)
    ensures
        r.keep_running == !(command is Shutdown),
        r.state == next_engine_state(state, command),
        match command {
            EngineCommand::Start { config } => {
                if start_accepted(state) {
                    &&& r.state == starting_state()
                    &&& r.state_changed
                    &&& r.directive matches EngineDirective::StartPipeline { config: c } && c
                        == config
                } else {
                    &&& r.state == state
                    &&& !r.state_changed
                    &&& r.directive is Idle
                }
            },
            EngineCommand::Stop | EngineCommand::Shutdown => {
                if stop_accepted(state) {
                    &&& r.state == stopping_state(StopReason::UserRequested)
                    &&& r.state_changed
                    &&& r.directive matches EngineDirective::StopPipeline { reason } && reason
                        is UserRequested
                } else {
                    &&& r.state == state
                    &&& !r.state_changed
                    &&& r.directive is Idle
                }
            },
            EngineCommand::SetMicVolume(v) => r.state == state && !r.state_changed && (r.directive
                matches EngineDirective::ApplyMicVolume(w) && w == v),
            EngineCommand::SetSystemVolume(v) => r.state == state && !r.state_changed
                && (r.directive matches EngineDirective::ApplySystemVolume(w) && w == v),
            EngineCommand::SetMicMuted(m) => r.state == state && !r.state_changed && (r.directive
                matches EngineDirective::ApplyMicMuted(w) && w == m),
            EngineCommand::SetSystemMuted(m) => r.state == state && !r.state_changed
                && (r.directive matches EngineDirective::ApplySystemMuted(w) && w == m),
            EngineCommand::GetCaptureSources => r.state == state && !r.state_changed && r.directive
                is EnumerateCaptureSources,
            EngineCommand::GetAudioDevices => r.state == state && !r.state_changed && r.directive
                is EnumerateAudioDevices,
            EngineCommand::GetState => r.state == state && !r.state_changed && r.directive
                is ReportState,
        },
{
    match command {
        EngineCommand::Start { config } => {
            let accepted = !(state.is_starting() || state.is_live());
            if accepted {
                CommandStep {
                    state: EngineState::Starting { phase: StartupPhase::InitCapture },
                    state_changed: true,
                    directive: EngineDirective::StartPipeline { config },
                    keep_running: true,
                }
            } else {
                CommandStep {
                    state,
                    state_changed: false,
                    directive: EngineDirective::Idle,
                    keep_running: true,
                }
            }
        },
        EngineCommand::Stop => stop_step(state, true),
        EngineCommand::Shutdown => stop_step(state, false),
        EngineCommand::SetMicVolume(v) => CommandStep {
            state,
            state_changed: false,
            directive: EngineDirective::ApplyMicVolume(v),
            keep_running: true,
        },
        EngineCommand::SetSystemVolume(v) => CommandStep {
            state,
            state_changed: false,
            directive: EngineDirective::ApplySystemVolume(v),
            keep_running: true,
        },
        EngineCommand::SetMicMuted(m) => CommandStep {
            state,
            state_changed: false,
            directive: EngineDirective::ApplyMicMuted(m),
            keep_running: true,
        },
        EngineCommand::SetSystemMuted(m) => CommandStep {
            state,
            state_changed: false,
            directive: EngineDirective::ApplySystemMuted(m),
            keep_running: true,
        },
        EngineCommand::GetCaptureSources => CommandStep {
            state,
            state_changed: false,
            directive: EngineDirective::EnumerateCaptureSources,
            keep_running: true,
        },
        EngineCommand::GetAudioDevices => CommandStep {
            state,
            state_changed: false,
            directive: EngineDirective::EnumerateAudioDevices,
            keep_running: true,
        },
        EngineCommand::GetState => CommandStep {
            state,
            state_changed: false,
            directive: EngineDirective::ReportState,
            keep_running: true,
        },
    }
}

/// The shared stop handling of `Stop` and `Shutdown`.
fn stop_step(state: EngineState, keep_running: bool) -> (r: CommandStep)
    ensures
        r.keep_running == keep_running,
        if stop_accepted(state) {
            &&& r.state == stopping_state(StopReason::UserRequested)
            &&& r.state_changed
            &&& (r.directive matches EngineDirective::StopPipeline { reason } && reason
                is UserRequested)
        } else {
            &&& r.state == state
            &&& !r.state_changed
            &&& r.directive is Idle
        },
{
    let accepted = !(state.is_idle() || state.is_stopping());
    if accepted {
        CommandStep {
            state: EngineState::Stopping {
                reason: StopReason::UserRequested,
                phase: ShutdownPhase::StopTransmission,
            },
            state_changed: true,
            directive: EngineDirective::StopPipeline { reason: StopReason::UserRequested },
            keep_running,
        }
    } else {
        CommandStep { state, state_changed: false, directive: EngineDirective::Idle, keep_running }
    }
}

/// The state after resource startup succeeded: live with the configuration
/// and fresh metrics.
pub fn startup_succeeded(config: StreamConfig) -> (r: EngineState)
    ensures
        r matches EngineState::Live { config: c, metrics } && c == config && metrics
            == zero_metrics(),
{
    EngineState::Live { config, metrics: StreamMetrics::default() }
}

/// The state after resource startup failed and rollback ran: a recoverable
/// error carrying the failure message.
pub fn startup_failed(message: String) -> (r: EngineState)
    ensures
        r matches EngineState::Error { message: m, recoverable } && m == message && recoverable,
{
    EngineState::Error { message, recoverable: true }
}

/// The state after shutdown completed: idle.
pub fn stop_completed() -> (r: EngineState)
    ensures
        r is Idle,
{
    EngineState::Idle
}

} // verus!
