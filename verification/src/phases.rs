//! Phase plans for resource startup and rollback.
//!
//! Startup walks the phases in forward order; rollback tears down strictly in
//! reverse order from the last phase reached. The plans here are what the
//! resource manager follows, and the reversal law is proved once for all
//! phases.

use vstd::prelude::*;
use crate::state::StartupPhase;

verus! {

/// All startup phases, in order.
pub open spec fn all_startup_phases() -> Seq<StartupPhase> {
    seq![
        StartupPhase::InitCapture,
        StartupPhase::InitAudio,
        StartupPhase::InitEncoder,
        StartupPhase::ConnectRtmp,
        StartupPhase::StartTransmission,
    ]
}

/// The position of a phase in startup order.
pub open spec fn phase_index(p: StartupPhase) -> int {
    match p {
        StartupPhase::InitCapture => 0,
        StartupPhase::InitAudio => 1,
        StartupPhase::InitEncoder => 2,
        StartupPhase::ConnectRtmp => 3,
        StartupPhase::StartTransmission => 4,
    }
}

/// The phases that startup visits, in order, when asked to initialize up to
/// and including `target`.
pub open spec fn startup_sequence_spec(target: StartupPhase) -> Seq<StartupPhase> {
    all_startup_phases().take(phase_index(target) + 1)
}

/// The phases that rollback visits, in order, when torn down from `from`.
pub open spec fn rollback_sequence_spec(from: StartupPhase) -> Seq<StartupPhase> {
    startup_sequence_spec(from).reverse()
}

/// The startup plan: every phase from `InitCapture` up to and including
/// `target`, in forward order.
pub fn startup_sequence(target: StartupPhase) -> (r: Vec<StartupPhase>)
    ensures
        r@ == startup_sequence_spec(target),
{
    let r = match target {
        StartupPhase::InitCapture => vec![StartupPhase::InitCapture],
        StartupPhase::InitAudio => vec![StartupPhase::InitCapture, StartupPhase::InitAudio],
        StartupPhase::InitEncoder => vec![
            StartupPhase::InitCapture,
            StartupPhase::InitAudio,
            StartupPhase::InitEncoder,
        ],
        StartupPhase::ConnectRtmp => vec![
            StartupPhase::InitCapture,
            StartupPhase::InitAudio,
            StartupPhase::InitEncoder,
            StartupPhase::ConnectRtmp,
        ],
        StartupPhase::StartTransmission => vec![
            StartupPhase::InitCapture,
            StartupPhase::InitAudio,
            StartupPhase::InitEncoder,
            StartupPhase::ConnectRtmp,
            StartupPhase::StartTransmission,
        ],
    };
    proof {
        assert(r@ =~= startup_sequence_spec(target));
    }
    r
}

/// The rollback plan: every phase from `from` back down to `InitCapture`, in
/// reverse startup order.
pub fn rollback_sequence(from: StartupPhase) -> (r: Vec<StartupPhase>)
    ensures
        r@ == rollback_sequence_spec(from),
{
    let r = match from {
        StartupPhase::InitCapture => vec![StartupPhase::InitCapture],
        StartupPhase::InitAudio => vec![StartupPhase::InitAudio, StartupPhase::InitCapture],
        StartupPhase::InitEncoder => vec![
            StartupPhase::InitEncoder,
            StartupPhase::InitAudio,
            StartupPhase::InitCapture,
        ],
        StartupPhase::ConnectRtmp => vec![
            StartupPhase::ConnectRtmp,
            StartupPhase::InitEncoder,
            StartupPhase::InitAudio,
            StartupPhase::InitCapture,
        ],
        StartupPhase::StartTransmission => vec![
            StartupPhase::StartTransmission,
            StartupPhase::ConnectRtmp,
            StartupPhase::InitEncoder,
            StartupPhase::InitAudio,
            StartupPhase::InitCapture,
        ],
    };
    proof {
        assert(r@ =~= rollback_sequence_spec(from));
    }
    r
}

/// Rollback order is the strict reverse of the completion order: tearing down
/// from the last phase reached visits exactly the phases that startup
/// completed, backwards.
pub proof fn lemma_rollback_reverses_startup(p: StartupPhase)
    ensures
        rollback_sequence_spec(p) == startup_sequence_spec(p).reverse(),
        rollback_sequence_spec(p).len() == startup_sequence_spec(p).len(),
        forall|i: int|
            0 <= i < startup_sequence_spec(p).len() ==> rollback_sequence_spec(p)[i]
                == startup_sequence_spec(p)[startup_sequence_spec(p).len() - 1 - i],
{
}

} // verus!
