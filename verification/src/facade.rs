//! The operations on both services together: the order of a start and the
//! stop of everything.

use vstd::prelude::*;
use crate::orchestrator::{Orchestrator, OrchestratorView};
use crate::supervisor::ProcessHandle;

verus! {

/// Where a start of both services stands.
///
/// The auxiliary service is started first, then the primary one. The two are
/// coupled: a failed start of the auxiliary service ends the sequence, and the
/// primary service is not attempted.
#[derive(Clone, Copy, Debug, PartialEq, Eq)]
pub enum StartSequence {
    /// The auxiliary service is to be started, if it is enabled.
    Auxiliary,
    /// The primary service is to be started.
    Primary,
    /// The sequence is over. `all_started` says whether every step succeeded.
    Finished { all_started: bool },
}

/// The step that follows `step` when it succeeded or failed.
pub open spec fn next_in_sequence(step: StartSequence, succeeded: bool) -> StartSequence {
    match step {
        StartSequence::Auxiliary => if succeeded {
            StartSequence::Primary
        } else {
            StartSequence::Finished { all_started: false }
        },
        StartSequence::Primary => StartSequence::Finished { all_started: succeeded },
        StartSequence::Finished { all_started } => StartSequence::Finished { all_started },
    }
}

/// Whether the user wants the services running after a start that ended in
/// `outcome`: a start that succeeded throughout says so, any other leaves the
/// wish as it was.
pub open spec fn wish_after_start(desired_running: bool, outcome: StartSequence) -> bool {
    desired_running || outcome == (StartSequence::Finished { all_started: true })
}

/// The processes to terminate when everything is stopped: the primary
/// service's first, then the auxiliary service's.
pub open spec fn processes_to_stop(state: OrchestratorView) -> Seq<ProcessHandle> {
    (match state.core_child {
        Some(handle) => seq![handle],
        None => Seq::empty(),
    }) + (match state.seaweed_child {
        Some(handle) => seq![handle],
        None => Seq::empty(),
    })
}

impl StartSequence {
    /// The beginning of a start of both services.
    pub fn begin() -> (step: StartSequence)
        ensures
            step == StartSequence::Auxiliary,
    {
        StartSequence::Auxiliary
    }

    /// Moves on after the current step succeeded or failed.
    pub fn advance(self, succeeded: bool) -> (next: StartSequence)
        ensures
            next == next_in_sequence(self, succeeded),
    {
        match self {
            StartSequence::Auxiliary => if succeeded {
                StartSequence::Primary
            } else {
                StartSequence::Finished { all_started: false }
            },
            StartSequence::Primary => StartSequence::Finished { all_started: succeeded },
            StartSequence::Finished { all_started } => StartSequence::Finished { all_started },
        }
    }

    /// Whether the user wants the services running once the start has ended.
    pub fn desired_running(self, before: bool) -> (after: bool)
        ensures
            after == wish_after_start(before, self),
    {
        match self {
            StartSequence::Finished { all_started: true } => true,
            _ => before,
        }
    }
}

impl Orchestrator {
    /// Empties both slots and hands out the processes that the host must
    /// terminate, in order. Where both are empty nothing changes.
    pub fn stop_services(&mut self) -> (stopped: Vec<ProcessHandle>)
        ensures
            stopped@ == processes_to_stop(old(self)@),
            final(self)@ == (OrchestratorView {
                core_child: None,
                seaweed_child: None,
                ..old(self)@
            }),
    {
        let mut stopped: Vec<ProcessHandle> = Vec::new();
        if let Some(handle) = self.stop_core() {
            stopped.push(handle);
        }
        let ghost first = stopped@;
        if let Some(handle) = self.stop_seaweed() {
            stopped.push(handle);
        }
        assert(stopped@ =~= processes_to_stop(old(self)@));
        stopped
    }
}

} // verus!
