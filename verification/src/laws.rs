//! What holds of the orchestrator whatever the host observes.

use vstd::prelude::*;
use crate::errors::{error_text, ServiceErrorView};
use crate::facade::{next_in_sequence, wish_after_start, StartSequence};
use crate::health::{
    after_forced_restart,
    after_restart,
    backoff_delay,
    health_step,
    monitor_step,
    pow2,
    MonitorAction,
    BACKOFF_BASE_MS,
};
use crate::orchestrator::{polled_state, status_of, OrchestratorView, MAX_RESTART_ATTEMPTS};
use crate::preflight::{conflict_labels, lemma_conflict_iff_occupied, required_ports};
use crate::resolver::{flag_at, has_native_header};
use crate::settings::WizardSettingsView;
use crate::start::{
    after_core_started,
    after_seaweed_started,
    core_start_step,
    resolved_weed,
    seaweed_readiness_step,
    seaweed_start_step,
    CoreProbeView,
    CoreStartView,
    SeaweedProbeView,
    SeaweedStartView,
};
use crate::supervisor::{Platform, ProcessHandle, ProcessPoll};

verus! {

/// Starting the primary service while its process is alive is a no-op: the
/// state, and with it the identity of the process, is as before, and nothing
/// is to be launched.
pub proof fn lemma_running_core_is_not_started_again(
    state: OrchestratorView,
    settings: WizardSettingsView,
    platform: Platform,
    probe: CoreProbeView,
)
    requires
        state.core_child is Some,
        probe.poll is Running,
    ensures
        core_start_step(state, settings, platform, probe) == (
            state,
            Ok::<CoreStartView, ServiceErrorView>(CoreStartView::AlreadyRunning),
        ),
{
}

/// A start of the primary service that follows a start, with the process
/// still alive, leaves the process of the first start in the slot.
pub proof fn lemma_repeated_core_start_keeps_the_process(
    state: OrchestratorView,
    handle: ProcessHandle,
    now_ms: u64,
    settings: WizardSettingsView,
    platform: Platform,
    probe: CoreProbeView,
)
    requires
        probe.poll is Running,
    ensures
        core_start_step(after_core_started(state, handle, now_ms), settings, platform, probe).0
            == after_core_started(state, handle, now_ms),
        core_start_step(
            after_core_started(state, handle, now_ms),
            settings,
            platform,
            probe,
        ).0.core_child == Some(handle),
{
}

/// Starting the auxiliary service while its process is alive is a no-op: the
/// state, and with it the identity of the process, is as before, and nothing
/// is to be launched.
pub proof fn lemma_running_seaweed_is_not_started_again(
    state: OrchestratorView,
    settings: WizardSettingsView,
    platform: Platform,
    probe: SeaweedProbeView,
)
    requires
        state.seaweed_child is Some,
        probe.poll is Running,
    ensures
        seaweed_start_step(state, settings, platform, probe).0 == state,
        seaweed_start_step(state, settings, platform, probe).1 matches Ok(start) && !(
        start is Launch),
{
}

/// A start of the auxiliary service that follows a start, with the process
/// still alive, leaves the process of the first start in the slot.
pub proof fn lemma_repeated_seaweed_start_keeps_the_process(
    state: OrchestratorView,
    handle: ProcessHandle,
    settings: WizardSettingsView,
    platform: Platform,
    probe: SeaweedProbeView,
)
    requires
        probe.poll is Running,
    ensures
        seaweed_start_step(after_seaweed_started(state, handle), settings, platform, probe).0
            == after_seaweed_started(state, handle),
        seaweed_start_step(
            after_seaweed_started(state, handle),
            settings,
            platform,
            probe,
        ).0.seaweed_child == Some(handle),
{
}

/// The pauses before automatic restarts are the base, twice the base and four
/// times the base; they never shrink as restarts accumulate and never exceed
/// four times the base.
pub proof fn lemma_backoff_schedule(earlier: u32, later: u32)
    requires
        earlier <= later,
    ensures
        backoff_delay(0) == BACKOFF_BASE_MS,
        backoff_delay(1) == 2 * BACKOFF_BASE_MS,
        backoff_delay(2) == 4 * BACKOFF_BASE_MS,
        backoff_delay(earlier) <= backoff_delay(later),
        backoff_delay(later) <= 4 * BACKOFF_BASE_MS,
{
    reveal_with_fuel(pow2, 4);
}

/// Once the automatic restarts are used up, no tick asks for another.
pub proof fn lemma_no_restart_beyond_the_cap(
    state: OrchestratorView,
    settings: WizardSettingsView,
    poll: ProcessPoll,
    now_ms: u64,
)
    requires
        state.core_restart_attempts >= MAX_RESTART_ATTEMPTS,
    ensures
        !(monitor_step(state, settings, poll, now_ms).1 is Restart),
        monitor_step(state, settings, poll, now_ms).0.core_restart_attempts
            == state.core_restart_attempts,
{
}

/// Three automatic restarts that each brought a process up use the restarts
/// up.
pub proof fn lemma_three_restarts_reach_the_cap(
    state: OrchestratorView,
    first: ProcessHandle,
    second: ProcessHandle,
    third: ProcessHandle,
    now_ms: u64,
)
    requires
        state.core_restart_attempts == 0,
    ensures
        after_restart(
            after_restart(after_restart(state, Some(first), now_ms), Some(second), now_ms),
            Some(third),
            now_ms,
        ).core_restart_attempts == MAX_RESTART_ATTEMPTS,
{
}

/// A start at the user's request and a probe that finds the service healthy
/// each give all automatic restarts back, so that the monitor restarts a
/// process that is gone once more.
pub proof fn lemma_restarts_are_given_back(
    state: OrchestratorView,
    handle: ProcessHandle,
    settings: WizardSettingsView,
    poll: ProcessPoll,
    now_ms: u64,
)
    ensures
        after_core_started(state, handle, now_ms).core_restart_attempts == 0,
        health_step(state, true, now_ms).0.core_restart_attempts == 0,
        !(poll is Running) ==> monitor_step(
            after_core_started(state, handle, now_ms),
            settings,
            poll,
            now_ms,
        ).1 == (MonitorAction::Restart { backoff_ms: BACKOFF_BASE_MS }),
{
    reveal_with_fuel(pow2, 2);
}

/// The restart counter stays within its cap through every step of the
/// monitor.
pub proof fn lemma_restart_counter_stays_within_cap(
    state: OrchestratorView,
    settings: WizardSettingsView,
    poll: ProcessPoll,
    connected: bool,
    started: Option<ProcessHandle>,
    now_ms: u64,
)
    requires
        state.core_restart_attempts <= MAX_RESTART_ATTEMPTS,
    ensures
        monitor_step(state, settings, poll, now_ms).0.core_restart_attempts
            <= MAX_RESTART_ATTEMPTS,
        health_step(state, connected, now_ms).0.core_restart_attempts <= MAX_RESTART_ATTEMPTS,
        after_restart(state, started, now_ms).core_restart_attempts <= MAX_RESTART_ATTEMPTS,
        after_forced_restart(state, started, now_ms).core_restart_attempts
            <= MAX_RESTART_ATTEMPTS,
{
}

/// The preflight rejects a start of the auxiliary service when something
/// listens on any of its four ports: the start fails, nothing is to be
/// launched, and an empty slot stays empty.
pub proof fn lemma_occupied_port_rejects_start(
    state: OrchestratorView,
    settings: WizardSettingsView,
    platform: Platform,
    probe: SeaweedProbeView,
    occupied: int,
)
    requires
        settings.seaweed_enabled,
        settings.seaweed_s3_port is Some,
        state.seaweed_child is None,
        0 <= occupied < 4,
        flag_at(probe.ports_open, occupied),
    ensures
        seaweed_start_step(state, settings, platform, probe).1 is Err,
        seaweed_start_step(state, settings, platform, probe).0.seaweed_child is None,
{
    let checks = required_ports(settings.seaweed_s3_port->0);
    lemma_conflict_iff_occupied(checks, probe.ports_open);
    assert(0 <= occupied < checks.len() && flag_at(probe.ports_open, occupied));
}

/// Where the executable of the auxiliary service was found and accepted, an
/// occupied port is reported as a port conflict that names every occupied
/// port, and is kept as the last error.
pub proof fn lemma_port_conflict_is_reported(
    state: OrchestratorView,
    settings: WizardSettingsView,
    platform: Platform,
    probe: SeaweedProbeView,
    occupied: int,
)
    requires
        settings.seaweed_enabled,
        settings.seaweed_s3_port is Some,
        state.seaweed_child is None,
        resolved_weed(state.repo_root, settings, probe.candidate_exists) is Some,
        platform is Windows ==> probe.header is Some && has_native_header(probe.header->0),
        0 <= occupied < 4,
        flag_at(probe.ports_open, occupied),
    ensures
        ({
            let conflicts = conflict_labels(
                required_ports(settings.seaweed_s3_port->0),
                probe.ports_open,
            );
            let error = ServiceErrorView::PortConflict { conflicts };
            &&& conflicts.len() > 0
            &&& seaweed_start_step(state, settings, platform, probe) == (
                OrchestratorView { last_seaweed_error: Some(error_text(error)), ..state },
                Err::<SeaweedStartView, ServiceErrorView>(error),
            )
        }),
{
    let checks = required_ports(settings.seaweed_s3_port->0);
    lemma_conflict_iff_occupied(checks, probe.ports_open);
    assert(0 <= occupied < checks.len() && flag_at(probe.ports_open, occupied));
}

/// The message of a failed start of the auxiliary service stays in the status
/// through polls, ticks and starts of the primary service, until a start of
/// the auxiliary service is done.
pub proof fn lemma_last_error_is_kept_until_a_start_is_done(
    state: OrchestratorView,
    settings: WizardSettingsView,
    platform: Platform,
    probe: CoreProbeView,
    core_healthy: bool,
    core_poll: ProcessPoll,
    seaweed_poll: ProcessPoll,
    now_ms: u64,
    elapsed_ms: u64,
)
    ensures
        status_of(state, settings, core_healthy, core_poll, seaweed_poll).seaweed_last_error
            == state.last_seaweed_error,
        polled_state(state, core_poll, seaweed_poll).last_seaweed_error
            == state.last_seaweed_error,
        monitor_step(state, settings, core_poll, now_ms).0.last_seaweed_error
            == state.last_seaweed_error,
        health_step(state, core_healthy, now_ms).0.last_seaweed_error == state.last_seaweed_error,
        core_start_step(state, settings, platform, probe).0.last_seaweed_error
            == state.last_seaweed_error,
        seaweed_readiness_step(state, settings, elapsed_ms, true, seaweed_poll).0.last_seaweed_error
            is None,
{
}

/// The two services are coupled at a start: when the auxiliary service fails
/// to start, the sequence ends there, the primary service is not attempted,
/// and the user's wish is left as it was.
pub proof fn lemma_failed_auxiliary_start_ends_the_sequence(desired_running: bool)
    ensures
        next_in_sequence(StartSequence::Auxiliary, false) == (StartSequence::Finished {
            all_started: false,
        }),
        next_in_sequence(StartSequence::Auxiliary, true) == StartSequence::Primary,
        wish_after_start(desired_running, next_in_sequence(StartSequence::Auxiliary, false))
            == desired_running,
{
}

} // verus!
