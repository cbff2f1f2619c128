//! The monitor of the primary service and its restart policy.
//!
//! At every tick the host polls the primary service's process and hands the
//! poll and the clock to the monitor. A process that is gone is restarted
//! after a growing pause, a few times at most. A process that runs is left
//! alone while it is young, then probed; one that stays unreachable for too
//! long is stopped and started once more.

use vstd::prelude::*;
use crate::errors::{ServiceError, ServiceErrorView};
use crate::orchestrator::{
    Orchestrator,
    OrchestratorView,
    PortProbe,
    HEALTH_TIMEOUT_MS,
    MAX_RESTART_ATTEMPTS,
};
use crate::settings::{WizardSettings, WizardSettingsView};
use crate::supervisor::{slot_after_poll, slot_alive, ProcessHandle, ProcessPoll};

verus! {

/// The time between two ticks of the monitor, in milliseconds.
pub const MONITOR_INTERVAL_MS: u64 = 2000;

/// The pause before the first automatic restart, in milliseconds.
pub const BACKOFF_BASE_MS: u64 = 500;

/// How long after its start the primary service is not probed, in
/// milliseconds.
pub const GRACE_PERIOD_MS: u64 = 2000;

/// How long after its start the primary service may stay unreachable before
/// it is stopped and started again, in milliseconds.
pub const FATAL_UNHEALTHY_MS: u64 = 10000;

/// Two to the power `n`.
pub open spec fn pow2(n: nat) -> nat
    decreases n,
{
    if n == 0 {
        1
    } else {
        2 * pow2((n - 1) as nat)
    }
}

/// The pause before the restart that follows `attempts` earlier ones: the
/// base pause, doubled for each earlier restart. The exponent stops growing
/// with the last restart that the cap allows.
pub open spec fn backoff_delay(attempts: u32) -> nat {
    if attempts < MAX_RESTART_ATTEMPTS {
        BACKOFF_BASE_MS as nat * pow2(attempts as nat)
    } else {
        BACKOFF_BASE_MS as nat * pow2((MAX_RESTART_ATTEMPTS - 1) as nat)
    }
}

/// The time from `start` to `now` on a clock that does not run backwards.
pub open spec fn elapsed_since(start: u64, now: u64) -> nat {
    if now >= start {
        (now - start) as nat
    } else {
        0
    }
}

/// What the host is to do after a tick.
#[derive(Clone, Copy, Debug, PartialEq, Eq)]
pub enum MonitorAction {
    /// Nothing: the process is young.
    Idle,
    /// Nothing: the process is gone and the automatic restarts are used up.
    Exhausted,
    /// Pause, attempt a start, and report with `restart_finished`.
    Restart { backoff_ms: u64 },
    /// Probe the port and report with `health_observed`.
    ProbeHealth(PortProbe),
}

/// What follows from a health probe.
#[derive(Clone, Copy, Debug, PartialEq, Eq)]
pub enum HealthVerdict {
    /// The service answered.
    Healthy,
    /// The service did not answer, and has not had its time yet.
    Tolerated,
    /// The service has been unreachable for too long: terminate `stop`,
    /// attempt a start, and report with `forced_restart_finished`.
    ForceRestart { stop: Option<ProcessHandle> },
}

/// Whether the monitor acts at all: only where the user wants the services
/// running and the configuration allows automatic restarts.
pub open spec fn monitoring(desired_running: bool, settings: WizardSettingsView) -> bool {
    desired_running && settings.auto_restart
}

/// One tick of the monitor, as a step of the orchestrator.
pub open spec fn monitor_step(
    state: OrchestratorView,
    settings: WizardSettingsView,
    poll: ProcessPoll,
    now_ms: u64,
) -> (OrchestratorView, MonitorAction) {
    let polled = OrchestratorView {
        core_child: slot_after_poll(state.core_child, poll),
        ..state
    };
    if !slot_alive(state.core_child, poll) {
        if state.core_restart_attempts < MAX_RESTART_ATTEMPTS {
            (
                polled,
                MonitorAction::Restart {
                    backoff_ms: backoff_delay(state.core_restart_attempts) as u64,
                },
            )
        } else {
            (polled, MonitorAction::Exhausted)
        }
    } else if state.last_core_start is Some && elapsed_since(state.last_core_start->0, now_ms)
        < GRACE_PERIOD_MS {
        (polled, MonitorAction::Idle)
    } else {
        (
            polled,
            MonitorAction::ProbeHealth(
                PortProbe { port: settings.core_port, timeout_ms: HEALTH_TIMEOUT_MS },
            ),
        )
    }
}

/// The outcome of a health probe, as a step of the orchestrator.
///
/// An answer wins back all automatic restarts. Silence is borne until the
/// service has been up for longer than the fatal threshold; then the slot is
/// emptied for a forced restart.
pub open spec fn health_step(state: OrchestratorView, connected: bool, now_ms: u64) -> (
    OrchestratorView,
    HealthVerdict,
) {
    if connected {
        (OrchestratorView { core_restart_attempts: 0, ..state }, HealthVerdict::Healthy)
    } else if state.last_core_start is Some && elapsed_since(state.last_core_start->0, now_ms)
        > FATAL_UNHEALTHY_MS {
        (
            OrchestratorView { core_child: None, ..state },
            HealthVerdict::ForceRestart { stop: state.core_child },
        )
    } else {
        (state, HealthVerdict::Tolerated)
    }
}

/// The state after an automatic restart was attempted. A start that
/// succeeded fills the slot, keeps the clock reading and counts as one more
/// restart; one that failed changes nothing and is tried again at a later
/// tick.
pub open spec fn after_restart(state: OrchestratorView, started: Option<ProcessHandle>, now_ms: u64)
    -> OrchestratorView {
    match started {
        Some(handle) => OrchestratorView {
            core_child: Some(handle),
            last_core_start: Some(now_ms),
            core_restart_attempts: if state.core_restart_attempts < MAX_RESTART_ATTEMPTS {
                (state.core_restart_attempts + 1) as u32
            } else {
                MAX_RESTART_ATTEMPTS
            },
            ..state
        },
        None => state,
    }
}

/// The state after a forced restart was attempted: whatever came of the
/// start, the clock reading is renewed and one restart is counted.
pub open spec fn after_forced_restart(
    state: OrchestratorView,
    started: Option<ProcessHandle>,
    now_ms: u64,
) -> OrchestratorView {
    OrchestratorView {
        core_child: started,
        last_core_start: Some(now_ms),
        core_restart_attempts: 1,
        ..state
    }
}

/// Computes the pause before the restart that follows `attempts` earlier
/// ones.
pub fn backoff_ms(attempts: u32) -> (delay: u64)
    ensures
        delay == backoff_delay(attempts),
{
    proof {
        reveal_with_fuel(pow2, 4);
    }
    if attempts == 0 {
        BACKOFF_BASE_MS
    } else if attempts == 1 {
        2 * BACKOFF_BASE_MS
    } else {
        4 * BACKOFF_BASE_MS
    }
}

/// Whether the monitor acts at this tick.
pub fn monitor_enabled(desired_running: bool, settings: &WizardSettings) -> (enabled: bool)
    ensures
        enabled == monitoring(desired_running, settings@),
{
    desired_running && settings.auto_restart
}

fn elapsed_ms(start: u64, now_ms: u64) -> (elapsed: u64)
    ensures
        elapsed == elapsed_since(start, now_ms),
{
    if now_ms >= start {
        now_ms - start
    } else {
        0
    }
}

impl Orchestrator {
    /// One tick of the monitor. `poll` is the poll that the host just made of
    /// the primary service's process and `now_ms` the reading of a clock that
    /// does not run backwards.
    pub fn tick_health_and_maybe_restart(
        &mut self,
        settings: &WizardSettings,
        poll: ProcessPoll,
        now_ms: u64,
    ) -> (action: MonitorAction)
        ensures
            (final(self)@, action) == monitor_step(old(self)@, settings@, poll, now_ms),
    {
        let running = self.is_core_running(poll);
        if !running {
            let attempts = self.restart_attempts();
            if attempts < MAX_RESTART_ATTEMPTS {
                return MonitorAction::Restart { backoff_ms: backoff_ms(attempts) };
            }
            return MonitorAction::Exhausted;
        }
        if let Some(started) = self.last_core_start() {
            if elapsed_ms(started, now_ms) < GRACE_PERIOD_MS {
                return MonitorAction::Idle;
            }
        }
        MonitorAction::ProbeHealth(self.core_health_probe(settings))
    }

    /// Takes the outcome of the health probe that a tick asked for.
    pub fn health_observed(&mut self, connected: bool, now_ms: u64) -> (verdict: HealthVerdict)
        ensures
            (final(self)@, verdict) == health_step(old(self)@, connected, now_ms),
    {
        if connected {
            self.put_restart_attempts(0);
            return HealthVerdict::Healthy;
        }
        if let Some(started) = self.last_core_start() {
            if elapsed_ms(started, now_ms) > FATAL_UNHEALTHY_MS {
                let stop = self.stop_core();
                return HealthVerdict::ForceRestart { stop };
            }
        }
        HealthVerdict::Tolerated
    }

    /// Takes the outcome of the start that a tick asked for after its pause.
    pub fn restart_finished(&mut self, started: Option<ProcessHandle>, now_ms: u64)
        ensures
            final(self)@ == after_restart(old(self)@, started, now_ms),
    {
        if let Some(handle) = started {
            let attempts = self.restart_attempts();
            self.put_core(Some(handle));
            self.put_core_start(Some(now_ms));
            if attempts < MAX_RESTART_ATTEMPTS {
                self.put_restart_attempts(attempts + 1);
            }
        }
    }

    /// Takes the outcome of the start that followed a forced stop.
    pub fn forced_restart_finished(&mut self, started: Option<ProcessHandle>, now_ms: u64)
        ensures
            final(self)@ == after_forced_restart(old(self)@, started, now_ms),
    {
        self.put_core(started);
        self.put_core_start(Some(now_ms));
        self.put_restart_attempts(1);
    }

    /// The failure to report when the monitor has given up.
    pub fn health_timeout(&self, settings: &WizardSettings) -> (error: ServiceError)
        ensures
            error@ == (ServiceErrorView::HealthTimeout {
                port: settings.core_port,
                attempts: self@.core_restart_attempts,
            }),
    {
        ServiceError::HealthTimeout { port: settings.core_port, attempts: self.restart_attempts() }
    }
}

} // verus!
