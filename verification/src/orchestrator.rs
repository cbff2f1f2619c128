//! The orchestrator's state and the operations that need no planning:
//! liveness, stop, health and the status snapshot.
//!
//! The orchestrator is a record that is handed to every operation. It spawns
//! nothing and probes nothing itself: the host polls processes, connects to
//! ports and reads the clock, and each operation takes what the host saw and
//! returns what the host is to do.

use vstd::prelude::*;
use vstd::string::*;
use crate::settings::{WizardSettings, WizardSettingsView};
use crate::supervisor::{observe_slot, slot_after_poll, slot_alive, ProcessHandle, ProcessPoll};
use crate::text::{decimal, decimal_string, opt_text};

verus! {

/// How many automatic restarts the monitor makes before it gives up.
pub const MAX_RESTART_ATTEMPTS: u32 = 3;

/// How long the health probe's connection attempt may take, in milliseconds.
pub const HEALTH_TIMEOUT_MS: u64 = 250;

/// One attempt to connect to a port on the loopback address.
#[derive(Clone, Copy, Debug, PartialEq, Eq)]
pub struct PortProbe {
    pub port: u16,
    pub timeout_ms: u64,
}

/// The state of the two managed services.
pub struct Orchestrator {
    repo_root: String,
    core_child: Option<ProcessHandle>,
    seaweed_child: Option<ProcessHandle>,
    last_seaweed_error: Option<String>,
    last_core_start: Option<u64>,
    core_restart_attempts: u32,
}

/// What the orchestrator's state says.
pub struct OrchestratorView {
    /// The install root under which executables are looked for.
    pub repo_root: Seq<char>,
    /// The process in the primary slot.
    pub core_child: Option<ProcessHandle>,
    /// The process in the auxiliary slot.
    pub seaweed_child: Option<ProcessHandle>,
    /// The message of the auxiliary service's last failed start.
    pub last_seaweed_error: Option<Seq<char>>,
    /// The clock reading, in milliseconds, at the primary service's last start.
    pub last_core_start: Option<u64>,
    /// The automatic restarts made since the last healthy tick or manual start.
    pub core_restart_attempts: u32,
}

impl View for Orchestrator {
    type V = OrchestratorView;

    closed spec fn view(&self) -> OrchestratorView {
        OrchestratorView {
            repo_root: self.repo_root@,
            core_child: self.core_child,
            seaweed_child: self.seaweed_child,
            last_seaweed_error: opt_text(self.last_seaweed_error),
            last_core_start: self.last_core_start,
            core_restart_attempts: self.core_restart_attempts,
        }
    }
}

/// The state of an orchestrator that has started nothing yet.
pub open spec fn initial_state(repo_root: Seq<char>) -> OrchestratorView {
    OrchestratorView {
        repo_root,
        core_child: None,
        seaweed_child: None,
        last_seaweed_error: None,
        last_core_start: None,
        core_restart_attempts: 0,
    }
}

/// A snapshot of both services, computed anew at every query.
#[derive(Clone, Debug, PartialEq, Eq)]
pub struct ServiceStatus {
    pub core_running: bool,
    pub core_healthy: bool,
    pub core_url: String,
    pub seaweed_enabled: bool,
    pub seaweed_running: bool,
    pub seaweed_s3_port: Option<u16>,
    pub seaweed_last_error: Option<String>,
}

pub struct ServiceStatusView {
    pub core_running: bool,
    pub core_healthy: bool,
    pub core_url: Seq<char>,
    pub seaweed_enabled: bool,
    pub seaweed_running: bool,
    pub seaweed_s3_port: Option<u16>,
    pub seaweed_last_error: Option<Seq<char>>,
}

impl View for ServiceStatus {
    type V = ServiceStatusView;

    open spec fn view(&self) -> ServiceStatusView {
        ServiceStatusView {
            core_running: self.core_running,
            core_healthy: self.core_healthy,
            core_url: self.core_url@,
            seaweed_enabled: self.seaweed_enabled,
            seaweed_running: self.seaweed_running,
            seaweed_s3_port: self.seaweed_s3_port,
            seaweed_last_error: opt_text(self.seaweed_last_error),
        }
    }
}

/// The base address of the primary service.
pub open spec fn core_url(port: u16) -> Seq<char> {
    "http://127.0.0.1:"@ + decimal(port as nat)
}

/// The state after both slots were polled.
pub open spec fn polled_state(
    state: OrchestratorView,
    core_poll: ProcessPoll,
    seaweed_poll: ProcessPoll,
) -> OrchestratorView {
    OrchestratorView {
        core_child: slot_after_poll(state.core_child, core_poll),
        seaweed_child: slot_after_poll(state.seaweed_child, seaweed_poll),
        ..state
    }
}

/// The snapshot of a state: the liveness of each slot by its poll, the health
/// that the host probed, and the last failure of the auxiliary service.
pub open spec fn status_of(
    state: OrchestratorView,
    settings: WizardSettingsView,
    core_healthy: bool,
    core_poll: ProcessPoll,
    seaweed_poll: ProcessPoll,
) -> ServiceStatusView {
    ServiceStatusView {
        core_running: slot_alive(state.core_child, core_poll),
        core_healthy,
        core_url: core_url(settings.core_port),
        seaweed_enabled: settings.seaweed_enabled,
        seaweed_running: slot_alive(state.seaweed_child, seaweed_poll),
        seaweed_s3_port: settings.seaweed_s3_port,
        seaweed_last_error: state.last_seaweed_error,
    }
}

fn clone_opt_string(s: &Option<String>) -> (r: Option<String>)
    ensures
        opt_text(r) == opt_text(*s),
{
    match s {
        Some(text) => Some(text.clone()),
        None => None,
    }
}

impl Orchestrator {
    #[verifier::type_invariant]
    spec fn attempts_within_cap(&self) -> bool {
        self.core_restart_attempts <= MAX_RESTART_ATTEMPTS
    }

    /// An orchestrator for the installation under `repo_root`, with both slots
    /// empty.
    pub fn new(repo_root: String) -> (orchestrator: Self)
        ensures
            orchestrator@ == initial_state(repo_root@),
    {
        Orchestrator {
            repo_root,
            core_child: None,
            seaweed_child: None,
            last_seaweed_error: None,
            last_core_start: None,
            core_restart_attempts: 0,
        }
    }

    /// The install root.
    pub fn repo_root(&self) -> (root: &str)
        ensures
            root@ == self@.repo_root,
    {
        self.repo_root.as_str()
    }

    /// The process in the primary slot.
    pub fn core_handle(&self) -> (handle: Option<ProcessHandle>)
        ensures
            handle == self@.core_child,
    {
        self.core_child
    }

    /// The process in the auxiliary slot.
    pub fn seaweed_handle(&self) -> (handle: Option<ProcessHandle>)
        ensures
            handle == self@.seaweed_child,
    {
        self.seaweed_child
    }

    /// The message of the auxiliary service's last failed start.
    pub fn last_seaweed_error(&self) -> (message: Option<String>)
        ensures
            opt_text(message) == self@.last_seaweed_error,
    {
        clone_opt_string(&self.last_seaweed_error)
    }

    /// The clock reading at the primary service's last start.
    pub fn last_core_start(&self) -> (at: Option<u64>)
        ensures
            at == self@.last_core_start,
    {
        self.last_core_start
    }

    /// The automatic restarts made so far, never more than the cap.
    pub fn restart_attempts(&self) -> (attempts: u32)
        ensures
            attempts == self@.core_restart_attempts,
            attempts <= MAX_RESTART_ATTEMPTS,
    {
        proof {
            use_type_invariant(self);
        }
        self.core_restart_attempts
    }

    pub(crate) fn put_core(&mut self, child: Option<ProcessHandle>)
        ensures
            final(self)@ == (OrchestratorView { core_child: child, ..old(self)@ }),
    {
        proof {
            use_type_invariant(&*self);
        }
        self.core_child = child;
    }

    pub(crate) fn put_seaweed(&mut self, child: Option<ProcessHandle>)
        ensures
            final(self)@ == (OrchestratorView { seaweed_child: child, ..old(self)@ }),
    {
        proof {
            use_type_invariant(&*self);
        }
        self.seaweed_child = child;
    }

    pub(crate) fn put_seaweed_error(&mut self, message: Option<String>)
        ensures
            final(self)@ == (OrchestratorView {
                last_seaweed_error: opt_text(message),
                ..old(self)@
            }),
    {
        proof {
            use_type_invariant(&*self);
        }
        self.last_seaweed_error = message;
    }

    pub(crate) fn put_core_start(&mut self, at: Option<u64>)
        ensures
            final(self)@ == (OrchestratorView { last_core_start: at, ..old(self)@ }),
    {
        proof {
            use_type_invariant(&*self);
        }
        self.last_core_start = at;
    }

    pub(crate) fn put_restart_attempts(&mut self, attempts: u32)
        requires
            attempts <= MAX_RESTART_ATTEMPTS,
        ensures
            final(self)@ == (OrchestratorView { core_restart_attempts: attempts, ..old(self)@ }),
    {
        self.core_restart_attempts = attempts;
    }

    /// Whether the primary service's process is running, by the poll that the
    /// host just made of it. A process seen to have exited leaves the slot; a
    /// poll that failed counts as not running and leaves the slot as it is.
    pub fn is_core_running(&mut self, poll: ProcessPoll) -> (running: bool)
        ensures
            running == slot_alive(old(self)@.core_child, poll),
            final(self)@ == (OrchestratorView {
                core_child: slot_after_poll(old(self)@.core_child, poll),
                ..old(self)@
            }),
    {
        proof {
            use_type_invariant(&*self);
        }
        let (slot, running) = observe_slot(self.core_child, poll);
        self.core_child = slot;
        running
    }

    /// Whether the auxiliary service's process is running, by the poll that
    /// the host just made of it.
    pub fn is_seaweed_running(&mut self, poll: ProcessPoll) -> (running: bool)
        ensures
            running == slot_alive(old(self)@.seaweed_child, poll),
            final(self)@ == (OrchestratorView {
                seaweed_child: slot_after_poll(old(self)@.seaweed_child, poll),
                ..old(self)@
            }),
    {
        proof {
            use_type_invariant(&*self);
        }
        let (slot, running) = observe_slot(self.seaweed_child, poll);
        self.seaweed_child = slot;
        running
    }

    /// Empties the primary slot and hands out the process that the host must
    /// terminate and wait for. On an empty slot nothing changes.
    pub fn stop_core(&mut self) -> (stopped: Option<ProcessHandle>)
        ensures
            stopped == old(self)@.core_child,
            final(self)@ == (OrchestratorView { core_child: None, ..old(self)@ }),
            old(self)@.core_child is None ==> final(self)@ == old(self)@,
    {
        proof {
            use_type_invariant(&*self);
        }
        let stopped = self.core_child;
        self.core_child = None;
        stopped
    }

    /// Empties the auxiliary slot and hands out the process that the host must
    /// terminate and wait for. On an empty slot nothing changes.
    pub fn stop_seaweed(&mut self) -> (stopped: Option<ProcessHandle>)
        ensures
            stopped == old(self)@.seaweed_child,
            final(self)@ == (OrchestratorView { seaweed_child: None, ..old(self)@ }),
            old(self)@.seaweed_child is None ==> final(self)@ == old(self)@,
    {
        proof {
            use_type_invariant(&*self);
        }
        let stopped = self.seaweed_child;
        self.seaweed_child = None;
        stopped
    }

    /// The connection attempt that probes the primary service's health.
    pub fn core_health_probe(&self, settings: &WizardSettings) -> (probe: PortProbe)
        ensures
            probe == (PortProbe { port: settings.core_port, timeout_ms: HEALTH_TIMEOUT_MS }),
    {
        PortProbe { port: settings.core_port, timeout_ms: HEALTH_TIMEOUT_MS }
    }

    /// Whether the primary service is healthy. Health is that something
    /// accepts a connection on the service's port, and nothing more: `connected`
    /// is the outcome of the attempt of `core_health_probe`.
    pub fn core_healthy(&self, settings: &WizardSettings, connected: bool) -> (healthy: bool)
        ensures
            healthy == connected,
    {
        connected
    }

    /// The status of both services, from fresh polls of their processes and a
    /// fresh health probe.
    pub fn status_snapshot(
        &mut self,
        settings: &WizardSettings,
        core_healthy: bool,
        core_poll: ProcessPoll,
        seaweed_poll: ProcessPoll,
    ) -> (status: ServiceStatus)
        ensures
            status@ == status_of(old(self)@, settings@, core_healthy, core_poll, seaweed_poll),
            final(self)@ == polled_state(old(self)@, core_poll, seaweed_poll),
    {
        let digits = decimal_string(settings.core_port as u64);
        let mut url = String::from_str("http://127.0.0.1:");
        url.append(digits.as_str());
        let core_running = self.is_core_running(core_poll);
        let seaweed_running = self.is_seaweed_running(seaweed_poll);
        ServiceStatus {
            core_running,
            core_healthy,
            core_url: url,
            seaweed_enabled: settings.seaweed_enabled,
            seaweed_running,
            seaweed_s3_port: settings.seaweed_s3_port,
            seaweed_last_error: clone_opt_string(&self.last_seaweed_error),
        }
    }
}

} // verus!
