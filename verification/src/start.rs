//! Starting the two services.
//!
//! A start is decided from what the host has observed and is carried out by
//! the host: the decision names the executable, checks the ports and plans the
//! launch; the host spawns the child and reports back; the orchestrator
//! records the outcome. Nothing is spawned into a slot whose process is alive.

use vstd::prelude::*;
use vstd::string::*;
use crate::errors::{error_text, ServiceError, ServiceErrorView};
use crate::launch::{
    interpreted_core_launch,
    plan_interpreted_core,
    plan_seaweed,
    plan_sidecar_core,
    seaweed_log_file,
    seaweed_launch_view,
    seaweed_log_path,
    sidecar_core_launch,
};
use crate::orchestrator::{Orchestrator, OrchestratorView, PortProbe};
use crate::ports::{ports_file, ports_path, RuntimePorts};
use crate::preflight::{
    conflict_labels,
    port_conflicts,
    preflight_ports,
    required_ports,
    PREFLIGHT_TIMEOUT_MS,
};
use crate::resolver::{
    core_sidecar_candidates,
    first_existing,
    first_flagged,
    has_native_header,
    is_native_executable,
    lemma_first_flagged,
    sidecar_paths,
    venv_python_candidates,
    venv_python_paths,
    weed_candidates,
    weed_paths,
};
use crate::settings::{WizardSettings, WizardSettingsView};
use crate::supervisor::{
    describe_spawn_failure,
    slot_after_poll,
    slot_alive,
    spawn_failure_text,
    LaunchSpec,
    LaunchSpecView,
    Platform,
    ProcessHandle,
    ProcessPoll,
    Service,
    SpawnFailure,
    SpawnFailureView,
};
use crate::text::{opt_text, texts};

verus! {

/// How long the host waits for the auxiliary service to become reachable
/// after its launch, in milliseconds.
pub const READINESS_WINDOW_MS: u64 = 2000;

/// How long the host pauses between two readiness probes, in milliseconds.
pub const READINESS_PAUSE_MS: u64 = 100;

/// What the host observed before a start of the auxiliary service.
#[derive(Clone, Debug, PartialEq, Eq)]
pub struct SeaweedProbe {
    /// The poll of the process in the auxiliary slot.
    pub poll: ProcessPoll,
    /// For each candidate path of the executable, whether it exists.
    pub candidate_exists: Vec<bool>,
    /// The leading bytes of the first candidate that exists, or `None` where
    /// the file could not be opened.
    pub header: Option<Vec<u8>>,
    /// For each port of the preflight, whether a connection succeeded.
    pub ports_open: Vec<bool>,
}

/// What the host observed before a start of the primary service.
#[derive(Clone, Debug, PartialEq, Eq)]
pub struct CoreProbe {
    /// The poll of the process in the primary slot.
    pub poll: ProcessPoll,
    /// For each candidate path of the interpreter, whether it exists.
    pub venv_exists: Vec<bool>,
    /// The directory of the host's own executable.
    pub exe_dir: Option<String>,
    /// The names of the regular files in that directory.
    pub exe_dir_files: Vec<String>,
    /// For each candidate path of the sidecar, whether it exists.
    pub sidecar_exists: Vec<bool>,
}

pub struct SeaweedProbeView {
    pub poll: ProcessPoll,
    pub candidate_exists: Seq<bool>,
    pub header: Option<Seq<u8>>,
    pub ports_open: Seq<bool>,
}

impl View for SeaweedProbe {
    type V = SeaweedProbeView;

    open spec fn view(&self) -> SeaweedProbeView {
        SeaweedProbeView {
            poll: self.poll,
            candidate_exists: self.candidate_exists@,
            header: match self.header {
                Some(bytes) => Some(bytes@),
                None => None,
            },
            ports_open: self.ports_open@,
        }
    }
}

pub struct CoreProbeView {
    pub poll: ProcessPoll,
    pub venv_exists: Seq<bool>,
    pub exe_dir: Option<Seq<char>>,
    pub exe_dir_files: Seq<Seq<char>>,
    pub sidecar_exists: Seq<bool>,
}

impl View for CoreProbe {
    type V = CoreProbeView;

    open spec fn view(&self) -> CoreProbeView {
        CoreProbeView {
            poll: self.poll,
            venv_exists: self.venv_exists@,
            exe_dir: opt_text(self.exe_dir),
            exe_dir_files: texts(self.exe_dir_files@),
            sidecar_exists: self.sidecar_exists@,
        }
    }
}

/// The decision on a start of the auxiliary service.
#[derive(Clone, Debug, PartialEq, Eq)]
pub enum SeaweedStart {
    /// The configuration does not enable the service.
    Disabled,
    /// The service's process is alive; nothing is spawned.
    AlreadyRunning,
    /// The host is to launch this.
    Launch(LaunchSpec),
}

pub enum SeaweedStartView {
    Disabled,
    AlreadyRunning,
    Launch(LaunchSpecView),
}

impl View for SeaweedStart {
    type V = SeaweedStartView;

    open spec fn view(&self) -> SeaweedStartView {
        match self {
            SeaweedStart::Disabled => SeaweedStartView::Disabled,
            SeaweedStart::AlreadyRunning => SeaweedStartView::AlreadyRunning,
            SeaweedStart::Launch(spec) => SeaweedStartView::Launch(spec@),
        }
    }
}

/// The launch of the primary service: the runtime ports file that the host
/// writes first, then the child.
#[derive(Clone, Debug, PartialEq, Eq)]
pub struct CoreLaunch {
    pub ports_path: String,
    pub ports: RuntimePorts,
    pub spec: LaunchSpec,
}

pub struct CoreLaunchView {
    pub ports_path: Seq<char>,
    pub ports: RuntimePorts,
    pub spec: LaunchSpecView,
}

impl View for CoreLaunch {
    type V = CoreLaunchView;

    open spec fn view(&self) -> CoreLaunchView {
        CoreLaunchView { ports_path: self.ports_path@, ports: self.ports, spec: self.spec@ }
    }
}

/// The decision on a start of the primary service.
#[derive(Clone, Debug, PartialEq, Eq)]
pub enum CoreStart {
    /// The service's process is alive; nothing is spawned.
    AlreadyRunning,
    /// The host is to launch this.
    Launch(CoreLaunch),
}

pub enum CoreStartView {
    AlreadyRunning,
    Launch(CoreLaunchView),
}

impl View for CoreStart {
    type V = CoreStartView;

    open spec fn view(&self) -> CoreStartView {
        match self {
            CoreStart::AlreadyRunning => CoreStartView::AlreadyRunning,
            CoreStart::Launch(launch) => CoreStartView::Launch(launch@),
        }
    }
}

/// What a readiness probe of the auxiliary service showed.
#[derive(Clone, Copy, Debug, PartialEq, Eq)]
pub enum Readiness {
    /// The external port accepts connections.
    Ready,
    /// The window has passed without an answer; the start counts as done.
    Unconfirmed,
    /// The host pauses and probes again.
    Wait { pause_ms: u64 },
}

/// The candidate that the host's flags select, if any.
pub open spec fn selected(paths: Seq<Seq<char>>, exists: Seq<bool>) -> Option<Seq<char>> {
    match first_flagged(exists, paths.len()) {
        Some(i) => Some(paths[i as int]),
        None => None,
    }
}

/// The executable of the auxiliary service: the first candidate that exists.
pub open spec fn resolved_weed(root: Seq<char>, settings: WizardSettingsView, exists: Seq<bool>)
    -> Option<Seq<char>> {
    selected(
        weed_paths(root, settings.faceforge_home, settings.seaweed_weed_path),
        exists,
    )
}

/// The plan for a start of the auxiliary service whose slot is free.
///
/// The executable is the first candidate that exists; without one the start
/// fails and names every candidate. On Windows the executable must begin with
/// the native marker. The external port must be configured, and none of the
/// four ports may be occupied; else the start fails and names each that is.
pub open spec fn seaweed_plan(
    root: Seq<char>,
    settings: WizardSettingsView,
    platform: Platform,
    probe: SeaweedProbeView,
) -> Result<LaunchSpecView, ServiceErrorView> {
    let home = settings.faceforge_home;
    let paths = weed_paths(root, home, settings.seaweed_weed_path);
    match selected(paths, probe.candidate_exists) {
        None => Err(ServiceErrorView::BinaryNotFound { service: Service::Auxiliary, tried: paths }),
        Some(weed) => {
            if platform is Windows && probe.header is None {
                Err(ServiceErrorView::UnreadableExecutable { path: weed })
            } else if platform is Windows && !has_native_header(probe.header->0) {
                Err(ServiceErrorView::InvalidExecutable { path: weed })
            } else {
                match settings.seaweed_s3_port {
                    None => Err(ServiceErrorView::PortNotConfigured),
                    Some(port) => {
                        let conflicts = conflict_labels(required_ports(port), probe.ports_open);
                        if conflicts.len() > 0 {
                            Err(ServiceErrorView::PortConflict { conflicts })
                        } else {
                            Ok(seaweed_launch_view(home, weed, port, settings.max_log_size_mb))
                        }
                    },
                }
            }
        },
    }
}

/// A start of the auxiliary service, as a step of the orchestrator.
///
/// A disabled service and a live process change nothing. Otherwise the slot
/// takes the poll, and a failed plan leaves its message as the last error.
pub open spec fn seaweed_start_step(
    state: OrchestratorView,
    settings: WizardSettingsView,
    platform: Platform,
    probe: SeaweedProbeView,
) -> (OrchestratorView, Result<SeaweedStartView, ServiceErrorView>) {
    if !settings.seaweed_enabled {
        (state, Ok(SeaweedStartView::Disabled))
    } else if slot_alive(state.seaweed_child, probe.poll) {
        (state, Ok(SeaweedStartView::AlreadyRunning))
    } else {
        let polled = OrchestratorView {
            seaweed_child: slot_after_poll(state.seaweed_child, probe.poll),
            ..state
        };
        match seaweed_plan(state.repo_root, settings, platform, probe) {
            Ok(spec) => (polled, Ok(SeaweedStartView::Launch(spec))),
            Err(error) => (
                OrchestratorView { last_seaweed_error: Some(error_text(error)), ..polled },
                Err(error),
            ),
        }
    }
}

/// The ports that the primary service is told of.
pub open spec fn negotiated_ports(settings: WizardSettingsView) -> RuntimePorts {
    RuntimePorts { core: Some(settings.core_port), seaweed_s3: settings.seaweed_s3_port }
}

/// The plan for a start of the primary service whose slot is free.
///
/// An interpreter of a local virtual environment, if one exists, runs the
/// service as a module. Otherwise the first sidecar that exists is run, and
/// without one the start fails and names every candidate.
pub open spec fn core_plan(
    root: Seq<char>,
    settings: WizardSettingsView,
    platform: Platform,
    probe: CoreProbeView,
) -> Result<CoreLaunchView, ServiceErrorView> {
    let home = settings.faceforge_home;
    let sidecars = sidecar_paths(
        root,
        probe.exe_dir,
        probe.exe_dir_files,
        platform,
    );
    match selected(venv_python_paths(root), probe.venv_exists) {
        Some(python) => Ok(
            CoreLaunchView {
                ports_path: ports_file(home),
                ports: negotiated_ports(settings),
                spec: interpreted_core_launch(root, home, python, settings.max_log_size_mb),
            },
        ),
        None => match selected(sidecars, probe.sidecar_exists) {
            Some(sidecar) => Ok(
                CoreLaunchView {
                    ports_path: ports_file(home),
                    ports: negotiated_ports(settings),
                    spec: sidecar_core_launch(home, sidecar, settings.max_log_size_mb),
                },
            ),
            None => Err(
                ServiceErrorView::BinaryNotFound { service: Service::Primary, tried: sidecars },
            ),
        },
    }
}

/// A start of the primary service, as a step of the orchestrator.
pub open spec fn core_start_step(
    state: OrchestratorView,
    settings: WizardSettingsView,
    platform: Platform,
    probe: CoreProbeView,
) -> (OrchestratorView, Result<CoreStartView, ServiceErrorView>) {
    if slot_alive(state.core_child, probe.poll) {
        (state, Ok(CoreStartView::AlreadyRunning))
    } else {
        let polled = OrchestratorView {
            core_child: slot_after_poll(state.core_child, probe.poll),
            ..state
        };
        match core_plan(state.repo_root, settings, platform, probe) {
            Ok(launch) => (polled, Ok(CoreStartView::Launch(launch))),
            Err(error) => (polled, Err(error)),
        }
    }
}

/// One readiness probe of the auxiliary service, as a step of the
/// orchestrator.
///
/// Once the window has passed the start counts as done. Within it an open
/// port ends the wait; a child that has exited leaves the slot and fails the
/// start; otherwise the host pauses and probes again. A start that is done
/// clears the last error.
pub open spec fn seaweed_readiness_step(
    state: OrchestratorView,
    settings: WizardSettingsView,
    elapsed_ms: u64,
    port_open: bool,
    poll: ProcessPoll,
) -> (OrchestratorView, Result<Readiness, ServiceErrorView>) {
    if elapsed_ms >= READINESS_WINDOW_MS {
        (OrchestratorView { last_seaweed_error: None, ..state }, Ok(Readiness::Unconfirmed))
    } else if port_open {
        (OrchestratorView { last_seaweed_error: None, ..state }, Ok(Readiness::Ready))
    } else if state.seaweed_child is Some && poll is Exited {
        let error = ServiceErrorView::PrematureExit {
            code: poll->code,
            log_path: seaweed_log_path(settings.faceforge_home),
        };
        (
            OrchestratorView {
                seaweed_child: None,
                last_seaweed_error: Some(error_text(error)),
                ..state
            },
            Err(error),
        )
    } else {
        (state, Ok(Readiness::Wait { pause_ms: READINESS_PAUSE_MS }))
    }
}

/// The state after the host launched the primary service at the user's
/// request: the slot is filled, the clock reading is kept and the automatic
/// restarts start anew.
pub open spec fn after_core_started(state: OrchestratorView, handle: ProcessHandle, now_ms: u64)
    -> OrchestratorView {
    OrchestratorView {
        core_child: Some(handle),
        last_core_start: Some(now_ms),
        core_restart_attempts: 0,
        ..state
    }
}

/// The state after the host launched the auxiliary service.
pub open spec fn after_seaweed_started(state: OrchestratorView, handle: ProcessHandle)
    -> OrchestratorView {
    OrchestratorView { seaweed_child: Some(handle), ..state }
}

/// The failure of a launch that the operating system refused.
pub open spec fn spawn_error(
    service: Service,
    launch: LaunchSpecView,
    port: u16,
    failure: SpawnFailureView,
    platform: Platform,
) -> ServiceErrorView {
    ServiceErrorView::SpawnFailed {
        service,
        program: launch.program,
        port,
        log_path: launch.log_path,
        detail: spawn_failure_text(failure, platform),
    }
}

/// Words the failure of a launch that the operating system refused.
pub fn spawn_failed(
    service: Service,
    launch: &LaunchSpec,
    port: u16,
    failure: &SpawnFailure,
    platform: Platform,
) -> (error: ServiceError)
    ensures
        error@ == spawn_error(service, launch@, port, failure@, platform),
{
    ServiceError::SpawnFailed {
        service,
        program: launch.program.clone(),
        port,
        log_path: launch.log_path.clone(),
        detail: describe_spawn_failure(failure, platform),
    }
}

fn select(paths: &Vec<String>, exists: &Vec<bool>) -> (chosen: Option<String>)
    ensures
        opt_text(chosen) == selected(texts(paths@), exists@),
{
    match first_existing(paths.len(), exists) {
        Some(i) => {
            proof {
                lemma_first_flagged(exists@, paths.len() as nat);
                assert(texts(paths@)[i as int] == paths@[i as int]@);
            }
            Some(paths[i].clone())
        },
        None => None,
    }
}

/// Plans a start of the auxiliary service whose slot is free.
pub fn plan_seaweed_start(
    root: &str,
    settings: &WizardSettings,
    platform: Platform,
    probe: &SeaweedProbe,
) -> (plan: Result<LaunchSpec, ServiceError>)
    ensures
        (match plan {
            Ok(spec) => Ok(spec@),
            Err(error) => Err(error@),
        }) == seaweed_plan(root@, settings@, platform, probe@),
{
    let paths = weed_candidates(
        root,
        settings.faceforge_home.as_str(),
        &settings.seaweed_weed_path,
    );
    let weed = match select(&paths, &probe.candidate_exists) {
        Some(weed) => weed,
        None => {
            return Err(ServiceError::BinaryNotFound { service: Service::Auxiliary, tried: paths });
        },
    };
    let windows = match platform {
        Platform::Windows => true,
        Platform::Unix => false,
    };
    if windows {
        match &probe.header {
            None => {
                return Err(ServiceError::UnreadableExecutable { path: weed });
            },
            Some(header) => {
                if !is_native_executable(header) {
                    return Err(ServiceError::InvalidExecutable { path: weed });
                }
            },
        }
    }
    let port = match settings.seaweed_s3_port {
        Some(port) => port,
        None => {
            return Err(ServiceError::PortNotConfigured);
        },
    };
    let checks = preflight_ports(port);
    let conflicts = port_conflicts(&checks, &probe.ports_open);
    if conflicts.len() > 0 {
        assert(texts(conflicts@).len() == conflicts@.len());
        return Err(ServiceError::PortConflict { conflicts });
    }
    assert(texts(conflicts@).len() == conflicts@.len());
    Ok(plan_seaweed(settings, weed, port))
}

/// Plans a start of the primary service whose slot is free.
pub fn plan_core_start(
    root: &str,
    settings: &WizardSettings,
    platform: Platform,
    probe: &CoreProbe,
) -> (plan: Result<CoreLaunch, ServiceError>)
    ensures
        (match plan {
            Ok(launch) => Ok(launch@),
            Err(error) => Err(error@),
        }) == core_plan(root@, settings@, platform, probe@),
{
    let ports = RuntimePorts { core: Some(settings.core_port), seaweed_s3: settings.seaweed_s3_port };
    let pythons = venv_python_candidates(root);
    match select(&pythons, &probe.venv_exists) {
        Some(python) => Ok(
            CoreLaunch {
                ports_path: ports_path(settings.faceforge_home.as_str()),
                ports,
                spec: plan_interpreted_core(root, settings, python),
            },
        ),
        None => {
            let sidecars = core_sidecar_candidates(
                root,
                &probe.exe_dir,
                &probe.exe_dir_files,
                platform,
            );
            match select(&sidecars, &probe.sidecar_exists) {
                Some(sidecar) => Ok(
                    CoreLaunch {
                        ports_path: ports_path(settings.faceforge_home.as_str()),
                        ports,
                        spec: plan_sidecar_core(settings, sidecar),
                    },
                ),
                None => Err(
                    ServiceError::BinaryNotFound { service: Service::Primary, tried: sidecars },
                ),
            }
        },
    }
}

impl Orchestrator {
    /// The interpreter of a local virtual environment under the install root:
    /// the first candidate of `venv_python_candidates` that exists.
    pub fn find_venv_python(&self, exists: &Vec<bool>) -> (python: Option<String>)
        ensures
            opt_text(python) == selected(venv_python_paths(self@.repo_root), exists@),
    {
        let pythons = venv_python_candidates(self.repo_root());
        select(&pythons, exists)
    }

    /// The sidecar of the primary service: the first candidate that exists.
    /// Without one the failure names every candidate.
    pub fn resolve_core_sidecar(
        &self,
        exe_dir: &Option<String>,
        exe_dir_files: &Vec<String>,
        platform: Platform,
        exists: &Vec<bool>,
    ) -> (sidecar: Result<String, ServiceError>)
        ensures
            ({
                let paths = sidecar_paths(
                    self@.repo_root,
                    opt_text(*exe_dir),
                    texts(exe_dir_files@),
                    platform,
                );
                match sidecar {
                    Ok(path) => selected(paths, exists@) == Some(path@),
                    Err(error) => selected(paths, exists@) is None && error@ == (
                    ServiceErrorView::BinaryNotFound { service: Service::Primary, tried: paths }),
                }
            }),
    {
        let paths = core_sidecar_candidates(
            self.repo_root(),
            exe_dir,
            exe_dir_files,
            platform,
        );
        match select(&paths, exists) {
            Some(path) => Ok(path),
            None => Err(ServiceError::BinaryNotFound { service: Service::Primary, tried: paths }),
        }
    }

    /// The candidate paths of the auxiliary service's executable, in order of
    /// priority.
    pub fn weed_candidates(&self, settings: &WizardSettings) -> (paths: Vec<String>)
        ensures
            texts(paths@) == weed_paths(
                self@.repo_root,
                settings.faceforge_home@,
                opt_text(settings.seaweed_weed_path),
            ),
    {
        weed_candidates(
            self.repo_root(),
            settings.faceforge_home.as_str(),
            &settings.seaweed_weed_path,
        )
    }

    /// The executable of the auxiliary service: the first candidate that
    /// exists.
    pub fn resolve_weed_path(&self, settings: &WizardSettings, exists: &Vec<bool>) -> (weed: Option<
        String,
    >)
        ensures
            opt_text(weed) == resolved_weed(self@.repo_root, settings@, exists@),
    {
        let paths = self.weed_candidates(settings);
        select(&paths, exists)
    }

    /// Decides a start of the auxiliary service.
    ///
    /// Nothing happens where the service is disabled or its process is alive.
    /// Otherwise the start is planned; a failure is returned and kept as the
    /// last error for the status.
    pub fn start_seaweed_if_enabled(
        &mut self,
        settings: &WizardSettings,
        platform: Platform,
        probe: &SeaweedProbe,
    ) -> (decision: Result<SeaweedStart, ServiceError>)
        ensures
            (final(self)@, match decision {
                Ok(start) => Ok(start@),
                Err(error) => Err(error@),
            }) == seaweed_start_step(old(self)@, settings@, platform, probe@),
    {
        if !settings.seaweed_enabled {
            return Ok(SeaweedStart::Disabled);
        }
        if self.is_seaweed_running(probe.poll) {
            return Ok(SeaweedStart::AlreadyRunning);
        }
        match plan_seaweed_start(self.repo_root(), settings, platform, probe) {
            Ok(spec) => Ok(SeaweedStart::Launch(spec)),
            Err(error) => {
                self.put_seaweed_error(Some(error.message()));
                Err(error)
            },
        }
    }

    /// Records that the host launched the auxiliary service.
    pub fn seaweed_started(&mut self, handle: ProcessHandle)
        ensures
            final(self)@ == after_seaweed_started(old(self)@, handle),
    {
        self.put_seaweed(Some(handle));
    }

    /// Records that the host could not carry out a start of the auxiliary
    /// service: the failure's message becomes the last error.
    pub fn seaweed_start_failed(&mut self, error: &ServiceError)
        ensures
            final(self)@ == (OrchestratorView {
                last_seaweed_error: Some(error_text(error@)),
                ..old(self)@
            }),
    {
        self.put_seaweed_error(Some(error.message()));
    }

    /// The connection attempt that probes the auxiliary service's readiness,
    /// where its port is configured.
    pub fn seaweed_readiness_probe(&self, settings: &WizardSettings) -> (probe: Option<PortProbe>)
        ensures
            probe == match settings.seaweed_s3_port {
                Some(port) => Some(PortProbe { port, timeout_ms: PREFLIGHT_TIMEOUT_MS }),
                None => None,
            },
    {
        match settings.seaweed_s3_port {
            Some(port) => Some(PortProbe { port, timeout_ms: PREFLIGHT_TIMEOUT_MS }),
            None => None,
        }
    }

    /// Judges one readiness probe after a launch of the auxiliary service.
    /// `elapsed_ms` is the time since the launch, `port_open` whether the
    /// external port accepted a connection, `poll` the poll of the child.
    pub fn seaweed_readiness(
        &mut self,
        settings: &WizardSettings,
        elapsed_ms: u64,
        port_open: bool,
        poll: ProcessPoll,
    ) -> (verdict: Result<Readiness, ServiceError>)
        ensures
            (final(self)@, match verdict {
                Ok(readiness) => Ok(readiness),
                Err(error) => Err(error@),
            }) == seaweed_readiness_step(old(self)@, settings@, elapsed_ms, port_open, poll),
    {
        if elapsed_ms >= READINESS_WINDOW_MS {
            self.put_seaweed_error(None);
            return Ok(Readiness::Unconfirmed);
        }
        if port_open {
            self.put_seaweed_error(None);
            return Ok(Readiness::Ready);
        }
        if self.seaweed_handle().is_some() {
            if let ProcessPoll::Exited { code } = poll {
                let error = ServiceError::PrematureExit {
                    code,
                    log_path: seaweed_log_file(settings.faceforge_home.as_str()),
                };
                self.put_seaweed(None);
                self.put_seaweed_error(Some(error.message()));
                return Err(error);
            }
        }
        Ok(Readiness::Wait { pause_ms: READINESS_PAUSE_MS })
    }

    /// Decides a start of the primary service.
    ///
    /// Nothing happens where its process is alive. Otherwise the start is
    /// planned: the runtime ports file, the executable and the launch.
    pub fn start_core(&mut self, settings: &WizardSettings, platform: Platform, probe: &CoreProbe)
        -> (decision: Result<CoreStart, ServiceError>)
        ensures
            (final(self)@, match decision {
                Ok(start) => Ok(start@),
                Err(error) => Err(error@),
            }) == core_start_step(old(self)@, settings@, platform, probe@),
    {
        if self.is_core_running(probe.poll) {
            return Ok(CoreStart::AlreadyRunning);
        }
        match plan_core_start(self.repo_root(), settings, platform, probe) {
            Ok(launch) => Ok(CoreStart::Launch(launch)),
            Err(error) => Err(error),
        }
    }

    /// Records that the host launched the primary service at the user's
    /// request: the clock reading is kept and the automatic restarts start
    /// anew.
    pub fn core_started(&mut self, handle: ProcessHandle, now_ms: u64)
        ensures
            final(self)@ == after_core_started(old(self)@, handle, now_ms),
    {
        self.put_core(Some(handle));
        self.put_core_start(Some(now_ms));
        self.put_restart_attempts(0);
    }
}

} // verus!
