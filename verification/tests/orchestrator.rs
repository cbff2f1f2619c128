use faceforge_desktop::errors::ServiceError;
use faceforge_desktop::facade::StartSequence;
use faceforge_desktop::orchestrator::{
    Orchestrator, PortProbe, ServiceStatus, HEALTH_TIMEOUT_MS, MAX_RESTART_ATTEMPTS,
};
use faceforge_desktop::ports::RuntimePorts;
use faceforge_desktop::settings::WizardSettings;
use faceforge_desktop::start::{
    CoreProbe, CoreStart, Readiness, SeaweedProbe, SeaweedStart, READINESS_PAUSE_MS,
    READINESS_WINDOW_MS,
};
use faceforge_desktop::supervisor::{Platform, ProcessHandle, ProcessPoll, Service};

fn settings(seaweed_enabled: bool) -> WizardSettings {
    WizardSettings {
        faceforge_home: "/home/u/ff".to_string(),
        core_port: 43210,
        seaweed_enabled,
        seaweed_s3_port: Some(8333),
        seaweed_weed_path: None,
        auto_restart: true,
        minimize_on_exit: true,
        max_log_size_mb: 10,
    }
}

fn exited() -> ProcessPoll {
    ProcessPoll::Exited { code: Some(1) }
}

fn seaweed_probe(poll: ProcessPoll) -> SeaweedProbe {
    SeaweedProbe {
        poll,
        candidate_exists: vec![false, true, false, false, false, false, false],
        header: Some(vec![0x4d, 0x5a, 0x90]),
        ports_open: vec![false, false, false, false],
    }
}

fn core_probe(poll: ProcessPoll) -> CoreProbe {
    CoreProbe {
        poll,
        venv_exists: vec![false, false],
        exe_dir: Some("/opt/app".to_string()),
        exe_dir_files: vec!["faceforge-core-x86_64-unknown-linux-gnu".to_string()],
        sidecar_exists: vec![false, false, false, false, false, false, true],
    }
}

#[test]
fn a_new_orchestrator_has_started_nothing() {
    let orchestrator = Orchestrator::new("/repo".to_string());
    assert_eq!(orchestrator.repo_root(), "/repo");
    assert_eq!(orchestrator.core_handle(), None);
    assert_eq!(orchestrator.seaweed_handle(), None);
    assert_eq!(orchestrator.last_seaweed_error(), None);
    assert_eq!(orchestrator.last_core_start(), None);
    assert_eq!(orchestrator.restart_attempts(), 0);
}

#[test]
fn liveness_follows_the_poll() {
    let mut orchestrator = Orchestrator::new("/repo".to_string());
    assert!(!orchestrator.is_core_running(ProcessPoll::Running));
    orchestrator.core_started(ProcessHandle { id: 1 }, 100);
    assert!(orchestrator.is_core_running(ProcessPoll::Running));
    assert_eq!(orchestrator.core_handle(), Some(ProcessHandle { id: 1 }));
    assert!(!orchestrator.is_core_running(ProcessPoll::Unknown));
    assert_eq!(orchestrator.core_handle(), Some(ProcessHandle { id: 1 }));
    assert!(!orchestrator.is_core_running(exited()));
    assert_eq!(orchestrator.core_handle(), None);
    assert!(!orchestrator.is_core_running(ProcessPoll::Running));
}

#[test]
fn liveness_of_the_object_store_follows_the_poll() {
    let mut orchestrator = Orchestrator::new("/repo".to_string());
    assert!(!orchestrator.is_seaweed_running(ProcessPoll::Running));
    orchestrator.seaweed_started(ProcessHandle { id: 2 });
    assert!(orchestrator.is_seaweed_running(ProcessPoll::Running));
    assert!(!orchestrator.is_seaweed_running(ProcessPoll::Unknown));
    assert_eq!(orchestrator.seaweed_handle(), Some(ProcessHandle { id: 2 }));
    assert!(!orchestrator.is_seaweed_running(exited()));
    assert_eq!(orchestrator.seaweed_handle(), None);
    assert_eq!(orchestrator.core_handle(), None);
}

#[test]
fn starting_a_running_primary_service_is_a_no_op() {
    let mut orchestrator = Orchestrator::new("/repo".to_string());
    let first = orchestrator.start_core(&settings(false), Platform::Unix, &core_probe(exited()));
    assert!(matches!(first, Ok(CoreStart::Launch(_))));
    orchestrator.core_started(ProcessHandle { id: 11 }, 500);

    let again =
        orchestrator.start_core(&settings(false), Platform::Unix, &core_probe(ProcessPoll::Running));
    assert_eq!(again, Ok(CoreStart::AlreadyRunning));
    assert_eq!(orchestrator.core_handle(), Some(ProcessHandle { id: 11 }));
    assert_eq!(orchestrator.last_core_start(), Some(500));
    assert_eq!(orchestrator.restart_attempts(), 0);
}

#[test]
fn starting_a_running_object_store_is_a_no_op() {
    let mut orchestrator = Orchestrator::new("/repo".to_string());
    let first =
        orchestrator.start_seaweed_if_enabled(&settings(true), Platform::Unix, &seaweed_probe(exited()));
    assert!(matches!(first, Ok(SeaweedStart::Launch(_))));
    orchestrator.seaweed_started(ProcessHandle { id: 12 });

    let mut probe = seaweed_probe(ProcessPoll::Running);
    probe.ports_open = vec![true, true, true, true];
    let again = orchestrator.start_seaweed_if_enabled(&settings(true), Platform::Unix, &probe);
    assert_eq!(again, Ok(SeaweedStart::AlreadyRunning));
    assert_eq!(orchestrator.seaweed_handle(), Some(ProcessHandle { id: 12 }));
    assert_eq!(orchestrator.last_seaweed_error(), None);
}

#[test]
fn stopping_a_service_that_does_not_run_changes_nothing() {
    let mut orchestrator = Orchestrator::new("/repo".to_string());
    assert_eq!(orchestrator.stop_core(), None);
    assert_eq!(orchestrator.stop_seaweed(), None);
    assert!(orchestrator.stop_services().is_empty());
    assert_eq!(orchestrator.core_handle(), None);
    assert_eq!(orchestrator.seaweed_handle(), None);
    assert_eq!(orchestrator.restart_attempts(), 0);
    assert_eq!(orchestrator.last_core_start(), None);
}

#[test]
fn a_stop_empties_the_slot_and_hands_out_the_process() {
    let mut orchestrator = Orchestrator::new("/repo".to_string());
    orchestrator.core_started(ProcessHandle { id: 1 }, 100);
    orchestrator.seaweed_started(ProcessHandle { id: 2 });
    assert_eq!(orchestrator.stop_core(), Some(ProcessHandle { id: 1 }));
    assert_eq!(orchestrator.core_handle(), None);
    assert_eq!(orchestrator.seaweed_handle(), Some(ProcessHandle { id: 2 }));
    assert_eq!(orchestrator.stop_seaweed(), Some(ProcessHandle { id: 2 }));
    assert_eq!(orchestrator.seaweed_handle(), None);
    assert_eq!(orchestrator.stop_core(), None);
}

#[test]
fn stopping_everything_ends_the_primary_service_first() {
    let mut orchestrator = Orchestrator::new("/repo".to_string());
    orchestrator.seaweed_started(ProcessHandle { id: 2 });
    orchestrator.core_started(ProcessHandle { id: 1 }, 100);
    assert_eq!(orchestrator.stop_services(), vec![ProcessHandle { id: 1 }, ProcessHandle { id: 2 }]);
    assert_eq!(orchestrator.core_handle(), None);
    assert_eq!(orchestrator.seaweed_handle(), None);
    assert_eq!(orchestrator.last_core_start(), Some(100));
}

#[test]
fn health_is_that_the_port_accepts_a_connection() {
    let orchestrator = Orchestrator::new("/repo".to_string());
    assert_eq!(
        orchestrator.core_health_probe(&settings(false)),
        PortProbe { port: 43210, timeout_ms: 250 }
    );
    assert_eq!(HEALTH_TIMEOUT_MS, 250);
    assert!(orchestrator.core_healthy(&settings(false), true));
    assert!(!orchestrator.core_healthy(&settings(false), false));
}

#[test]
fn a_disabled_object_store_is_not_started() {
    let mut orchestrator = Orchestrator::new("/repo".to_string());
    let mut probe = seaweed_probe(exited());
    probe.candidate_exists = vec![];
    let decision = orchestrator.start_seaweed_if_enabled(&settings(false), Platform::Windows, &probe);
    assert_eq!(decision, Ok(SeaweedStart::Disabled));
    assert_eq!(orchestrator.seaweed_handle(), None);
    assert_eq!(orchestrator.last_seaweed_error(), None);
}

#[test]
fn with_the_object_store_disabled_only_the_primary_service_starts() {
    let config = settings(false);
    let mut orchestrator = Orchestrator::new("/repo".to_string());
    let mut sequence = StartSequence::begin();

    let auxiliary =
        orchestrator.start_seaweed_if_enabled(&config, Platform::Unix, &seaweed_probe(exited()));
    assert_eq!(auxiliary, Ok(SeaweedStart::Disabled));
    sequence = sequence.advance(auxiliary.is_ok());
    assert_eq!(sequence, StartSequence::Primary);

    let primary = orchestrator.start_core(&config, Platform::Unix, &core_probe(exited()));
    let launch = match primary {
        Ok(CoreStart::Launch(launch)) => launch,
        _ => panic!("the primary service is to be launched"),
    };
    assert_eq!(launch.spec.program, "/opt/app/faceforge-core-x86_64-unknown-linux-gnu");
    orchestrator.core_started(ProcessHandle { id: 21 }, 1000);
    sequence = sequence.advance(true);
    assert_eq!(sequence, StartSequence::Finished { all_started: true });
    assert!(sequence.desired_running(false));

    let status = orchestrator.status_snapshot(&config, true, ProcessPoll::Running, exited());
    assert_eq!(
        status,
        ServiceStatus {
            core_running: true,
            core_healthy: true,
            core_url: "http://127.0.0.1:43210".to_string(),
            seaweed_enabled: false,
            seaweed_running: false,
            seaweed_s3_port: Some(8333),
            seaweed_last_error: None,
        }
    );
    assert_eq!(orchestrator.seaweed_handle(), None);
}

#[test]
fn a_missing_object_store_binary_fails_the_start_and_ends_the_sequence() {
    let config = settings(true);
    let mut orchestrator = Orchestrator::new("/repo".to_string());
    let mut probe = seaweed_probe(exited());
    probe.candidate_exists = vec![false; 7];

    let auxiliary = orchestrator.start_seaweed_if_enabled(&config, Platform::Unix, &probe);
    let error = match auxiliary {
        Err(error) => error,
        Ok(_) => panic!("the start must fail"),
    };
    assert_eq!(
        error,
        ServiceError::BinaryNotFound {
            service: Service::Auxiliary,
            tried: vec![
                "/repo/tools/weed.exe".to_string(),
                "/repo/tools/weed".to_string(),
                "/repo/desktop/src-tauri/resources/tools/weed.exe".to_string(),
                "/repo/desktop/src-tauri/resources/tools/weed".to_string(),
                "/repo/../resources/tools/weed.exe".to_string(),
                "/repo/../resources/tools/weed".to_string(),
                "/home/u/ff/tools/weed.exe".to_string(),
            ],
        }
    );
    assert_eq!(orchestrator.seaweed_handle(), None);
    assert_eq!(orchestrator.last_seaweed_error(), Some(error.message()));

    let sequence = StartSequence::begin().advance(false);
    assert_eq!(sequence, StartSequence::Finished { all_started: false });
    assert!(!sequence.desired_running(false));
    assert!(sequence.desired_running(true));
    assert_eq!(sequence.advance(true), StartSequence::Finished { all_started: false });
    assert_eq!(orchestrator.core_handle(), None);

    let status = orchestrator.status_snapshot(&config, false, exited(), exited());
    assert!(!status.core_running);
    assert!(status.seaweed_enabled);
    assert!(!status.seaweed_running);
    assert_eq!(status.seaweed_last_error, Some(error.message()));
}

#[test]
fn a_failed_primary_start_ends_the_sequence_without_the_wish() {
    let sequence = StartSequence::begin().advance(true).advance(false);
    assert_eq!(sequence, StartSequence::Finished { all_started: false });
    assert!(!sequence.desired_running(false));
}

#[test]
fn an_occupied_port_rejects_the_start_of_the_object_store() {
    for occupied in 0..4 {
        let mut orchestrator = Orchestrator::new("/repo".to_string());
        let mut probe = seaweed_probe(exited());
        probe.ports_open[occupied] = true;
        let decision = orchestrator.start_seaweed_if_enabled(&settings(true), Platform::Unix, &probe);
        let label = ["master:9333", "volume:8080", "filer:8888", "s3:8333"][occupied];
        assert_eq!(
            decision,
            Err(ServiceError::PortConflict { conflicts: vec![label.to_string()] })
        );
        assert_eq!(orchestrator.seaweed_handle(), None);
        assert_eq!(
            orchestrator.last_seaweed_error(),
            Some(format!(
                "SeaweedFS cannot start because these ports already have listeners: {}",
                label
            ))
        );
    }
}

#[test]
fn the_object_store_is_launched_from_the_first_binary_that_exists() {
    let mut orchestrator = Orchestrator::new("/repo".to_string());
    let decision =
        orchestrator.start_seaweed_if_enabled(&settings(true), Platform::Windows, &seaweed_probe(exited()));
    let spec = match decision {
        Ok(SeaweedStart::Launch(spec)) => spec,
        _ => panic!("the object store is to be launched"),
    };
    assert_eq!(spec.program, "/repo/tools/weed");
    assert_eq!(spec.args[7], "-s3.port=8333");
    assert_eq!(orchestrator.seaweed_handle(), None);
    assert_eq!(orchestrator.last_seaweed_error(), None);
}

#[test]
fn an_explicit_binary_is_used_only_if_it_exists() {
    let mut config = settings(true);
    config.seaweed_weed_path = Some("/usr/local/bin/weed".to_string());
    let orchestrator = Orchestrator::new("/repo".to_string());
    assert_eq!(orchestrator.weed_candidates(&config)[0], "/usr/local/bin/weed");
    let mut exists = vec![false; 8];
    exists[0] = true;
    exists[2] = true;
    assert_eq!(
        orchestrator.resolve_weed_path(&config, &exists),
        Some("/usr/local/bin/weed".to_string())
    );
    exists[0] = false;
    assert_eq!(orchestrator.resolve_weed_path(&config, &exists), Some("/repo/tools/weed".to_string()));
    assert_eq!(orchestrator.resolve_weed_path(&config, &vec![false; 8]), None);
}

#[test]
fn on_windows_the_binary_must_carry_the_native_marker() {
    let mut orchestrator = Orchestrator::new("/repo".to_string());
    let mut probe = seaweed_probe(exited());
    probe.header = Some("<html>".bytes().collect());
    let decision = orchestrator.start_seaweed_if_enabled(&settings(true), Platform::Windows, &probe);
    assert_eq!(
        decision,
        Err(ServiceError::InvalidExecutable { path: "/repo/tools/weed".to_string() })
    );
    assert_eq!(
        orchestrator.last_seaweed_error(),
        Some(
            "SeaweedFS weed binary at /repo/tools/weed is not a valid Windows executable (missing MZ header)"
                .to_string()
        )
    );

    probe.header = None;
    let decision = orchestrator.start_seaweed_if_enabled(&settings(true), Platform::Windows, &probe);
    assert_eq!(
        decision,
        Err(ServiceError::UnreadableExecutable { path: "/repo/tools/weed".to_string() })
    );

    let decision = orchestrator.start_seaweed_if_enabled(&settings(true), Platform::Unix, &probe);
    assert!(matches!(decision, Ok(SeaweedStart::Launch(_))));
}

#[test]
fn an_enabled_object_store_needs_its_port() {
    let mut config = settings(true);
    config.seaweed_s3_port = None;
    let mut orchestrator = Orchestrator::new("/repo".to_string());
    let decision = orchestrator.start_seaweed_if_enabled(&config, Platform::Unix, &seaweed_probe(exited()));
    assert_eq!(decision, Err(ServiceError::PortNotConfigured));
    assert_eq!(orchestrator.seaweed_readiness_probe(&config), None);
    assert_eq!(
        orchestrator.seaweed_readiness_probe(&settings(true)),
        Some(PortProbe { port: 8333, timeout_ms: 120 })
    );
}

#[test]
fn a_host_failure_is_kept_as_the_last_error_until_a_start_succeeds() {
    let config = settings(true);
    let mut orchestrator = Orchestrator::new("/repo".to_string());
    orchestrator.seaweed_start_failed(&ServiceError::Host { detail: "disk full".to_string() });
    assert_eq!(orchestrator.last_seaweed_error(), Some("disk full".to_string()));

    orchestrator.seaweed_started(ProcessHandle { id: 5 });
    assert_eq!(orchestrator.last_seaweed_error(), Some("disk full".to_string()));
    assert_eq!(
        orchestrator.seaweed_readiness(&config, 0, false, ProcessPoll::Running),
        Ok(Readiness::Wait { pause_ms: 100 })
    );
    assert_eq!(orchestrator.last_seaweed_error(), Some("disk full".to_string()));
    assert_eq!(
        orchestrator.seaweed_readiness(&config, 100, true, ProcessPoll::Running),
        Ok(Readiness::Ready)
    );
    assert_eq!(orchestrator.last_seaweed_error(), None);
    assert_eq!(orchestrator.seaweed_handle(), Some(ProcessHandle { id: 5 }));
}

#[test]
fn a_child_that_exits_in_the_readiness_window_fails_the_start() {
    let config = settings(true);
    let mut orchestrator = Orchestrator::new("/repo".to_string());
    orchestrator.seaweed_started(ProcessHandle { id: 5 });
    let verdict =
        orchestrator.seaweed_readiness(&config, 300, false, ProcessPoll::Exited { code: Some(2) });
    assert_eq!(
        verdict,
        Err(ServiceError::PrematureExit {
            code: Some(2),
            log_path: "/home/u/ff/logs/seaweed.log".to_string(),
        })
    );
    assert_eq!(orchestrator.seaweed_handle(), None);
    assert_eq!(
        orchestrator.last_seaweed_error(),
        Some(
            "SeaweedFS exited immediately (exit code 2). Check logs at /home/u/ff/logs/seaweed.log"
                .to_string()
        )
    );
}

#[test]
fn an_open_port_counts_before_an_exit() {
    let config = settings(true);
    let mut orchestrator = Orchestrator::new("/repo".to_string());
    orchestrator.seaweed_started(ProcessHandle { id: 5 });
    assert_eq!(
        orchestrator.seaweed_readiness(&config, 300, true, exited()),
        Ok(Readiness::Ready)
    );
    assert_eq!(orchestrator.seaweed_handle(), Some(ProcessHandle { id: 5 }));
}

#[test]
fn the_readiness_window_ends_after_two_seconds() {
    let config = settings(true);
    let mut orchestrator = Orchestrator::new("/repo".to_string());
    orchestrator.seaweed_started(ProcessHandle { id: 5 });
    assert_eq!((READINESS_WINDOW_MS, READINESS_PAUSE_MS), (2000, 100));
    assert_eq!(
        orchestrator.seaweed_readiness(&config, 1999, false, ProcessPoll::Running),
        Ok(Readiness::Wait { pause_ms: 100 })
    );
    assert_eq!(
        orchestrator.seaweed_readiness(&config, 2000, false, exited()),
        Ok(Readiness::Unconfirmed)
    );
    assert_eq!(orchestrator.seaweed_handle(), Some(ProcessHandle { id: 5 }));
    assert_eq!(orchestrator.last_seaweed_error(), None);
}

#[test]
fn the_primary_service_prefers_a_local_interpreter() {
    let mut orchestrator = Orchestrator::new("/repo".to_string());
    let mut probe = core_probe(exited());
    probe.venv_exists = vec![false, true];
    let decision = orchestrator.start_core(&settings(true), Platform::Unix, &probe);
    let launch = match decision {
        Ok(CoreStart::Launch(launch)) => launch,
        _ => panic!("the primary service is to be launched"),
    };
    assert_eq!(launch.ports_path, "/home/u/ff/config/ports.json");
    assert_eq!(launch.ports, RuntimePorts { core: Some(43210), seaweed_s3: Some(8333) });
    assert_eq!(launch.spec.program, "/repo/.venv/bin/python");
    assert_eq!(launch.spec.working_dir, "/repo");
    assert_eq!(
        orchestrator.find_venv_python(&vec![false, true]),
        Some("/repo/.venv/bin/python".to_string())
    );
    assert_eq!(
        orchestrator.find_venv_python(&vec![true, true]),
        Some("/repo/.venv/Scripts/python.exe".to_string())
    );
    assert_eq!(orchestrator.find_venv_python(&vec![false, false]), None);
}

#[test]
fn a_missing_sidecar_fails_the_start_and_lists_the_candidates() {
    let mut orchestrator = Orchestrator::new("/repo".to_string());
    let mut probe = core_probe(exited());
    probe.sidecar_exists = vec![false; 7];
    let decision = orchestrator.start_core(&settings(false), Platform::Unix, &probe);
    let tried = vec![
        "/repo/desktop/src-tauri/binaries/faceforge-core.exe".to_string(),
        "/repo/desktop/src-tauri/binaries/faceforge-core".to_string(),
        "/opt/app/faceforge-core.exe".to_string(),
        "/opt/app/faceforge-core".to_string(),
        "/opt/app/binaries/faceforge-core.exe".to_string(),
        "/opt/app/binaries/faceforge-core".to_string(),
        "/opt/app/faceforge-core-x86_64-unknown-linux-gnu".to_string(),
    ];
    assert_eq!(
        decision,
        Err(ServiceError::BinaryNotFound { service: Service::Primary, tried: tried.clone() })
    );
    assert_eq!(orchestrator.core_handle(), None);
    assert_eq!(
        orchestrator.resolve_core_sidecar(
            &probe.exe_dir,
            &probe.exe_dir_files,
            Platform::Unix,
            &vec![false; 7]
        ),
        Err(ServiceError::BinaryNotFound { service: Service::Primary, tried })
    );
    assert_eq!(
        orchestrator.resolve_core_sidecar(
            &probe.exe_dir,
            &probe.exe_dir_files,
            Platform::Unix,
            &vec![false, false, false, true, false, false, true]
        ),
        Ok("/opt/app/faceforge-core".to_string())
    );
}

#[test]
fn a_manual_start_gives_the_restarts_back() {
    let mut orchestrator = Orchestrator::new("/repo".to_string());
    orchestrator.restart_finished(Some(ProcessHandle { id: 1 }), 10);
    orchestrator.restart_finished(Some(ProcessHandle { id: 2 }), 20);
    assert_eq!(orchestrator.restart_attempts(), 2);
    orchestrator.core_started(ProcessHandle { id: 3 }, 30);
    assert_eq!(orchestrator.restart_attempts(), 0);
    assert_eq!(orchestrator.core_handle(), Some(ProcessHandle { id: 3 }));
    assert_eq!(orchestrator.last_core_start(), Some(30));
    assert_eq!(MAX_RESTART_ATTEMPTS, 3);
}

#[test]
fn the_status_is_computed_from_fresh_polls() {
    let config = settings(true);
    let mut orchestrator = Orchestrator::new("/repo".to_string());
    orchestrator.core_started(ProcessHandle { id: 1 }, 100);
    orchestrator.seaweed_started(ProcessHandle { id: 2 });
    let status = orchestrator.status_snapshot(&config, false, ProcessPoll::Running, exited());
    assert!(status.core_running);
    assert!(!status.core_healthy);
    assert!(status.seaweed_enabled);
    assert!(!status.seaweed_running);
    assert_eq!(status.seaweed_s3_port, Some(8333));
    assert_eq!(orchestrator.seaweed_handle(), None);
    assert_eq!(orchestrator.core_handle(), Some(ProcessHandle { id: 1 }));

    let status = orchestrator.status_snapshot(&config, true, ProcessPoll::Unknown, ProcessPoll::Running);
    assert!(!status.core_running);
    assert!(status.core_healthy);
    assert!(!status.seaweed_running);
    assert_eq!(orchestrator.core_handle(), Some(ProcessHandle { id: 1 }));
}
