use faceforge_desktop::errors::ServiceError;
use faceforge_desktop::health::{
    backoff_ms, monitor_enabled, HealthVerdict, MonitorAction, BACKOFF_BASE_MS,
    FATAL_UNHEALTHY_MS, GRACE_PERIOD_MS, MONITOR_INTERVAL_MS,
};
use faceforge_desktop::orchestrator::{Orchestrator, PortProbe};
use faceforge_desktop::settings::WizardSettings;
use faceforge_desktop::supervisor::{ProcessHandle, ProcessPoll};

fn settings(auto_restart: bool) -> WizardSettings {
    WizardSettings {
        faceforge_home: "/home/u/ff".to_string(),
        core_port: 43210,
        seaweed_enabled: false,
        seaweed_s3_port: None,
        seaweed_weed_path: None,
        auto_restart,
        minimize_on_exit: true,
        max_log_size_mb: 10,
    }
}

fn exited() -> ProcessPoll {
    ProcessPoll::Exited { code: Some(1) }
}

#[test]
fn backoff_doubles_per_attempt() {
    assert_eq!(BACKOFF_BASE_MS, 500);
    assert_eq!(backoff_ms(0), 500);
    assert_eq!(backoff_ms(1), 1000);
    assert_eq!(backoff_ms(2), 2000);
}

#[test]
fn backoff_never_shrinks_and_stays_capped() {
    let mut previous = 0;
    for attempts in 0..10 {
        let delay = backoff_ms(attempts);
        assert!(delay >= previous);
        assert!(delay <= 4 * BACKOFF_BASE_MS);
        previous = delay;
    }
    assert_eq!(backoff_ms(3), 2000);
    assert_eq!(backoff_ms(u32::MAX), 2000);
}

#[test]
fn the_monitor_acts_only_when_wanted_and_allowed() {
    assert!(monitor_enabled(true, &settings(true)));
    assert!(!monitor_enabled(true, &settings(false)));
    assert!(!monitor_enabled(false, &settings(true)));
    assert!(!monitor_enabled(false, &settings(false)));
    assert_eq!(MONITOR_INTERVAL_MS, 2000);
}

#[test]
fn a_process_that_is_gone_is_restarted_after_a_growing_pause() {
    let config = settings(true);
    let mut orchestrator = Orchestrator::new("/repo".to_string());
    orchestrator.core_started(ProcessHandle { id: 1 }, 0);

    let action = orchestrator.tick_health_and_maybe_restart(&config, exited(), 5000);
    assert_eq!(action, MonitorAction::Restart { backoff_ms: 500 });
    assert_eq!(orchestrator.core_handle(), None);
    orchestrator.restart_finished(Some(ProcessHandle { id: 2 }), 5500);
    assert_eq!(orchestrator.restart_attempts(), 1);
    assert_eq!(orchestrator.core_handle(), Some(ProcessHandle { id: 2 }));
    assert_eq!(orchestrator.last_core_start(), Some(5500));

    let action = orchestrator.tick_health_and_maybe_restart(&config, exited(), 7500);
    assert_eq!(action, MonitorAction::Restart { backoff_ms: 1000 });
    orchestrator.restart_finished(Some(ProcessHandle { id: 3 }), 8500);
    assert_eq!(orchestrator.restart_attempts(), 2);

    let action = orchestrator.tick_health_and_maybe_restart(&config, exited(), 10500);
    assert_eq!(action, MonitorAction::Restart { backoff_ms: 2000 });
    orchestrator.restart_finished(Some(ProcessHandle { id: 4 }), 12500);
    assert_eq!(orchestrator.restart_attempts(), 3);
}

#[test]
fn after_three_restarts_the_monitor_gives_up_until_a_manual_start() {
    let config = settings(true);
    let mut orchestrator = Orchestrator::new("/repo".to_string());
    for id in 1..4 {
        orchestrator.restart_finished(Some(ProcessHandle { id }), 100);
    }
    assert_eq!(orchestrator.restart_attempts(), 3);

    for tick in 0..5 {
        let action = orchestrator.tick_health_and_maybe_restart(&config, exited(), 1000 + tick);
        assert_eq!(action, MonitorAction::Exhausted);
        assert_eq!(orchestrator.core_handle(), None);
        assert_eq!(orchestrator.restart_attempts(), 3);
    }
    assert_eq!(
        orchestrator.health_timeout(&config),
        ServiceError::HealthTimeout { port: 43210, attempts: 3 }
    );

    orchestrator.restart_finished(Some(ProcessHandle { id: 9 }), 2000);
    assert_eq!(orchestrator.restart_attempts(), 3);

    assert_eq!(orchestrator.stop_core(), Some(ProcessHandle { id: 9 }));
    orchestrator.core_started(ProcessHandle { id: 10 }, 3000);
    assert_eq!(orchestrator.restart_attempts(), 0);
    let action = orchestrator.tick_health_and_maybe_restart(&config, exited(), 9000);
    assert_eq!(action, MonitorAction::Restart { backoff_ms: 500 });
}

#[test]
fn a_failed_restart_leaves_the_counter_for_the_next_tick() {
    let config = settings(true);
    let mut orchestrator = Orchestrator::new("/repo".to_string());
    let action = orchestrator.tick_health_and_maybe_restart(&config, exited(), 100);
    assert_eq!(action, MonitorAction::Restart { backoff_ms: 500 });
    orchestrator.restart_finished(None, 600);
    assert_eq!(orchestrator.restart_attempts(), 0);
    assert_eq!(orchestrator.core_handle(), None);
    assert_eq!(orchestrator.last_core_start(), None);
    let action = orchestrator.tick_health_and_maybe_restart(&config, exited(), 2100);
    assert_eq!(action, MonitorAction::Restart { backoff_ms: 500 });
}

#[test]
fn a_poll_that_failed_counts_as_a_process_that_is_gone() {
    let config = settings(true);
    let mut orchestrator = Orchestrator::new("/repo".to_string());
    orchestrator.core_started(ProcessHandle { id: 1 }, 0);
    let action = orchestrator.tick_health_and_maybe_restart(&config, ProcessPoll::Unknown, 5000);
    assert_eq!(action, MonitorAction::Restart { backoff_ms: 500 });
    assert_eq!(orchestrator.core_handle(), Some(ProcessHandle { id: 1 }));
}

#[test]
fn a_young_process_is_left_alone() {
    let config = settings(true);
    let mut orchestrator = Orchestrator::new("/repo".to_string());
    orchestrator.core_started(ProcessHandle { id: 1 }, 1000);
    assert_eq!(GRACE_PERIOD_MS, 2000);
    assert_eq!(
        orchestrator.tick_health_and_maybe_restart(&config, ProcessPoll::Running, 1000),
        MonitorAction::Idle
    );
    assert_eq!(
        orchestrator.tick_health_and_maybe_restart(&config, ProcessPoll::Running, 2999),
        MonitorAction::Idle
    );
    assert_eq!(
        orchestrator.tick_health_and_maybe_restart(&config, ProcessPoll::Running, 3000),
        MonitorAction::ProbeHealth(PortProbe { port: 43210, timeout_ms: 250 })
    );
}

#[test]
fn a_clock_that_ran_backwards_counts_as_no_time_passed() {
    let config = settings(true);
    let mut orchestrator = Orchestrator::new("/repo".to_string());
    orchestrator.core_started(ProcessHandle { id: 1 }, 1000);
    assert_eq!(
        orchestrator.tick_health_and_maybe_restart(&config, ProcessPoll::Running, 10),
        MonitorAction::Idle
    );
    assert_eq!(orchestrator.health_observed(false, 10), HealthVerdict::Tolerated);
}

#[test]
fn a_healthy_probe_gives_the_restarts_back() {
    let mut orchestrator = Orchestrator::new("/repo".to_string());
    orchestrator.restart_finished(Some(ProcessHandle { id: 1 }), 0);
    orchestrator.restart_finished(Some(ProcessHandle { id: 2 }), 0);
    assert_eq!(orchestrator.restart_attempts(), 2);
    assert_eq!(orchestrator.health_observed(true, 5000), HealthVerdict::Healthy);
    assert_eq!(orchestrator.restart_attempts(), 0);
    assert_eq!(orchestrator.core_handle(), Some(ProcessHandle { id: 2 }));
}

#[test]
fn silence_is_borne_until_the_fatal_threshold() {
    let mut orchestrator = Orchestrator::new("/repo".to_string());
    orchestrator.core_started(ProcessHandle { id: 1 }, 1000);
    assert_eq!(FATAL_UNHEALTHY_MS, 10000);
    assert_eq!(orchestrator.health_observed(false, 5000), HealthVerdict::Tolerated);
    assert_eq!(orchestrator.health_observed(false, 11000), HealthVerdict::Tolerated);
    assert_eq!(orchestrator.core_handle(), Some(ProcessHandle { id: 1 }));
    assert_eq!(
        orchestrator.health_observed(false, 11001),
        HealthVerdict::ForceRestart { stop: Some(ProcessHandle { id: 1 }) }
    );
    assert_eq!(orchestrator.core_handle(), None);
}

#[test]
fn a_forced_restart_counts_one_restart_whatever_came_of_it() {
    let mut orchestrator = Orchestrator::new("/repo".to_string());
    orchestrator.core_started(ProcessHandle { id: 1 }, 1000);
    orchestrator.health_observed(false, 20000);
    orchestrator.forced_restart_finished(Some(ProcessHandle { id: 2 }), 20500);
    assert_eq!(orchestrator.core_handle(), Some(ProcessHandle { id: 2 }));
    assert_eq!(orchestrator.last_core_start(), Some(20500));
    assert_eq!(orchestrator.restart_attempts(), 1);

    orchestrator.health_observed(false, 40000);
    orchestrator.forced_restart_finished(None, 40500);
    assert_eq!(orchestrator.core_handle(), None);
    assert_eq!(orchestrator.last_core_start(), Some(40500));
    assert_eq!(orchestrator.restart_attempts(), 1);
}

#[test]
fn without_a_start_time_silence_is_borne() {
    let mut orchestrator = Orchestrator::new("/repo".to_string());
    assert_eq!(orchestrator.health_observed(false, u64::MAX), HealthVerdict::Tolerated);
    assert_eq!(
        orchestrator.tick_health_and_maybe_restart(&settings(true), ProcessPoll::Running, 0),
        MonitorAction::Restart { backoff_ms: 500 }
    );
}
