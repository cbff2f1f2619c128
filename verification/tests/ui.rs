use faceforge_desktop::orchestrator::ServiceStatus;
use faceforge_desktop::settings::{DesktopBootstrap, WizardSettings};
use faceforge_desktop::ui::{
    exit_choice, home_layout_dirs, pick_port, repo_root_from_exe, repo_root_marker, suggest_ports,
    tail_lines, ui_login_url, ui_state, ExitChoice, SuggestedPorts, UiState, PORT_SEARCH_SPAN,
    ROOT_SEARCH_DEPTH,
};

fn settings(minimize_on_exit: bool) -> WizardSettings {
    WizardSettings {
        faceforge_home: "/data/ff".to_string(),
        core_port: 8000,
        seaweed_enabled: true,
        seaweed_s3_port: Some(8333),
        seaweed_weed_path: None,
        auto_restart: true,
        minimize_on_exit,
        max_log_size_mb: 10,
    }
}

fn lines(items: &[&str]) -> Vec<String> {
    items.iter().map(|s| s.to_string()).collect()
}

#[test]
fn an_unconfigured_desktop_shows_the_defaults() {
    assert_eq!(
        ui_state(&None, &None, None, None, None, Some("/repo".to_string())),
        UiState {
            configured: false,
            faceforge_home: None,
            core_port: None,
            seaweed_enabled: false,
            seaweed_s3_port: None,
            auto_restart: false,
            minimize_on_exit: true,
            install_token: None,
            status: None,
            error: None,
            install_dir: Some("/repo".to_string()),
        }
    );
}

#[test]
fn without_settings_the_home_directory_is_that_of_the_bootstrap() {
    let bootstrap = Some(DesktopBootstrap { faceforge_home: "/boot/ff".to_string() });
    let state = ui_state(
        &bootstrap,
        &None,
        None,
        None,
        Some("Failed to read desktop settings: bad".to_string()),
        None,
    );
    assert!(state.configured);
    assert_eq!(state.faceforge_home, Some("/boot/ff".to_string()));
    assert_eq!(state.error, Some("Failed to read desktop settings: bad".to_string()));
    assert!(state.minimize_on_exit);
}

#[test]
fn with_settings_the_window_shows_them() {
    let bootstrap = Some(DesktopBootstrap { faceforge_home: "/boot/ff".to_string() });
    let status = ServiceStatus {
        core_running: true,
        core_healthy: false,
        core_url: "http://127.0.0.1:8000".to_string(),
        seaweed_enabled: true,
        seaweed_running: false,
        seaweed_s3_port: Some(8333),
        seaweed_last_error: None,
    };
    assert_eq!(
        ui_state(
            &bootstrap,
            &Some(settings(false)),
            Some("tok".to_string()),
            Some(status.clone()),
            None,
            None
        ),
        UiState {
            configured: true,
            faceforge_home: Some("/data/ff".to_string()),
            core_port: Some(8000),
            seaweed_enabled: true,
            seaweed_s3_port: Some(8333),
            auto_restart: true,
            minimize_on_exit: false,
            install_token: Some("tok".to_string()),
            status: Some(status),
            error: None,
            install_dir: None,
        }
    );
}

#[test]
fn closing_the_window_hides_it_unless_the_settings_say_otherwise() {
    assert_eq!(exit_choice(&None), ExitChoice::Hide);
    assert_eq!(exit_choice(&Some(settings(true))), ExitChoice::Hide);
    assert_eq!(exit_choice(&Some(settings(false))), ExitChoice::StopAndExit);
}

#[test]
fn the_login_page_is_on_the_loopback_address() {
    assert_eq!(ui_login_url(43210), "http://127.0.0.1:43210/ui/login");
    assert_eq!(ui_login_url(80), "http://127.0.0.1:80/ui/login");
}

#[test]
fn the_first_free_port_is_picked() {
    assert_eq!(pick_port(43210, &vec![true]), 43210);
    assert_eq!(pick_port(43210, &vec![false, false, true, true]), 43212);
    let mut free = vec![false; 200];
    free[199] = true;
    assert_eq!(pick_port(43210, &free), 43409);
    assert_eq!(pick_port(65335, &free), 65534);
}

#[test]
fn without_a_free_port_the_first_is_suggested() {
    assert_eq!(pick_port(43210, &vec![false; 200]), 43210);
    assert_eq!(pick_port(43210, &vec![]), 43210);
    let mut free = vec![false; 201];
    free[200] = true;
    assert_eq!(pick_port(43210, &free), 43210);
    assert_eq!(PORT_SEARCH_SPAN, 200);
}

#[test]
fn a_port_is_suggested_for_each_service() {
    assert_eq!(
        suggest_ports(&vec![false, true], &vec![true]),
        SuggestedPorts { core_port: 43211, seaweed_s3_port: 43211 }
    );
    assert_eq!(
        suggest_ports(&vec![], &vec![false, false, false, true]),
        SuggestedPorts { core_port: 43210, seaweed_s3_port: 43214 }
    );
}

#[test]
fn the_tail_of_a_log_is_its_last_lines() {
    let log = lines(&["a", "b", "c", "d"]);
    assert_eq!(tail_lines(&log, 2), lines(&["c", "d"]));
    assert_eq!(tail_lines(&log, 4), log);
    assert_eq!(tail_lines(&log, 9), log);
    assert_eq!(tail_lines(&log, 0), lines(&[]));
    assert_eq!(tail_lines(&lines(&[]), 3), lines(&[]));
    assert_eq!(tail_lines(&log, usize::MAX), log);
}

#[test]
fn the_install_root_is_the_nearest_marked_ancestor() {
    let ancestors = lines(&["/r/desktop/target/debug", "/r/desktop/target", "/r/desktop", "/r", "/"]);
    assert_eq!(repo_root_marker("/r"), "/r/core/src/faceforge_core");
    assert_eq!(repo_root_from_exe(&ancestors, &vec![false, false, false, true, false]), "/r");
    assert_eq!(
        repo_root_from_exe(&ancestors, &vec![false, true, false, true, false]),
        "/r/desktop/target"
    );
}

#[test]
fn without_a_marked_ancestor_the_install_root_is_the_current_directory() {
    let ancestors = lines(&["/a/b", "/a", "/"]);
    assert_eq!(repo_root_from_exe(&ancestors, &vec![false, false, false]), ".");
    assert_eq!(repo_root_from_exe(&ancestors, &vec![]), ".");
    assert_eq!(repo_root_from_exe(&lines(&[]), &vec![true]), ".");
}

#[test]
fn only_the_first_ancestors_are_tried() {
    let ancestors = lines(&["/1/2/3/4/5/6/7/8/9", "/1/2/3/4/5/6/7/8", "/1/2/3/4/5/6/7", "/1/2/3/4/5/6",
        "/1/2/3/4/5", "/1/2/3/4", "/1/2/3", "/1/2", "/1", "/"]);
    let mut marked = vec![false; 10];
    marked[8] = true;
    assert_eq!(repo_root_from_exe(&ancestors, &marked), ".");
    marked[7] = true;
    assert_eq!(repo_root_from_exe(&ancestors, &marked), "/1/2");
    assert_eq!(ROOT_SEARCH_DEPTH, 8);
}

#[test]
fn a_new_home_directory_gets_its_layout() {
    assert_eq!(home_layout_dirs("/data/ff"), lines(&["/data/ff/config", "/data/ff/tmp"]));
}
