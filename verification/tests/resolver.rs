use faceforge_desktop::resolver::{
    core_sidecar_candidates, first_existing, is_native_executable, venv_python_candidates,
    weed_candidates, HEADER_PROBE_LEN,
};
use faceforge_desktop::supervisor::Platform;

#[test]
fn first_existing_is_the_least_flagged_position() {
    assert_eq!(first_existing(3, &vec![false, true, true]), Some(1));
    assert_eq!(first_existing(3, &vec![true, true, true]), Some(0));
    assert_eq!(first_existing(3, &vec![false, false, true]), Some(2));
}

#[test]
fn first_existing_finds_nothing_where_nothing_exists() {
    assert_eq!(first_existing(3, &vec![false, false, false]), None);
    assert_eq!(first_existing(0, &vec![true]), None);
}

#[test]
fn first_existing_ignores_flags_beyond_the_candidates() {
    assert_eq!(first_existing(2, &vec![false, false, true]), None);
}

#[test]
fn first_existing_takes_a_missing_flag_as_unset() {
    assert_eq!(first_existing(4, &vec![false]), None);
    assert_eq!(first_existing(4, &vec![]), None);
}

#[test]
fn venv_interpreters_are_listed_windows_layout_first() {
    assert_eq!(
        venv_python_candidates("/repo"),
        vec!["/repo/.venv/Scripts/python.exe".to_string(), "/repo/.venv/bin/python".to_string()]
    );
}

#[test]
fn sidecar_candidates_without_a_host_directory_are_the_bundled_ones() {
    let files: Vec<String> = vec![];
    assert_eq!(
        core_sidecar_candidates("/repo", &None, &files, Platform::Unix),
        vec![
            "/repo/desktop/src-tauri/binaries/faceforge-core.exe".to_string(),
            "/repo/desktop/src-tauri/binaries/faceforge-core".to_string(),
        ]
    );
}

#[test]
fn sidecar_candidates_end_with_the_scan_beside_the_host() {
    let files = vec![
        "readme.txt".to_string(),
        "faceforge-core-x86_64-unknown-linux-gnu".to_string(),
        "faceforge-desktop".to_string(),
        "faceforge-core-x86_64-pc-windows-msvc.exe".to_string(),
    ];
    assert_eq!(
        core_sidecar_candidates("/repo", &Some("/opt/app".to_string()), &files, Platform::Unix),
        vec![
            "/repo/desktop/src-tauri/binaries/faceforge-core.exe".to_string(),
            "/repo/desktop/src-tauri/binaries/faceforge-core".to_string(),
            "/opt/app/faceforge-core.exe".to_string(),
            "/opt/app/faceforge-core".to_string(),
            "/opt/app/binaries/faceforge-core.exe".to_string(),
            "/opt/app/binaries/faceforge-core".to_string(),
            "/opt/app/faceforge-core-x86_64-unknown-linux-gnu".to_string(),
            "/opt/app/faceforge-core-x86_64-pc-windows-msvc.exe".to_string(),
        ]
    );
}

#[test]
fn the_scan_on_windows_keeps_executables_only() {
    let files = vec![
        "faceforge-core-x86_64-unknown-linux-gnu".to_string(),
        "faceforge-core-x86_64-pc-windows-msvc.exe".to_string(),
        "faceforge-core.pdb".to_string(),
    ];
    let listed =
        core_sidecar_candidates("/repo", &Some("/opt/app".to_string()), &files, Platform::Windows);
    assert_eq!(listed.len(), 7);
    assert_eq!(listed[6], "/opt/app/faceforge-core-x86_64-pc-windows-msvc.exe");
}

#[test]
fn weed_candidates_without_an_explicit_path() {
    assert_eq!(
        weed_candidates("/repo", "/home/u/ff", &None),
        vec![
            "/repo/tools/weed.exe".to_string(),
            "/repo/tools/weed".to_string(),
            "/repo/desktop/src-tauri/resources/tools/weed.exe".to_string(),
            "/repo/desktop/src-tauri/resources/tools/weed".to_string(),
            "/repo/../resources/tools/weed.exe".to_string(),
            "/repo/../resources/tools/weed".to_string(),
            "/home/u/ff/tools/weed.exe".to_string(),
        ]
    );
}

#[test]
fn an_explicit_weed_path_comes_first() {
    let listed = weed_candidates("/repo", "/home/u/ff", &Some("/usr/local/bin/weed".to_string()));
    assert_eq!(listed.len(), 8);
    assert_eq!(listed[0], "/usr/local/bin/weed");
    assert_eq!(listed[1], "/repo/tools/weed.exe");
    assert_eq!(listed[7], "/home/u/ff/tools/weed.exe");
}

#[test]
fn native_executables_begin_with_the_marker() {
    assert!(is_native_executable(&vec![0x4d, 0x5a]));
    assert!(is_native_executable(&vec![0x4d, 0x5a, 0x90, 0x00]));
}

#[test]
fn other_files_are_no_native_executables() {
    assert!(!is_native_executable(&vec![]));
    assert!(!is_native_executable(&vec![0x4d]));
    assert!(!is_native_executable(&vec![0x5a, 0x4d]));
    assert!(!is_native_executable(&vec![0x7f, 0x45, 0x4c, 0x46]));
    let placeholder: Vec<u8> = "version https://git-lfs".bytes().collect();
    assert!(!is_native_executable(&placeholder));
}

#[test]
fn the_header_probe_reads_a_small_prefix() {
    assert_eq!(HEADER_PROBE_LEN, 128);
}
