use faceforge_desktop::paths::{join2, join3, join4, join_path};
use faceforge_desktop::ports::ports_path;
use faceforge_desktop::settings::{core_json_path, desktop_json_path};
use faceforge_desktop::text::{
    decimal_string, ends_with, join_strings, signed_decimal_string, starts_with,
};

#[test]
fn decimal_of_zero_is_a_single_digit() {
    assert_eq!(decimal_string(0), "0");
}

#[test]
fn decimal_has_no_leading_zeros() {
    assert_eq!(decimal_string(7), "7");
    assert_eq!(decimal_string(10), "10");
    assert_eq!(decimal_string(43210), "43210");
    assert_eq!(decimal_string(1_000_000), "1000000");
}

#[test]
fn decimal_of_the_largest_number() {
    assert_eq!(decimal_string(u64::MAX), "18446744073709551615");
}

#[test]
fn signed_decimal_writes_the_sign() {
    assert_eq!(signed_decimal_string(0), "0");
    assert_eq!(signed_decimal_string(193), "193");
    assert_eq!(signed_decimal_string(-1), "-1");
    assert_eq!(signed_decimal_string(i32::MIN), "-2147483648");
    assert_eq!(signed_decimal_string(i32::MAX), "2147483647");
}

#[test]
fn join_puts_the_separator_between_neighbours_only() {
    let none: Vec<String> = vec![];
    assert_eq!(join_strings(&none, ", "), "");
    assert_eq!(join_strings(&vec!["a".to_string()], ", "), "a");
    assert_eq!(
        join_strings(&vec!["a".to_string(), "b".to_string(), "c".to_string()], "; "),
        "a; b; c"
    );
}

#[test]
fn prefix_and_suffix_tests() {
    assert!(starts_with("faceforge-core-x86_64.exe", "faceforge-core"));
    assert!(starts_with("faceforge-core", "faceforge-core"));
    assert!(!starts_with("faceforge", "faceforge-core"));
    assert!(!starts_with("xfaceforge-core", "faceforge-core"));
    assert!(starts_with("anything", ""));
    assert!(ends_with("weed.exe", ".exe"));
    assert!(!ends_with("weed.exe.bak", ".exe"));
    assert!(!ends_with("exe", ".exe"));
    assert!(ends_with("", ""));
}

#[test]
fn prefix_test_counts_characters_not_bytes() {
    assert!(starts_with("déjà-vu", "déjà"));
    assert!(ends_with("naïve.exe", "ïve.exe"));
    assert!(!starts_with("déjà-vu", "deja"));
}

#[test]
fn join_path_adds_one_slash() {
    assert_eq!(join_path("/home/u/ff", "logs"), "/home/u/ff/logs");
    assert_eq!(join_path("C:\\FaceForge", "logs"), "C:\\FaceForge/logs");
}

#[test]
fn join_path_keeps_a_trailing_slash_single() {
    assert_eq!(join_path("/home/u/ff/", "logs"), "/home/u/ff/logs");
    assert_eq!(join_path("/", "logs"), "/logs");
}

#[test]
fn join_path_of_an_empty_base_is_the_component() {
    assert_eq!(join_path("", "logs"), "logs");
}

#[test]
fn join_of_several_components() {
    assert_eq!(join2("r", "a", "b"), "r/a/b");
    assert_eq!(join3("r", "a", "b", "c"), "r/a/b/c");
    assert_eq!(join4("r", "a", "b", "c", "d"), "r/a/b/c/d");
}

#[test]
fn configuration_files_lie_in_the_config_directory() {
    assert_eq!(ports_path("/home/u/ff"), "/home/u/ff/config/ports.json");
    assert_eq!(core_json_path("/home/u/ff"), "/home/u/ff/config/core.json");
    assert_eq!(desktop_json_path("/home/u/ff"), "/home/u/ff/config/desktop.json");
}
