use launcher_core::internal_types::shared::{
    parse_os, split_colons, VersionJsonLibrary, _VersionJsonLibraryDownloads,
    _VersionJsonLibraryDownloadsArtifact, _VersionJsonLibraryRule, _VersionJsonLibraryRuleOs,
};
use launcher_core::natives::get_natives;
use launcher_core::types::Platform;

fn rule(action: &str, os: &str) -> _VersionJsonLibraryRule {
    _VersionJsonLibraryRule {
        action: action.to_string(),
        os: _VersionJsonLibraryRuleOs { name: os.to_string() },
    }
}

fn library(name: &str, rules: Vec<_VersionJsonLibraryRule>) -> VersionJsonLibrary {
    VersionJsonLibrary {
        name: name.to_string(),
        downloads: _VersionJsonLibraryDownloads {
            artifact: _VersionJsonLibraryDownloadsArtifact {
                path: "g/a/1/a-1.jar".to_string(),
                url: "https://libraries.example/g/a/1/a-1.jar".to_string(),
            },
        },
        rules,
    }
}

#[test]
fn library_without_rules_applies_everywhere() {
    let lib = library("g:a:1", vec![]);
    assert!(lib.check_rule_allow(Platform::Linux));
    assert!(lib.check_rule_allow(Platform::Windows));
    assert!(lib.check_rule_allow(Platform::Darwin));
}

#[test]
fn allow_windows_excludes_on_other_platforms() {
    let lib = library("g:a:1", vec![rule("allow", "windows")]);
    assert!(!lib.check_rule_allow(Platform::Linux));
    assert!(!lib.check_rule_allow(Platform::Darwin));
    assert!(lib.check_rule_allow(Platform::Windows));
}

#[test]
fn disallow_windows_includes_on_other_platforms() {
    let lib = library("g:a:1", vec![rule("disallow", "windows")]);
    assert!(lib.check_rule_allow(Platform::Linux));
    assert!(lib.check_rule_allow(Platform::Darwin));
    assert!(!lib.check_rule_allow(Platform::Windows));
}

#[test]
fn osx_names_darwin() {
    assert!(rule("allow", "osx").parse_rule(Platform::Darwin));
    assert!(!rule("allow", "osx").parse_rule(Platform::Linux));
    assert!(!rule("disallow", "osx").parse_rule(Platform::Darwin));
    assert!(rule("disallow", "osx").parse_rule(Platform::Windows));
    assert!(rule("allow", "linux").parse_rule(Platform::Linux));
}

#[test]
fn unknown_system_matches_no_platform() {
    assert_eq!(parse_os("freebsd"), None);
    for platform in [Platform::Linux, Platform::Windows, Platform::Darwin] {
        assert!(!rule("allow", "freebsd").parse_rule(platform));
        assert!(rule("disallow", "freebsd").parse_rule(platform));
    }
}

#[test]
fn any_action_but_allow_bars() {
    assert!(!rule("deny", "linux").parse_rule(Platform::Linux));
    assert!(rule("deny", "linux").parse_rule(Platform::Windows));
    assert!(!rule("Allow", "linux").parse_rule(Platform::Linux));
}

#[test]
fn one_blocking_rule_is_enough() {
    let lib = library(
        "g:a:1",
        vec![rule("allow", "linux"), rule("disallow", "linux")],
    );
    assert!(!lib.check_rule_allow(Platform::Linux));
    let lib = library(
        "g:a:1",
        vec![rule("disallow", "windows"), rule("disallow", "osx")],
    );
    assert!(lib.check_rule_allow(Platform::Linux));
    assert!(!lib.check_rule_allow(Platform::Darwin));
}

#[test]
fn system_names_are_read() {
    assert_eq!(parse_os("windows"), Some(Platform::Windows));
    assert_eq!(parse_os("osx"), Some(Platform::Darwin));
    assert_eq!(parse_os("linux"), Some(Platform::Linux));
    assert_eq!(parse_os("macos"), None);
    assert_eq!(parse_os(""), None);
}

#[test]
fn name_is_cut_at_colons() {
    assert_eq!(split_colons("a:b:c"), vec!["a", "b", "c"]);
    assert_eq!(split_colons(""), vec![""]);
    assert_eq!(split_colons(":"), vec!["", ""]);
    assert_eq!(split_colons("a::b:"), vec!["a", "", "b", ""]);
    assert_eq!(split_colons("no colon"), vec!["no colon"]);
}

#[test]
fn name_of_three_parts_has_empty_classifier() {
    let lib = library("org.lwjgl:lwjgl:3.3.1", vec![]);
    assert_eq!(lib.parse_lib_name(), ["org.lwjgl", "lwjgl", "3.3.1", ""]);
    assert!(!lib.has_natives());
}

#[test]
fn name_of_four_parts_is_a_native_bundle() {
    let lib = library("org.lwjgl:lwjgl:3.3.1:natives-linux", vec![]);
    assert_eq!(
        lib.parse_lib_name(),
        ["org.lwjgl", "lwjgl", "3.3.1", "natives-linux"]
    );
    assert!(lib.has_natives());
}

#[test]
fn name_with_more_parts_keeps_the_first_four() {
    let lib = library("a:b:c:d:e", vec![]);
    assert_eq!(lib.parse_lib_name(), ["a", "b", "c", "d"]);
    let lib = library("a:b:c::e", vec![]);
    assert_eq!(lib.parse_lib_name(), ["a", "b", "c", ""]);
    assert!(!lib.has_natives());
}

#[test]
fn short_name_is_padded() {
    let lib = library("solo", vec![]);
    assert_eq!(lib.parse_lib_name(), ["solo", "", "", ""]);
    let lib = library("", vec![]);
    assert_eq!(lib.parse_lib_name(), ["", "", "", ""]);
}

#[test]
fn no_library_offers_separate_natives() {
    assert_eq!(get_natives(&library("g:a:1:natives-linux", vec![])), "");
}
