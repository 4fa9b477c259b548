use launcher_core::internal_types::shared::{
    VersionJson, VersionJsonLibrary, _JsonDownloadItem, _JsonJavaVersion, _VersionJsonDownloads,
    _VersionJsonLibraryDownloads, _VersionJsonLibraryDownloadsArtifact, _VersionJsonLibraryRule,
    _VersionJsonLibraryRuleOs,
};
use launcher_core::runtime::{get_command, get_join_char, get_libs};
use launcher_core::text::{join_all, same_text};
use launcher_core::types::{Launcher, Platform};

fn s(text: &str) -> String {
    text.to_string()
}

fn rule(action: &str, os: &str) -> _VersionJsonLibraryRule {
    _VersionJsonLibraryRule { action: s(action), os: _VersionJsonLibraryRuleOs { name: s(os) } }
}

fn library(name: &str, path: &str, rules: Vec<_VersionJsonLibraryRule>) -> VersionJsonLibrary {
    VersionJsonLibrary {
        name: s(name),
        downloads: _VersionJsonLibraryDownloads {
            artifact: _VersionJsonLibraryDownloadsArtifact {
                path: s(path),
                url: format!("https://libraries.example/{path}"),
            },
        },
        rules,
    }
}

fn descriptor(libraries: Vec<VersionJsonLibrary>) -> VersionJson {
    VersionJson {
        id: s("1.20.1"),
        assets: s("5"),
        asset_index: _JsonDownloadItem { url: s("https://meta.example/indexes/5.json") },
        compliance_level: 1,
        main_class: s("net.minecraft.client.main.Main"),
        minimum_launcher_version: 21,
        version_type: s("release"),
        downloads: _VersionJsonDownloads {
            client: _JsonDownloadItem { url: s("https://meta.example/client.jar") },
        },
        java_version: _JsonJavaVersion { component: s("java-runtime-gamma"), major_version: 17 },
        libraries,
    }
}

fn release() -> VersionJson {
    descriptor(vec![
        library("g:a:1", "g/a/1/a-1.jar", vec![]),
        library("g:w:1", "g/w/1/w-1.jar", vec![rule("allow", "windows")]),
        library("g:n:1:natives-linux", "g/n/1/n-1-natives-linux.jar", vec![]),
        library("g:b:2", "g/b/2/b-2.jar", vec![rule("disallow", "osx")]),
        library("g:a:1", "g/a/1/a-1.jar", vec![]),
    ])
}

#[test]
fn separator_per_platform() {
    assert_eq!(get_join_char(Platform::Linux), ":");
    assert_eq!(get_join_char(Platform::Darwin), ":");
    assert_eq!(get_join_char(Platform::Windows), ";");
}

#[test]
fn texts_are_joined_with_glue_between() {
    assert_eq!(join_all(&vec![s("a"), s("b"), s("c")], ", "), "a, b, c");
    assert_eq!(join_all(&vec![s("a")], ":"), "a");
    assert_eq!(join_all(&vec![], ":"), "");
    assert_eq!(join_all(&vec![s(""), s("")], ":"), ":");
}

#[test]
fn texts_are_compared_by_content() {
    assert!(same_text("abc", "abc"));
    assert!(!same_text("abc", "abd"));
    assert!(!same_text("abc", "ab"));
    assert!(same_text("", ""));
}

#[test]
fn classpath_on_posix_uses_colon_and_ends_with_client() {
    let cp = get_libs(&release(), "/opt/mc", Platform::Linux);
    assert_eq!(
        cp,
        "/opt/mc/libraries/g/a/1/a-1.jar:/opt/mc/libraries/g/b/2/b-2.jar:\
         /opt/mc/libraries/g/a/1/a-1.jar:/opt/mc/versions/1.20.1/1.20.1.jar"
    );
    assert!(cp.ends_with("/opt/mc/versions/1.20.1/1.20.1.jar"));
}

#[test]
fn classpath_on_windows_uses_semicolon() {
    let cp = get_libs(&release(), "/opt/mc", Platform::Windows);
    assert_eq!(
        cp,
        "/opt/mc/libraries/g/a/1/a-1.jar;/opt/mc/libraries/g/w/1/w-1.jar;\
         /opt/mc/libraries/g/b/2/b-2.jar;/opt/mc/libraries/g/a/1/a-1.jar;\
         /opt/mc/versions/1.20.1/1.20.1.jar"
    );
}

#[test]
fn classpath_has_one_segment_per_library_and_one_more() {
    let info = release();
    for (platform, sep) in [(Platform::Linux, ':'), (Platform::Darwin, ':'), (Platform::Windows, ';')] {
        let expected = info
            .libraries
            .iter()
            .filter(|l| l.check_rule_allow(platform) && !l.has_natives())
            .count()
            + 1;
        assert_eq!(get_libs(&info, "/opt/mc", platform).split(sep).count(), expected);
    }
    assert_eq!(get_libs(&info, "/opt/mc", Platform::Darwin).split(':').count(), 3);
}

#[test]
fn classpath_of_a_release_without_libraries_is_the_client() {
    assert_eq!(
        get_libs(&descriptor(vec![]), "/opt/mc", Platform::Linux),
        "/opt/mc/versions/1.20.1/1.20.1.jar"
    );
}

#[test]
fn command_for_linux() {
    let mut launcher = Launcher::new();
    launcher.set_path(".minecraft");
    let info = descriptor(vec![library("g:a:1", "g/a/1/a-1.jar", vec![])]);
    let command = get_command(&launcher, &info, "/home/u/.minecraft", Platform::Linux, "x86_64");
    assert_eq!(
        command.program,
        ".minecraft/runtime/java-runtime-gamma/linux/java-runtime-gamma/bin/java"
    );
    let expected: Vec<String> = [
        "-Xmx1G",
        "-Djava.library.path=.minecraft/versions/1.20.1/natives",
        "-cp",
        "/home/u/.minecraft/libraries/g/a/1/a-1.jar:/home/u/.minecraft/versions/1.20.1/1.20.1.jar",
        "net.minecraft.client.main.Main",
        "--username",
        "sigma_svinka",
        "--version",
        "1.20.1",
        "--gameDir",
        ".minecraft",
        "--assetsDir",
        ".minecraft/assets",
        "--assetIndex",
        "5",
        "--uuid",
        "6a9b09bb-2299-44a3-884d-e6668c6c5031",
        "--accessToken",
        "123456789123456789123456789",
        "--userType",
        "legacy",
        "--versionType",
        "release",
    ]
    .iter()
    .map(|a| a.to_string())
    .collect();
    assert_eq!(command.args, expected);
    assert_eq!(command.env_name, "DYLD_LIBRARY_PATH");
    assert_eq!(command.env_value, ".minecraft/versions/1.20.1/natives");
}

#[test]
fn command_for_windows_starts_java_exe() {
    let mut launcher = Launcher::new();
    launcher.set_path(".minecraft");
    let info = descriptor(vec![]);
    let command = get_command(&launcher, &info, "C:/mc", Platform::Windows, "x86");
    assert_eq!(
        command.program,
        ".minecraft/runtime/java-runtime-gamma/windows-x86/java-runtime-gamma/bin/java.exe"
    );
    assert_eq!(command.args[3], "C:/mc/versions/1.20.1/1.20.1.jar");
    assert_eq!(command.args.len(), 23);
}
