use launcher_core::steps::Action;
use launcher_core::types::{Launcher, Platform, Version, VersionsList};
use launcher_core::utils::{
    get_arch, get_minecraft_dir, get_platform, home_variable, VERSION_MANIFEST_URL,
};

fn version(id: &str, url: &str) -> Version {
    Version {
        id: id.to_string(),
        version_type: "release".to_string(),
        url: url.to_string(),
    }
}

#[test]
fn platform_is_read_from_its_name() {
    assert_eq!(get_platform("linux"), Some(Platform::Linux));
    assert_eq!(get_platform("windows"), Some(Platform::Windows));
    assert_eq!(get_platform("macos"), Some(Platform::Darwin));
    assert_eq!(Platform::from_name("macos"), Some(Platform::Darwin));
}

#[test]
fn unsupported_system_is_no_platform() {
    assert_eq!(get_platform("freebsd"), None);
    assert_eq!(get_platform("osx"), None);
    assert_eq!(get_platform(""), None);
    assert_eq!(get_platform("Linux"), None);
}

#[test]
fn architecture_words() {
    assert_eq!(get_arch("x86_64"), "x86_64");
    assert_eq!(get_arch("aarch64"), "aarch64");
    assert_eq!(get_arch("x86"), "x86");
    assert_eq!(get_arch("arm"), "arm64");
    assert_eq!(get_arch("riscv64"), "unknown");
    assert_eq!(get_arch(""), "unknown");
}

#[test]
fn default_directory_per_platform() {
    assert_eq!(
        get_minecraft_dir(Platform::Linux, "/home/u"),
        "/home/u/.minecraft"
    );
    assert_eq!(
        get_minecraft_dir(Platform::Darwin, "/Users/u"),
        "/Users/u/Library/Application Support/minecraft"
    );
    assert_eq!(
        get_minecraft_dir(Platform::Windows, "C:/Users/u/AppData"),
        "C:/Users/u/AppData/.minecraft"
    );
}

#[test]
fn home_variable_per_platform() {
    assert_eq!(home_variable(Platform::Windows), "APP_DATA");
    assert_eq!(home_variable(Platform::Linux), "HOME");
    assert_eq!(home_variable(Platform::Darwin), "HOME");
}

#[test]
fn catalog_address() {
    assert_eq!(
        VERSION_MANIFEST_URL,
        "https://launchermeta.mojang.com/mc/game/version_manifest_v2.json"
    );
}

#[test]
fn new_launcher_is_rooted_in_current_directory() {
    assert_eq!(Launcher::new().path, "./");
}

#[test]
fn set_path_replaces_the_root() {
    let mut launcher = Launcher::new();
    launcher.set_path("./.minecraft");
    assert_eq!(launcher.path, "./.minecraft");
    assert_eq!(
        launcher.init_path(),
        Action::CreateDirAll { path: "./.minecraft".to_string() }
    );
}

#[test]
fn find_version_returns_the_first_match() {
    let list = VersionsList {
        versions: vec![
            version("1.21", "https://meta.example/1.21.json"),
            version("1.20.1", "https://meta.example/a.json"),
            version("1.20.1", "https://meta.example/b.json"),
        ],
    };
    let found = list.find_version("1.20.1").unwrap();
    assert_eq!(found.url, "https://meta.example/a.json");
    assert_eq!(list.find_version("1.21").unwrap().id, "1.21");
}

#[test]
fn find_version_of_absent_id_is_none() {
    let list = VersionsList { versions: vec![version("1.21", "u")] };
    assert_eq!(list.find_version("1.20.1"), None);
    assert_eq!(list.find_version("1.2"), None);
    assert_eq!(VersionsList { versions: vec![] }.find_version("1.21"), None);
}
