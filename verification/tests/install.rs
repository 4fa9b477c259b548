use launcher_core::install::{
    asset_url, get_version_info, install_asset_index, install_assets, install_client, install_lib,
    install_libraries, ASSETS_URL_ROOT,
};
use launcher_core::internal_types::shared::{
    JsonAssetIndexes, VersionJson, VersionJsonLibrary, _JsonAssetIndexEntry, _JsonAssetIndexItem,
    _JsonDownloadItem, _JsonJavaVersion, _VersionJsonDownloads, _VersionJsonLibraryDownloads,
    _VersionJsonLibraryDownloadsArtifact, _VersionJsonLibraryRule, _VersionJsonLibraryRuleOs,
};
use launcher_core::layout::{
    asset_dir, asset_index_path, asset_object_path, client_jar_path, natives_dir, version_json_path,
};
use launcher_core::steps::{Action, Step};
use launcher_core::types::{Launcher, Platform, Version};

fn s(text: &str) -> String {
    text.to_string()
}

fn rule(action: &str, os: &str) -> _VersionJsonLibraryRule {
    _VersionJsonLibraryRule { action: s(action), os: _VersionJsonLibraryRuleOs { name: s(os) } }
}

fn library(name: &str, path: &str, rules: Vec<_VersionJsonLibraryRule>) -> VersionJsonLibrary {
    VersionJsonLibrary {
        name: s(name),
        downloads: _VersionJsonLibraryDownloads {
            artifact: _VersionJsonLibraryDownloadsArtifact {
                path: s(path),
                url: format!("https://libraries.example/{path}"),
            },
        },
        rules,
    }
}

fn descriptor(libraries: Vec<VersionJsonLibrary>) -> VersionJson {
    VersionJson {
        id: s("1.20.1"),
        assets: s("5"),
        asset_index: _JsonDownloadItem { url: s("https://meta.example/indexes/5.json") },
        compliance_level: 1,
        main_class: s("net.minecraft.client.main.Main"),
        minimum_launcher_version: 21,
        version_type: s("release"),
        downloads: _VersionJsonDownloads {
            client: _JsonDownloadItem { url: s("https://meta.example/client.jar") },
        },
        java_version: _JsonJavaVersion { component: s("java-runtime-gamma"), major_version: 17 },
        libraries,
    }
}

fn launcher(path: &str) -> Launcher {
    let mut launcher = Launcher::new();
    launcher.set_path(path);
    launcher
}

fn asset(name: &str, hash: &str) -> _JsonAssetIndexEntry {
    _JsonAssetIndexEntry { name: s(name), item: _JsonAssetIndexItem { hash: s(hash) } }
}

const HASH: &str = "aa11bb22cc33dd44ee55ff6677889900aabbccdd";

#[test]
fn descriptor_is_always_fetched_anew() {
    let version = Version {
        id: s("1.20.1"),
        version_type: s("release"),
        url: s("https://meta.example/1.20.1.json"),
    };
    let plan = get_version_info(&version, "./.minecraft");
    assert_eq!(
        plan,
        vec![
            Step::CreateDirAll { path: s("./.minecraft/versions/1.20.1") },
            Step::Fetch {
                url: s("https://meta.example/1.20.1.json"),
                path: s("./.minecraft/versions/1.20.1/1.20.1.json"),
            },
        ]
    );
    assert_eq!(version.get_info(&launcher("./.minecraft")), plan);
    assert_eq!(
        version_json_path("./.minecraft", "1.20.1"),
        "./.minecraft/versions/1.20.1/1.20.1.json"
    );
}

#[test]
fn plain_library_is_downloaded_below_libraries() {
    let lib = library("g:a:1", "g/a/1/a-1.jar", vec![]);
    assert_eq!(
        install_lib(&lib, "root", "root/versions/1.20.1/natives", Platform::Linux),
        vec![Step::Download {
            url: s("https://libraries.example/g/a/1/a-1.jar"),
            path: s("root/libraries/g/a/1/a-1.jar"),
        }]
    );
}

#[test]
fn native_bundle_is_unpacked_after_download() {
    let lib = library("g:a:1:natives-linux", "g/a/1/a-1-natives-linux.jar", vec![]);
    assert_eq!(
        install_lib(&lib, "root", "root/versions/1.20.1/natives", Platform::Linux),
        vec![
            Step::Download {
                url: s("https://libraries.example/g/a/1/a-1-natives-linux.jar"),
                path: s("root/libraries/g/a/1/a-1-natives-linux.jar"),
            },
            Step::Extract {
                archive: s("root/libraries/g/a/1/a-1-natives-linux.jar"),
                dest: s("root/versions/1.20.1/natives"),
            },
        ]
    );
}

#[test]
fn barred_library_is_skipped() {
    let lib = library("g:a:1", "g/a/1/a-1.jar", vec![rule("allow", "windows")]);
    assert_eq!(install_lib(&lib, "root", "root/natives", Platform::Linux), vec![]);
    assert_eq!(install_lib(&lib, "root", "root/natives", Platform::Windows).len(), 1);
}

#[test]
fn libraries_are_planned_in_order() {
    let info = descriptor(vec![
        library("g:a:1", "g/a/1/a-1.jar", vec![]),
        library("g:w:1", "g/w/1/w-1.jar", vec![rule("allow", "windows")]),
        library("g:n:1:natives-linux", "g/n/1/n-1-natives-linux.jar", vec![rule("allow", "linux")]),
    ]);
    assert_eq!(
        install_libraries(&launcher("root"), &info, Platform::Linux),
        vec![
            Step::CreateDirAll { path: s("root/versions/1.20.1/natives") },
            Step::Download {
                url: s("https://libraries.example/g/a/1/a-1.jar"),
                path: s("root/libraries/g/a/1/a-1.jar"),
            },
            Step::Download {
                url: s("https://libraries.example/g/n/1/n-1-natives-linux.jar"),
                path: s("root/libraries/g/n/1/n-1-natives-linux.jar"),
            },
            Step::Extract {
                archive: s("root/libraries/g/n/1/n-1-natives-linux.jar"),
                dest: s("root/versions/1.20.1/natives"),
            },
        ]
    );
    assert_eq!(natives_dir("root", "1.20.1"), "root/versions/1.20.1/natives");
}

#[test]
fn release_without_libraries_only_makes_the_natives_directory() {
    assert_eq!(
        install_libraries(&launcher("root"), &descriptor(vec![]), Platform::Darwin),
        vec![Step::CreateDirAll { path: s("root/versions/1.20.1/natives") }]
    );
}

#[test]
fn asset_index_goes_to_indexes() {
    assert_eq!(
        install_asset_index(&launcher("root"), &descriptor(vec![])),
        vec![Step::Download {
            url: s("https://meta.example/indexes/5.json"),
            path: s("root/assets/indexes/5.json"),
        }]
    );
    assert_eq!(asset_index_path("root", "5"), "root/assets/indexes/5.json");
}

#[test]
fn asset_is_stored_under_its_hash() {
    assert_eq!(asset_dir("", HASH), "assets/objects/aa");
    assert_eq!(
        asset_object_path("", HASH),
        "assets/objects/aa/aa11bb22cc33dd44ee55ff6677889900aabbccdd"
    );
    assert_eq!(
        asset_object_path("/home/u/.minecraft", HASH),
        "/home/u/.minecraft/assets/objects/aa/aa11bb22cc33dd44ee55ff6677889900aabbccdd"
    );
}

#[test]
fn asset_address_has_prefix_and_hash() {
    assert_eq!(ASSETS_URL_ROOT, "https://resources.download.minecraft.net/");
    assert_eq!(
        asset_url(HASH),
        "https://resources.download.minecraft.net//aa/aa11bb22cc33dd44ee55ff6677889900aabbccdd"
    );
    assert_eq!(asset_url("0f"), "https://resources.download.minecraft.net//0f/0f");
}

#[test]
fn asset_name_plays_no_part() {
    let one = JsonAssetIndexes { objects: vec![asset("icons/icon_16x16.png", HASH)] };
    let other = JsonAssetIndexes { objects: vec![asset("minecraft/sounds/ambient/cave1.ogg", HASH)] };
    let root = launcher("root");
    assert!(one.is_well_formed());
    assert_eq!(install_assets(&root, &one), install_assets(&root, &other));
    assert_eq!(
        install_assets(&root, &one),
        vec![Step::Download {
            url: format!("https://resources.download.minecraft.net//aa/{HASH}"),
            path: format!("root/assets/objects/aa/{HASH}"),
        }]
    );
    assert_eq!(
        install_assets(&root, &one)[0].actions(false, Platform::Linux)[0],
        Action::CreateDirAll { path: s("root/assets/objects/aa") }
    );
}

#[test]
fn assets_are_planned_in_order_and_repeated() {
    let index = JsonAssetIndexes {
        objects: vec![asset("a", "0123"), asset("b", "ff00"), asset("c", "0123")],
    };
    let plan = install_assets(&launcher("r"), &index);
    assert_eq!(plan.len(), 3);
    assert_eq!(
        plan[0],
        Step::Download {
            url: s("https://resources.download.minecraft.net//01/0123"),
            path: s("r/assets/objects/01/0123"),
        }
    );
    assert_eq!(
        plan[1],
        Step::Download {
            url: s("https://resources.download.minecraft.net//ff/ff00"),
            path: s("r/assets/objects/ff/ff00"),
        }
    );
    assert_eq!(plan[2], plan[0]);
    assert_eq!(install_assets(&launcher("r"), &JsonAssetIndexes { objects: vec![] }), vec![]);
}

#[test]
fn index_with_short_hash_is_not_well_formed() {
    assert!(!JsonAssetIndexes { objects: vec![asset("a", "0123"), asset("b", "f")] }.is_well_formed());
    assert!(!JsonAssetIndexes { objects: vec![asset("a", "")] }.is_well_formed());
    assert!(JsonAssetIndexes { objects: vec![asset("a", "ab")] }.is_well_formed());
    assert!(JsonAssetIndexes { objects: vec![] }.is_well_formed());
}

#[test]
fn client_archive_goes_beside_the_descriptor() {
    assert_eq!(
        install_client(&launcher("./.minecraft"), &descriptor(vec![])),
        vec![Step::Download {
            url: s("https://meta.example/client.jar"),
            path: s("./.minecraft/versions/1.20.1/1.20.1.jar"),
        }]
    );
    assert_eq!(
        client_jar_path("./.minecraft", "1.20.1"),
        "./.minecraft/versions/1.20.1/1.20.1.jar"
    );
}
