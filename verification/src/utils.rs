//! The machine that the launcher runs on, as far as the installation
//! depends on it.

use vstd::prelude::*;
use crate::paths::{join_path, joined};
use crate::text::same_text;
use crate::types::{platform_named, Platform};

verus! {

/// Where the catalog of all releases is published.
pub const VERSION_MANIFEST_URL: &'static str =
    "https://launchermeta.mojang.com/mc/game/version_manifest_v2.json";

/// The platform whose name, as Rust spells it, is `os`; `None` for a
/// system that the launcher does not support.
pub fn get_platform(os: &str) -> (r: Option<Platform>)
    ensures
        r == platform_named(os@),
{
    Platform::from_name(os)
}

/// The launcher's word for a processor architecture that Rust calls
/// `target_arch`.
pub open spec fn arch_named(target_arch: Seq<char>) -> Seq<char> {
    if target_arch == "x86_64"@ {
        "x86_64"@
    } else if target_arch == "aarch64"@ {
        "aarch64"@
    } else if target_arch == "x86"@ {
        "x86"@
    } else if target_arch == "arm"@ {
        "arm64"@
    } else {
        "unknown"@
    }
}

/// The launcher's word for the processor architecture that Rust calls
/// `target_arch`.
pub fn get_arch(target_arch: &str) -> (r: &'static str)
    ensures
        r@ == arch_named(target_arch@),
{
    if same_text(target_arch, "x86_64") {
        "x86_64"
    } else if same_text(target_arch, "aarch64") {
        "aarch64"
    } else if same_text(target_arch, "x86") {
        "x86"
    } else if same_text(target_arch, "arm") {
        "arm64"
    } else {
        "unknown"
    }
}

/// The environment variable that names the directory below which the
/// game keeps its files by default.
pub fn home_variable(platform: Platform) -> (r: &'static str)
    ensures
        r@ == (if platform == Platform::Windows {
            "APP_DATA"@
        } else {
            "HOME"@
        }),
{
    match platform {
        Platform::Windows => "APP_DATA",
        _ => "HOME",
    }
}

/// The game's default directory below `home`, the value of the
/// platform's home variable.
pub open spec fn minecraft_dir_of(platform: Platform, home: Seq<char>) -> Seq<char> {
    match platform {
        Platform::Windows => joined(home, ".minecraft"@),
        Platform::Darwin => joined(
            joined(joined(home, "Library"@), "Application Support"@),
            "minecraft"@,
        ),
        Platform::Linux => joined(home, ".minecraft"@),
    }
}

/// The game's default directory on `platform`, given the value `home`
/// of the variable that `home_variable` names.
pub fn get_minecraft_dir(platform: Platform, home: &str) -> (r: String)
    ensures
        r@ == minecraft_dir_of(platform, home@),
{
    match platform {
        Platform::Windows => join_path(home, ".minecraft"),
        Platform::Darwin => {
            let library = join_path(home, "Library");
            let support = join_path(library.as_str(), "Application Support");
            join_path(support.as_str(), "minecraft")
        },
        Platform::Linux => join_path(home, ".minecraft"),
    }
}

} // verus!
