//! Starting the installed release: the class path and the command line.

use vstd::prelude::*;
use crate::internal_types::shared::{VersionJson, VersionJsonLibrary};
use crate::jvm::{get_jvm_platform, jvm_platform_token, runtime_base};
use crate::layout::{
    assets_dir,
    assets_dir_of,
    client_jar_of,
    client_jar_path,
    libraries_dir,
    libraries_dir_of,
    natives_dir,
    natives_dir_of,
    version_dir_of,
};
use crate::paths::{is_absolute, join_path, joined, joined_stays_absolute};
use crate::text::{ends_with, glued, glued_ends_with_last, join_all, texts};
use crate::types::{Launcher, Platform};

verus! {

/// The text that separates the entries of a list of paths on
/// `platform`.
pub open spec fn join_char(platform: Platform) -> Seq<char> {
    if platform == Platform::Windows {
        ";"@
    } else {
        ":"@
    }
}

/// The text that separates the entries of a list of paths on
/// `platform`: `;` on Windows, `:` elsewhere.
pub fn get_join_char(platform: Platform) -> (r: &'static str)
    ensures
        r@ == join_char(platform),
{
    match platform {
        Platform::Windows => ";",
        _ => ":",
    }
}

/// Whether `lib` goes on the class path on `platform`: its rules admit
/// it and it is no native bundle.
pub open spec fn on_classpath(lib: VersionJsonLibrary, platform: Platform) -> bool {
    lib.applies(platform) && !lib.is_native()
}

/// The paths of those of `libs` that go on the class path, in order. A
/// library that is listed twice is listed twice here.
pub open spec fn classpath_libraries(
    libs: Seq<VersionJsonLibrary>,
    root: Seq<char>,
    platform: Platform,
) -> Seq<Seq<char>>
    decreases libs.len(),
{
    if libs.len() == 0 {
        Seq::empty()
    } else {
        let init = classpath_libraries(libs.drop_last(), root, platform);
        if on_classpath(libs.last(), platform) {
            init.push(joined(libraries_dir_of(root), libs.last().downloads.artifact.path@))
        } else {
            init
        }
    }
}

/// How many of `libs` go on the class path.
pub open spec fn classpath_count(libs: Seq<VersionJsonLibrary>, platform: Platform) -> nat
    decreases libs.len(),
{
    if libs.len() == 0 {
        0
    } else {
        classpath_count(libs.drop_last(), platform) + if on_classpath(libs.last(), platform) {
            1nat
        } else {
            0nat
        }
    }
}

/// The entries of the class path of a release: its libraries, then its
/// client archive.
pub open spec fn classpath_entries(info: VersionJson, root: Seq<char>, platform: Platform) -> Seq<
    Seq<char>,
> {
    classpath_libraries(info.libraries@, root, platform).push(client_jar_of(root, info.id@))
}

/// The class path of a release as one text.
pub open spec fn classpath(info: VersionJson, root: Seq<char>, platform: Platform) -> Seq<char> {
    glued(classpath_entries(info, root, platform), join_char(platform))
}

/// The class path of `info` installed below `minecraft_dir`, for
/// `platform`. The entries are as absolute as `minecraft_dir` is.
pub fn get_libs(info: &VersionJson, minecraft_dir: &str, platform: Platform) -> (r: String)
    ensures
        r@ == classpath(*info, minecraft_dir@, platform),
{
    let dir = libraries_dir(minecraft_dir);
    let mut libs: Vec<String> = Vec::new();
    assert(texts(libs@) =~= classpath_libraries(
        info.libraries@.subrange(0, 0),
        minecraft_dir@,
        platform,
    ));
    let mut i: usize = 0;
    while i < info.libraries.len()
        invariant
            i <= info.libraries@.len(),
            dir@ == libraries_dir_of(minecraft_dir@),
            texts(libs@) == classpath_libraries(
                info.libraries@.subrange(0, i as int),
                minecraft_dir@,
                platform,
            ),
        decreases info.libraries.len() - i,
    {
        let lib = &info.libraries[i];
        let ghost before = texts(libs@);
        proof {
            let next = info.libraries@.subrange(0, i + 1);
            assert(next.drop_last() =~= info.libraries@.subrange(0, i as int));
            assert(next.last() == info.libraries@[i as int]);
        }
        if lib.check_rule_allow(platform) && !lib.has_natives() {
            let path = join_path(dir.as_str(), lib.downloads.artifact.path.as_str());
            libs.push(path);
            assert(texts(libs@) =~= before.push(
                joined(libraries_dir_of(minecraft_dir@), lib.downloads.artifact.path@),
            ));
        }
        i = i + 1;
    }
    assert(info.libraries@.subrange(0, i as int) =~= info.libraries@);
    let ghost before = texts(libs@);
    libs.push(client_jar_path(minecraft_dir, info.id.as_str()));
    assert(texts(libs@) =~= before.push(client_jar_of(minecraft_dir@, info.id@)));
    join_all(&libs, get_join_char(platform))
}

/// The class path has one entry for each library that goes on it and
/// one more, the last, for the client archive; its text is the entries
/// with `;` between them on Windows and `:` elsewhere, and so ends with
/// the path of the client archive.
pub proof fn classpath_has_client_last(info: VersionJson, root: Seq<char>, platform: Platform)
    ensures
        classpath_entries(info, root, platform).len() == classpath_count(info.libraries@, platform)
            + 1,
        classpath_entries(info, root, platform).last() == client_jar_of(root, info.id@),
        platform == Platform::Windows ==> classpath(info, root, platform) == glued(
            classpath_entries(info, root, platform),
            seq![';'],
        ),
        platform != Platform::Windows ==> classpath(info, root, platform) == glued(
            classpath_entries(info, root, platform),
            seq![':'],
        ),
        ends_with(classpath(info, root, platform), client_jar_of(root, info.id@)),
{
    classpath_libraries_counted(info.libraries@, root, platform);
    glued_ends_with_last(classpath_entries(info, root, platform), join_char(platform));
    reveal_strlit(";");
    reveal_strlit(":");
    assert(";"@ =~= seq![';']);
    assert(":"@ =~= seq![':']);
}

/// Below an absolute root every entry of the class path is absolute.
pub proof fn classpath_is_absolute(info: VersionJson, root: Seq<char>, platform: Platform)
    requires
        is_absolute(root),
    ensures
        forall|i: int|
            0 <= i < classpath_entries(info, root, platform).len() ==> is_absolute(
                #[trigger] classpath_entries(info, root, platform)[i],
            ),
{
    classpath_libraries_are_absolute(info.libraries@, root, platform);
    joined_stays_absolute(root, "versions"@);
    joined_stays_absolute(joined(root, "versions"@), info.id@);
    joined_stays_absolute(version_dir_of(root, info.id@), info.id@ + ".jar"@);
}

/// Below an absolute root the path of every library is absolute.
pub proof fn classpath_libraries_are_absolute(
    libs: Seq<VersionJsonLibrary>,
    root: Seq<char>,
    platform: Platform,
)
    requires
        is_absolute(root),
    ensures
        forall|i: int|
            0 <= i < classpath_libraries(libs, root, platform).len() ==> is_absolute(
                #[trigger] classpath_libraries(libs, root, platform)[i],
            ),
    decreases libs.len(),
{
    if libs.len() > 0 {
        let init = classpath_libraries(libs.drop_last(), root, platform);
        let all = classpath_libraries(libs, root, platform);
        classpath_libraries_are_absolute(libs.drop_last(), root, platform);
        joined_stays_absolute(root, "libraries"@);
        joined_stays_absolute(libraries_dir_of(root), libs.last().downloads.artifact.path@);
        assert forall|i: int| 0 <= i < all.len() implies is_absolute(#[trigger] all[i]) by {
            if i < init.len() {
                assert(all[i] == init[i]);
            }
        }
    }
}

/// As many paths as libraries that go on the class path.
pub proof fn classpath_libraries_counted(
    libs: Seq<VersionJsonLibrary>,
    root: Seq<char>,
    platform: Platform,
)
    ensures
        classpath_libraries(libs, root, platform).len() == classpath_count(libs, platform),
    decreases libs.len(),
{
    if libs.len() > 0 {
        classpath_libraries_counted(libs.drop_last(), root, platform);
    }
}

/// A command line, ready to be started by the caller.
#[derive(Debug, Clone, PartialEq, Eq)]
pub struct LaunchCommand {
    /// The executable.
    pub program: String,
    /// Its arguments, in order.
    pub args: Vec<String>,
    /// The variable to set on top of the inherited environment.
    pub env_name: String,
    /// The value of that variable.
    pub env_value: String,
}

/// Where the runtime's launcher stands inside its image.
pub open spec fn java_binary(platform: Platform) -> Seq<char> {
    if platform == Platform::Windows {
        "bin/java.exe"@
    } else {
        "bin/java"@
    }
}

/// The executable of the runtime image that `info` asks for.
pub open spec fn command_program(
    root: Seq<char>,
    info: VersionJson,
    platform: Platform,
    arch: Seq<char>,
) -> Seq<char> {
    joined(
        runtime_base(root, info.java_version.component@, jvm_platform_token(platform, arch)),
        java_binary(platform),
    )
}

/// The arguments that start `info` installed below `root` with the class
/// path `class_path`: the runtime's options, the main class, and the
/// game's options as pairs of a flag and its value.
pub open spec fn command_args(root: Seq<char>, info: VersionJson, class_path: Seq<char>) -> Seq<
    Seq<char>,
> {
    seq![
        "-Xmx1G"@,
        "-Djava.library.path="@ + natives_dir_of(root, info.id@),
        "-cp"@,
        class_path,
        info.main_class@,
        "--username"@,
        "sigma_svinka"@,
        "--version"@,
        info.id@,
        "--gameDir"@,
        root,
        "--assetsDir"@,
        assets_dir_of(root),
        "--assetIndex"@,
        info.assets@,
        "--uuid"@,
        "6a9b09bb-2299-44a3-884d-e6668c6c5031"@,
        "--accessToken"@,
        "123456789123456789123456789"@,
        "--userType"@,
        "legacy"@,
        "--versionType"@,
        info.version_type@,
    ]
}

/// The command that starts `info` from the installation of `launcher`
/// on `platform` and the architecture `arch`. The class path is built
/// below `absolute_root`, the installation root as an absolute path; the
/// other paths are below the launcher's own path. The variable that the
/// command sets names the directory of the native code.
pub fn get_command(
    launcher: &Launcher,
    info: &VersionJson,
    absolute_root: &str,
    platform: Platform,
    arch: &str,
) -> (r: LaunchCommand)
    ensures
        r.program@ == command_program(launcher.path@, *info, platform, arch@),
        texts(r.args@) == command_args(
            launcher.path@,
            *info,
            classpath(*info, absolute_root@, platform),
        ),
        r.env_name@ == "DYLD_LIBRARY_PATH"@,
        r.env_value@ == natives_dir_of(launcher.path@, info.id@),
{
    let root = launcher.path.as_str();
    let id = info.id.as_str();
    let component = info.java_version.component.as_str();
    let token = get_jvm_platform(platform, arch);
    let runtime = join_path(root, "runtime");
    let by_component = join_path(runtime.as_str(), component);
    let by_platform = join_path(by_component.as_str(), token);
    let base = join_path(by_platform.as_str(), component);
    let binary = match platform {
        Platform::Windows => "bin/java.exe",
        _ => "bin/java",
    };
    let program = join_path(base.as_str(), binary);
    let natives = natives_dir(root, id);
    let libs = get_libs(info, absolute_root, platform);

    let mut args: Vec<String> = Vec::new();
    args.push(String::from_str("-Xmx1G"));
    args.push(String::from_str("-Djava.library.path=").concat(natives.as_str()));
    args.push(String::from_str("-cp"));
    args.push(libs);
    args.push(info.main_class.clone());
    args.push(String::from_str("--username"));
    args.push(String::from_str("sigma_svinka"));
    args.push(String::from_str("--version"));
    args.push(info.id.clone());
    args.push(String::from_str("--gameDir"));
    args.push(String::from_str(root));
    args.push(String::from_str("--assetsDir"));
    args.push(assets_dir(root));
    args.push(String::from_str("--assetIndex"));
    args.push(info.assets.clone());
    args.push(String::from_str("--uuid"));
    args.push(String::from_str("6a9b09bb-2299-44a3-884d-e6668c6c5031"));
    args.push(String::from_str("--accessToken"));
    args.push(String::from_str("123456789123456789123456789"));
    args.push(String::from_str("--userType"));
    args.push(String::from_str("legacy"));
    args.push(String::from_str("--versionType"));
    args.push(info.version_type.clone());
    assert(texts(args@) =~= command_args(
        launcher.path@,
        *info,
        classpath(*info, absolute_root@, platform),
    ));
    LaunchCommand {
        program,
        args,
        env_name: String::from_str("DYLD_LIBRARY_PATH"),
        env_value: natives,
    }
}

} // verus!
