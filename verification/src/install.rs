//! The plans that install a release: its descriptor, its libraries, its
//! assets and its client archive.

use vstd::prelude::*;
use crate::internal_types::shared::{
    JsonAssetIndexes,
    VersionJson,
    VersionJsonLibrary,
    _JsonAssetIndexEntry,
};
use crate::layout::{
    asset_index_of,
    asset_index_path,
    asset_object_of,
    asset_object_path,
    assets_dir_of,
    client_jar_of,
    client_jar_path,
    hash_prefix,
    libraries_dir,
    libraries_dir_of,
    natives_dir,
    natives_dir_of,
    version_dir,
    version_dir_of,
    version_json_of,
    version_json_path,
};
use crate::paths::{join_path, joined, parent_of, parent_path, sep};
use crate::steps::{action_views, step_views, Action, ActionView, Step, StepView};
use crate::types::{Launcher, Platform, Version};

verus! {

/// Where the content of every asset is published.
pub const ASSETS_URL_ROOT: &'static str = "https://resources.download.minecraft.net/";

/// The steps that store the descriptor of `version`: its directory, then
/// a fresh download of the descriptor, whatever is cached.
pub open spec fn version_info_plan(version: Version, root: Seq<char>) -> Seq<StepView> {
    seq![
        StepView::CreateDirAll { path: version_dir_of(root, version.id@) },
        StepView::Fetch { url: version.url@, path: version_json_of(root, version.id@) },
    ]
}

/// The plan that fetches the descriptor of `version` into its place
/// below `minecraft_dir`.
pub fn get_version_info(version: &Version, minecraft_dir: &str) -> (r: Vec<Step>)
    ensures
        step_views(r@) == version_info_plan(*version, minecraft_dir@),
{
    let mut plan: Vec<Step> = Vec::new();
    plan.push(Step::CreateDirAll { path: version_dir(minecraft_dir, version.id.as_str()) });
    plan.push(
        Step::Fetch {
            url: version.url.clone(),
            path: version_json_path(minecraft_dir, version.id.as_str()),
        },
    );
    assert(step_views(plan@) =~= version_info_plan(*version, minecraft_dir@));
    plan
}

impl Version {
    /// The plan that fetches this release's descriptor into the
    /// installation of `launcher`.
    pub fn get_info(&self, launcher: &Launcher) -> (r: Vec<Step>)
        ensures
            step_views(r@) == version_info_plan(*self, launcher.path@),
    {
        get_version_info(self, launcher.path.as_str())
    }
}

/// What a download does, given whether its destination exists: nothing
/// where it does; where it does not, the directory that holds the
/// destination and one fetch.
pub open spec fn download_actions(url: Seq<char>, path: Seq<char>, present: bool) -> Seq<
    ActionView,
> {
    if present {
        Seq::empty()
    } else {
        seq![ActionView::CreateDirAll { path: parent_of(path) }, ActionView::Fetch { url, path }]
    }
}

/// Decides a download of `url` to `path`. `present` says whether `path`
/// exists: then nothing is fetched, however old or broken the file is.
pub fn download_file(url: &str, path: &str, present: bool) -> (r: Vec<Action>)
    ensures
        action_views(r@) == download_actions(url@, path@, present),
{
    let mut out: Vec<Action> = Vec::new();
    if !present {
        out.push(Action::CreateDirAll { path: parent_path(path) });
        out.push(Action::Fetch { url: String::from_str(url), path: String::from_str(path) });
    }
    assert(action_views(out@) =~= download_actions(url@, path@, present));
    out
}

/// Where the file of `lib` is stored.
pub open spec fn library_file_of(game_dir: Seq<char>, lib: VersionJsonLibrary) -> Seq<char> {
    joined(libraries_dir_of(game_dir), lib.downloads.artifact.path@)
}

/// The steps for one library on `platform`: nothing where its rules bar
/// it; otherwise its download, and for a native bundle the unpacking
/// into `natives`.
pub open spec fn library_plan(
    lib: VersionJsonLibrary,
    game_dir: Seq<char>,
    natives: Seq<char>,
    platform: Platform,
) -> Seq<StepView> {
    if !lib.applies(platform) {
        Seq::empty()
    } else {
        let file = library_file_of(game_dir, lib);
        let fetch = seq![StepView::Download { url: lib.downloads.artifact.url@, path: file }];
        if lib.is_native() {
            fetch + seq![StepView::Extract { archive: file, dest: natives }]
        } else {
            fetch
        }
    }
}

/// The steps for `libs`, library by library, in order.
pub open spec fn libraries_plan(
    libs: Seq<VersionJsonLibrary>,
    game_dir: Seq<char>,
    natives: Seq<char>,
    platform: Platform,
) -> Seq<StepView>
    decreases libs.len(),
{
    if libs.len() == 0 {
        Seq::empty()
    } else {
        libraries_plan(libs.drop_last(), game_dir, natives, platform) + library_plan(
            libs.last(),
            game_dir,
            natives,
            platform,
        )
    }
}

/// The plan that installs one library below `game_dir` on `platform`,
/// with `natives_dir` as the place for native code.
pub fn install_lib(lib: &VersionJsonLibrary, game_dir: &str, natives_dir: &str, platform: Platform) -> (r: Vec<Step>)
    ensures
        step_views(r@) == library_plan(*lib, game_dir@, natives_dir@, platform),
{
    let mut plan: Vec<Step> = Vec::new();
    if !lib.check_rule_allow(platform) {
        assert(step_views(plan@) =~= library_plan(*lib, game_dir@, natives_dir@, platform));
        return plan;
    }
    let current_path = libraries_dir(game_dir);
    let filename = join_path(current_path.as_str(), lib.downloads.artifact.path.as_str());
    plan.push(Step::Download { url: lib.downloads.artifact.url.clone(), path: filename.clone() });
    if lib.has_natives() {
        plan.push(Step::Extract { archive: filename, dest: String::from_str(natives_dir) });
    }
    assert(step_views(plan@) =~= library_plan(*lib, game_dir@, natives_dir@, platform));
    plan
}

/// The whole plan for the libraries of a release: the directory for
/// native code, then every library in the descriptor's order.
pub open spec fn install_libraries_plan(
    root: Seq<char>,
    info: VersionJson,
    platform: Platform,
) -> Seq<StepView> {
    seq![StepView::CreateDirAll { path: natives_dir_of(root, info.id@) }] + libraries_plan(
        info.libraries@,
        root,
        natives_dir_of(root, info.id@),
        platform,
    )
}

/// The plan that installs every library of `info` that belongs on
/// `platform`.
pub fn install_libraries(launcher: &Launcher, info: &VersionJson, platform: Platform) -> (r: Vec<
    Step,
>)
    ensures
        step_views(r@) == install_libraries_plan(launcher.path@, *info, platform),
{
    let root = launcher.path.as_str();
    let natives = natives_dir(root, info.id.as_str());
    let ghost head = seq![StepView::CreateDirAll { path: natives@ }];
    let mut plan: Vec<Step> = Vec::new();
    plan.push(Step::CreateDirAll { path: natives.clone() });
    assert(step_views(plan@) =~= head + libraries_plan(
        info.libraries@.subrange(0, 0),
        root@,
        natives@,
        platform,
    ));
    let mut i: usize = 0;
    while i < info.libraries.len()
        invariant
            i <= info.libraries@.len(),
            root@ == launcher.path@,
            natives@ == natives_dir_of(root@, info.id@),
            head == seq![StepView::CreateDirAll { path: natives@ }],
            step_views(plan@) == head + libraries_plan(
                info.libraries@.subrange(0, i as int),
                root@,
                natives@,
                platform,
            ),
        decreases info.libraries.len() - i,
    {
        let ghost before = plan@;
        let mut added = install_lib(&info.libraries[i], root, natives.as_str(), platform);
        let ghost tail = added@;
        plan.append(&mut added);
        proof {
            let next = info.libraries@.subrange(0, i + 1);
            assert(next.drop_last() =~= info.libraries@.subrange(0, i as int));
            assert(next.last() == info.libraries@[i as int]);
            assert(step_views(plan@) =~= step_views(before) + step_views(tail));
        }
        i = i + 1;
    }
    assert(info.libraries@.subrange(0, i as int) =~= info.libraries@);
    plan
}

/// The step that stores the asset index of a release: its download
/// unless it is there.
pub open spec fn asset_index_plan(root: Seq<char>, info: VersionJson) -> Seq<StepView> {
    seq![
        StepView::Download { url: info.asset_index.url@, path: asset_index_of(root, info.assets@) },
    ]
}

/// The plan that fetches the asset index of `info`.
pub fn install_asset_index(launcher: &Launcher, info: &VersionJson) -> (r: Vec<Step>)
    ensures
        step_views(r@) == asset_index_plan(launcher.path@, *info),
{
    let root = launcher.path.as_str();
    let mut plan: Vec<Step> = Vec::new();
    plan.push(
        Step::Download {
            url: info.asset_index.url.clone(),
            path: asset_index_path(root, info.assets.as_str()),
        },
    );
    assert(step_views(plan@) =~= asset_index_plan(launcher.path@, *info));
    plan
}

/// Where the content with the digest `hash` is downloaded from.
pub open spec fn asset_url_of(hash: Seq<char>) -> Seq<char> {
    ASSETS_URL_ROOT@ + seq![sep()] + hash_prefix(hash) + seq![sep()] + hash
}

/// Where the content with the digest `hash` is downloaded from.
pub fn asset_url(hash: &str) -> (r: String)
    requires
        hash@.len() >= 2,
    ensures
        r@ == asset_url_of(hash@),
{
    proof {
        reveal_strlit("/");
        assert("/"@ =~= seq![sep()]);
    }
    String::from_str(ASSETS_URL_ROOT).concat("/").concat(hash.substring_char(0, 2)).concat(
        "/",
    ).concat(hash)
}

/// The step for one asset: the download of its content to the place
/// that its digest names. The asset's name plays no part.
pub open spec fn asset_plan(root: Seq<char>, entry: _JsonAssetIndexEntry) -> Seq<StepView> {
    seq![
        StepView::Download {
            url: asset_url_of(entry.item.hash@),
            path: asset_object_of(root, entry.item.hash@),
        },
    ]
}

/// Whether `c` is a digit of a number written to the base 16.
pub open spec fn is_hex_digit(c: char) -> bool {
    ('0' <= c && c <= '9') || ('a' <= c && c <= 'f') || ('A' <= c && c <= 'F')
}

/// Whether `hash` is made of hexadecimal digits, at least two of them.
pub open spec fn is_hex_digest(hash: Seq<char>) -> bool {
    hash.len() >= 2 && forall|i: int| 0 <= i < hash.len() ==> is_hex_digit(#[trigger] hash[i])
}

/// An asset is stored by its content alone: two assets with one digest
/// have one plan, whatever their names; and a hexadecimal digest
/// `aa11bb...` is stored at `assets/objects/aa/aa11bb...` below the
/// root.
pub proof fn asset_is_stored_by_content(
    root: Seq<char>,
    a: _JsonAssetIndexEntry,
    b: _JsonAssetIndexEntry,
)
    requires
        a.item.hash@ == b.item.hash@,
        is_hex_digest(a.item.hash@),
    ensures
        asset_plan(root, a) == asset_plan(root, b),
        asset_object_of(root, a.item.hash@) == assets_dir_of(root) + "/objects/"@
            + a.item.hash@.subrange(0, 2) + "/"@ + a.item.hash@,
        root.len() == 0 ==> asset_object_of(root, a.item.hash@) == "assets/objects/"@
            + a.item.hash@.subrange(0, 2) + "/"@ + a.item.hash@,
{
    let hash = a.item.hash@;
    let prefix = hash_prefix(hash);
    reveal_strlit("assets");
    reveal_strlit("objects");
    reveal_strlit("/objects/");
    reveal_strlit("assets/objects/");
    reveal_strlit("/");
    let assets = assets_dir_of(root);
    let objects = joined(assets, "objects"@);
    let dir = joined(objects, prefix);
    assert(assets.last() == 's');
    assert(objects =~= assets + "/objects"@) by {
        reveal_strlit("/objects");
    }
    assert(objects.last() == 's');
    assert(is_hex_digit(hash[0]));
    assert(is_hex_digit(hash[1]));
    assert(prefix[0] == hash[0]);
    assert(prefix.last() == hash[1]);
    assert(dir =~= assets + "/objects/"@ + prefix);
    assert(dir.last() == hash[1]);
    assert(asset_object_of(root, hash) =~= assets + "/objects/"@ + prefix + "/"@ + hash);
    if root.len() == 0 {
        assert(assets =~= "assets"@);
        assert("assets"@ + "/objects/"@ =~= "assets/objects/"@);
    }
}

/// The steps for `objects`, asset by asset, in order.
pub open spec fn assets_plan(root: Seq<char>, objects: Seq<_JsonAssetIndexEntry>) -> Seq<StepView>
    decreases objects.len(),
{
    if objects.len() == 0 {
        Seq::empty()
    } else {
        assets_plan(root, objects.drop_last()) + asset_plan(root, objects.last())
    }
}

/// The plan that installs every asset of `index`.
pub fn install_assets(launcher: &Launcher, index: &JsonAssetIndexes) -> (r: Vec<Step>)
    requires
        index.wf(),
    ensures
        step_views(r@) == assets_plan(launcher.path@, index.objects@),
{
    let root = launcher.path.as_str();
    let mut plan: Vec<Step> = Vec::new();
    assert(step_views(plan@) =~= assets_plan(root@, index.objects@.subrange(0, 0)));
    let mut i: usize = 0;
    while i < index.objects.len()
        invariant
            i <= index.objects@.len(),
            index.wf(),
            root@ == launcher.path@,
            step_views(plan@) == assets_plan(root@, index.objects@.subrange(0, i as int)),
        decreases index.objects.len() - i,
    {
        let ghost before = step_views(plan@);
        let entry = &index.objects[i];
        let hash = entry.item.hash.as_str();
        proof {
            let next = index.objects@.subrange(0, i + 1);
            assert(next.drop_last() =~= index.objects@.subrange(0, i as int));
            assert(next.last() == index.objects@[i as int]);
            assert(crate::internal_types::shared::hash_ok(index.objects@[i as int].item.hash@));
        }
        plan.push(Step::Download { url: asset_url(hash), path: asset_object_path(root, hash) });
        assert(step_views(plan@) =~= before + asset_plan(root@, *entry));
        i = i + 1;
    }
    assert(index.objects@.subrange(0, i as int) =~= index.objects@);
    plan
}

/// The step that stores the client archive of a release: its download
/// unless it is there.
pub open spec fn client_plan(root: Seq<char>, info: VersionJson) -> Seq<StepView> {
    seq![
        StepView::Download { url: info.downloads.client.url@, path: client_jar_of(root, info.id@) },
    ]
}

/// The plan that installs the client archive of `info`.
pub fn install_client(launcher: &Launcher, info: &VersionJson) -> (r: Vec<Step>)
    ensures
        step_views(r@) == client_plan(launcher.path@, *info),
{
    let root = launcher.path.as_str();
    let mut plan: Vec<Step> = Vec::new();
    plan.push(
        Step::Download {
            url: info.downloads.client.url.clone(),
            path: client_jar_path(root, info.id.as_str()),
        },
    );
    assert(step_views(plan@) =~= client_plan(launcher.path@, *info));
    plan
}

} // verus!
