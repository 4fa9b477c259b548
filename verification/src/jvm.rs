//! Installing the runtime image that a release runs on: which image
//! serves the platform, and what has to be done for each of its files.

use vstd::prelude::*;
use crate::internal_types::shared::VersionJson;
use crate::internal_types::shared_jvm::{
    ItemKind,
    JavaRuntimeFiles,
    JavaRuntimesManifest,
    _JavaRuntimeFilesEntry,
    _JavaRuntimesManifestComponent,
    _JavaRuntimesManifestPlatform,
};
use crate::paths::{join_path, joined};
use crate::steps::{
    after_plan,
    plan_of_links_fetches_nothing,
    plan_without_links_copies_nothing,
    run_plan,
    run_plan_splits,
    step_views,
    Step,
    StepView,
};
use crate::text::{first_index, first_index_step, same_text, texts};
use crate::types::{Error, Launcher, Platform};

verus! {

/// Where the list of all runtime images is published.
pub const JVM_MANIFEST_URL: &'static str =
    "https://launchermeta.mojang.com/v1/products/java-runtime/2ec0cc96c44e5a76b9c8b7c39df7210883d12871/all.json";

/// The token under which runtime images are listed for a platform and a
/// processor architecture.
pub open spec fn jvm_platform_token(platform: Platform, arch: Seq<char>) -> Seq<char> {
    match platform {
        Platform::Windows => if arch == "x86"@ {
            "windows-x86"@
        } else {
            "windows-x64"@
        },
        Platform::Linux => if arch == "x86"@ {
            "linux-i386"@
        } else {
            "linux"@
        },
        Platform::Darwin => if arch == "aarch64"@ {
            "mac-os-arm64"@
        } else {
            "mac-os"@
        },
    }
}

/// The token under which runtime images are listed for `platform` on the
/// architecture `arch`.
pub fn get_jvm_platform(platform: Platform, arch: &str) -> (r: &'static str)
    ensures
        r@ == jvm_platform_token(platform, arch@),
{
    match platform {
        Platform::Windows => {
            if same_text(arch, "x86") {
                "windows-x86"
            } else {
                "windows-x64"
            }
        },
        Platform::Linux => {
            if same_text(arch, "x86") {
                "linux-i386"
            } else {
                "linux"
            }
        },
        Platform::Darwin => {
            if same_text(arch, "aarch64") {
                "mac-os-arm64"
            } else {
                "mac-os"
            }
        },
    }
}

/// The platform tokens of `platforms`, in order.
pub open spec fn platform_names(platforms: Seq<_JavaRuntimesManifestPlatform>) -> Seq<Seq<char>> {
    Seq::new(platforms.len(), |i: int| platforms[i].name@)
}

/// The component names of `components`, in order.
pub open spec fn component_names(components: Seq<_JavaRuntimesManifestComponent>) -> Seq<
    Seq<char>,
> {
    Seq::new(components.len(), |i: int| components[i].name@)
}

impl JavaRuntimesManifest {
    /// The components listed for `token`: those of the first platform of
    /// that name, none where no platform has it.
    pub open spec fn components_for(&self, token: Seq<char>) -> Seq<
        _JavaRuntimesManifestComponent,
    > {
        let i = first_index(platform_names(self.platforms@), token);
        if i < self.platforms@.len() {
            self.platforms@[i].components@
        } else {
            Seq::empty()
        }
    }

    /// Where the files of the image for `token` and `component` are
    /// listed: the first image of the first component of that name, or
    /// `None` where the platform, the component or an image is missing.
    pub open spec fn image_url(&self, token: Seq<char>, component: Seq<char>) -> Option<
        Seq<char>,
    > {
        let components = self.components_for(token);
        let j = first_index(component_names(components), component);
        if j < components.len() && components[j].items@.len() > 0 {
            Some(components[j].items@[0].manifest.url@)
        } else {
            None
        }
    }

    /// The components listed for `token`.
    pub fn components(&self, token: &str) -> (r: &[_JavaRuntimesManifestComponent])
        ensures
            r@ == self.components_for(token@),
    {
        let ghost keys = platform_names(self.platforms@);
        let mut i: usize = 0;
        assert(keys.subrange(0, keys.len() as int) =~= keys);
        while i < self.platforms.len()
            invariant
                i <= self.platforms@.len(),
                keys == platform_names(self.platforms@),
                first_index(keys, token@) == i + first_index(
                    keys.subrange(i as int, keys.len() as int),
                    token@,
                ),
            decreases self.platforms.len() - i,
        {
            proof {
                first_index_step(keys, token@, i as int);
            }
            if same_text(self.platforms[i].name.as_str(), token) {
                return self.platforms[i].components.as_slice();
            }
            i = i + 1;
        }
        &[]
    }
}

/// The names of the components that `manifest_data` lists for `token`,
/// in the order of the list.
pub fn get_jvm_runtimes(manifest_data: &JavaRuntimesManifest, token: &str) -> (r: Vec<String>)
    ensures
        texts(r@) == component_names(manifest_data.components_for(token@)),
{
    let list = manifest_data.components(token);
    let mut jvm_list: Vec<String> = Vec::new();
    let mut i: usize = 0;
    while i < list.len()
        invariant
            i <= list@.len(),
            texts(jvm_list@) == component_names(list@).subrange(0, i as int),
        decreases list.len() - i,
    {
        let ghost before = texts(jvm_list@);
        jvm_list.push(list[i].name.clone());
        assert(texts(jvm_list@) =~= before.push(list@[i as int].name@));
        assert(texts(jvm_list@) =~= component_names(list@).subrange(0, i + 1));
        i = i + 1;
    }
    assert(component_names(list@).subrange(0, i as int) =~= component_names(list@));
    jvm_list
}

/// Where the files of the image for `token` and `component` are listed.
/// Without such an image the installation cannot go on.
pub fn runtime_manifest_url<'a>(
    manifest_data: &'a JavaRuntimesManifest,
    token: &str,
    component: &str,
) -> (r: Result<&'a str, Error>)
    ensures
        match r {
            Ok(url) => manifest_data.image_url(token@, component@) == Some(url@),
            Err(e) => manifest_data.image_url(token@, component@).is_none()
                && e is RuntimeNotFound,
        },
{
    let list = manifest_data.components(token);
    let ghost keys = component_names(list@);
    let mut j: usize = 0;
    assert(keys.subrange(0, keys.len() as int) =~= keys);
    while j < list.len()
        invariant
            j <= list@.len(),
            list@ == manifest_data.components_for(token@),
            keys == component_names(list@),
            first_index(keys, component@) == j + first_index(
                keys.subrange(j as int, keys.len() as int),
                component@,
            ),
        decreases list.len() - j,
    {
        proof {
            first_index_step(keys, component@, j as int);
        }
        if same_text(list[j].name.as_str(), component) {
            if list[j].items.len() > 0 {
                return Ok(list[j].items[0].manifest.url.as_str());
            } else {
                return Err(Error::RuntimeNotFound);
            }
        }
        j = j + 1;
    }
    Err(Error::RuntimeNotFound)
}

/// The directory that holds the image of `component` for `token`.
pub open spec fn runtime_base(root: Seq<char>, component: Seq<char>, token: Seq<char>) -> Seq<
    char,
> {
    joined(joined(joined(joined(root, "runtime"@), component), token), component)
}

/// What a plain file or a directory of the image asks for; nothing for
/// any other entry.
pub open spec fn entry_step(base: Seq<char>, entry: _JavaRuntimeFilesEntry) -> Seq<StepView> {
    match entry.item.kind_spec() {
        ItemKind::File => seq![
            StepView::RuntimeFile {
                url: entry.item.downloads.unwrap().raw.url@,
                path: joined(base, entry.path@),
            },
        ],
        ItemKind::Directory => seq![StepView::RuntimeDirectory { path: joined(base, entry.path@) }],
        _ => Seq::empty(),
    }
}

/// What a link of the image asks for; nothing for any other entry.
pub open spec fn link_step(base: Seq<char>, entry: _JavaRuntimeFilesEntry) -> Seq<StepView> {
    match entry.item.kind_spec() {
        ItemKind::Link => seq![
            StepView::RuntimeLink { target: entry.item.target@, path: joined(base, entry.path@) },
        ],
        _ => Seq::empty(),
    }
}

/// The steps for the plain files and directories of `files`, in order.
pub open spec fn file_steps(base: Seq<char>, files: Seq<_JavaRuntimeFilesEntry>) -> Seq<StepView>
    decreases files.len(),
{
    if files.len() == 0 {
        Seq::empty()
    } else {
        file_steps(base, files.drop_last()) + entry_step(base, files.last())
    }
}

/// The steps for the links of `files`, in order.
pub open spec fn link_steps(base: Seq<char>, files: Seq<_JavaRuntimeFilesEntry>) -> Seq<StepView>
    decreases files.len(),
{
    if files.len() == 0 {
        Seq::empty()
    } else {
        link_steps(base, files.drop_last()) + link_step(base, files.last())
    }
}

/// The whole plan for an image: its directory, then every plain file and
/// directory, then every link.
pub open spec fn runtime_plan(base: Seq<char>, files: Seq<_JavaRuntimeFilesEntry>) -> Seq<
    StepView,
> {
    seq![StepView::CreateDirAll { path: base }] + file_steps(base, files) + link_steps(base, files)
}

/// No step for a plain file or a directory is a link.
pub proof fn file_steps_hold_no_link(base: Seq<char>, files: Seq<_JavaRuntimeFilesEntry>)
    ensures
        forall|i: int|
            0 <= i < file_steps(base, files).len() ==> !(#[trigger] file_steps(
                base,
                files,
            )[i] is RuntimeLink),
    decreases files.len(),
{
    if files.len() > 0 {
        file_steps_hold_no_link(base, files.drop_last());
    }
}

/// Every step for a link is a link.
pub proof fn link_steps_hold_only_links(base: Seq<char>, files: Seq<_JavaRuntimeFilesEntry>)
    ensures
        forall|i: int|
            0 <= i < link_steps(base, files).len() ==> #[trigger] link_steps(
                base,
                files,
            )[i] is RuntimeLink,
    decreases files.len(),
{
    if files.len() > 0 {
        link_steps_hold_only_links(base, files.drop_last());
    }
}

/// In the plan for an image every link comes after every step that is
/// not a link: when a link is copied, all plain files and directories of
/// the image have had their turn.
pub proof fn links_come_last(base: Seq<char>, files: Seq<_JavaRuntimeFilesEntry>)
    ensures
        forall|i: int, j: int|
            0 <= i < j < runtime_plan(base, files).len() && runtime_plan(
                base,
                files,
            )[i] is RuntimeLink ==> runtime_plan(base, files)[j] is RuntimeLink,
{
    file_steps_hold_no_link(base, files);
    link_steps_hold_only_links(base, files);
    let plan = runtime_plan(base, files);
    let head = file_steps(base, files);
    let tail = link_steps(base, files);
    assert forall|i: int, j: int| 0 <= i < j < plan.len() && plan[i] is RuntimeLink implies plan[j] is RuntimeLink by {
        if i >= 1 && i < 1 + head.len() {
            assert(plan[i] == head[i - 1]);
        }
        assert(i >= 1 + head.len());
        assert(plan[j] == tail[j - 1 - head.len()]);
    }
}

/// Whatever exists when the plan for an image runs, no file is fetched
/// after a link has been copied: every copy comes after every fetch.
pub proof fn copies_follow_fetches(
    base: Seq<char>,
    files: Seq<_JavaRuntimeFilesEntry>,
    fs: Set<Seq<char>>,
    platform: Platform,
)
    ensures
        forall|i: int, j: int|
            0 <= i < j < run_plan(runtime_plan(base, files), fs, platform).len() && run_plan(
                runtime_plan(base, files),
                fs,
                platform,
            )[i] is Copy ==> !(run_plan(runtime_plan(base, files), fs, platform)[j] is Fetch),
{
    let head = seq![StepView::CreateDirAll { path: base }] + file_steps(base, files);
    let tail = link_steps(base, files);
    file_steps_hold_no_link(base, files);
    link_steps_hold_only_links(base, files);
    assert forall|i: int| 0 <= i < head.len() implies !(#[trigger] head[i] is RuntimeLink) by {
        if i >= 1 {
            assert(head[i] == file_steps(base, files)[i - 1]);
        }
    }
    let then = after_plan(head, fs, platform);
    run_plan_splits(head, tail, fs, platform);
    plan_without_links_copies_nothing(head, fs, platform);
    plan_of_links_fetches_nothing(tail, then, platform);
    let first = run_plan(head, fs, platform);
    let second = run_plan(tail, then, platform);
    let all = run_plan(runtime_plan(base, files), fs, platform);
    assert(all == first + second);
    assert forall|i: int, j: int| 0 <= i < j < all.len() && all[i] is Copy implies !(all[j] is Fetch) by {
        if i < first.len() {
            assert(all[i] == first[i]);
        }
        assert(all[j] == second[j - first.len()]);
    }
}

/// The plan that installs the runtime image of `info` for the platform
/// token `token`, given the list `files` of the image's files.
pub fn install_jvm_runtime(
    launcher: &Launcher,
    info: &VersionJson,
    token: &str,
    files: &JavaRuntimeFiles,
) -> (r: Vec<Step>)
    requires
        files.wf(),
    ensures
        step_views(r@) == runtime_plan(
            runtime_base(launcher.path@, info.java_version.component@, token@),
            files.files@,
        ),
        forall|i: int, j: int|
            0 <= i < j < r@.len() && r@[i] is RuntimeLink ==> r@[j] is RuntimeLink,
{
    let component = info.java_version.component.as_str();
    let runtime = join_path(launcher.path.as_str(), "runtime");
    let by_component = join_path(runtime.as_str(), component);
    let by_platform = join_path(by_component.as_str(), token);
    let base_path = join_path(by_platform.as_str(), component);
    let ghost base = base_path@;
    let ghost entries = files.files@;

    let mut plan: Vec<Step> = Vec::new();
    plan.push(Step::CreateDirAll { path: base_path.clone() });
    assert(step_views(plan@) =~= seq![StepView::CreateDirAll { path: base }] + file_steps(
        base,
        entries.subrange(0, 0),
    ));

    let mut i: usize = 0;
    while i < files.files.len()
        invariant
            i <= entries.len(),
            entries == files.files@,
            files.wf(),
            base == base_path@,
            step_views(plan@) == seq![StepView::CreateDirAll { path: base }] + file_steps(
                base,
                entries.subrange(0, i as int),
            ),
        decreases files.files.len() - i,
    {
        let entry = &files.files[i];
        let ghost before = step_views(plan@);
        proof {
            let next = entries.subrange(0, i + 1);
            assert(next.drop_last() =~= entries.subrange(0, i as int));
            assert(next.last() == entries[i as int]);
            assert(entries[i as int].item.wf());
        }
        match entry.item.kind() {
            ItemKind::File => {
                let url = match &entry.item.downloads {
                    Some(d) => d.raw.url.clone(),
                    None => String::new(),
                };
                plan.push(Step::RuntimeFile { url, path: join_path(base_path.as_str(), entry.path.as_str()) });
                assert(step_views(plan@) =~= before + entry_step(base, *entry));
            },
            ItemKind::Directory => {
                plan.push(
                    Step::RuntimeDirectory {
                        path: join_path(base_path.as_str(), entry.path.as_str()),
                    },
                );
                assert(step_views(plan@) =~= before + entry_step(base, *entry));
            },
            _ => {
                assert(step_views(plan@) =~= before + entry_step(base, *entry));
            },
        }
        i = i + 1;
    }
    assert(entries.subrange(0, i as int) =~= entries);
    let ghost head = step_views(plan@);
    assert(head =~= head + link_steps(base, entries.subrange(0, 0)));

    let mut k: usize = 0;
    while k < files.files.len()
        invariant
            k <= entries.len(),
            entries == files.files@,
            base == base_path@,
            step_views(plan@) == head + link_steps(base, entries.subrange(0, k as int)),
        decreases files.files.len() - k,
    {
        let entry = &files.files[k];
        let ghost before = step_views(plan@);
        proof {
            let next = entries.subrange(0, k + 1);
            assert(next.drop_last() =~= entries.subrange(0, k as int));
            assert(next.last() == entries[k as int]);
        }
        match entry.item.kind() {
            ItemKind::Link => {
                plan.push(
                    Step::RuntimeLink {
                        target: entry.item.target.clone(),
                        path: join_path(base_path.as_str(), entry.path.as_str()),
                    },
                );
                assert(step_views(plan@) =~= before + link_step(base, *entry));
            },
            _ => {
                assert(step_views(plan@) =~= before + link_step(base, *entry));
            },
        }
        k = k + 1;
    }
    assert(entries.subrange(0, k as int) =~= entries);
    proof {
        links_come_last(base, entries);
        let views = step_views(plan@);
        assert forall|i: int, j: int|
            0 <= i < j < plan@.len() && plan@[i] is RuntimeLink implies plan@[j] is RuntimeLink by {
            assert(views[i] == plan@[i]@);
            assert(views[j] == plan@[j]@);
            assert(views[i] is RuntimeLink);
        }
    }
    plan
}

} // verus!
