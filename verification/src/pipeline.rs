//! The installation as a whole: the plans of its stages in the order in
//! which they run, and what holds of running them again.

use vstd::prelude::*;
use crate::install::{
    asset_index_plan,
    asset_plan,
    assets_plan,
    client_plan,
    install_libraries_plan,
    libraries_plan,
    library_plan,
};
use crate::internal_types::shared::{
    JsonAssetIndexes,
    VersionJson,
    VersionJsonLibrary,
    _JsonAssetIndexEntry,
};
use crate::internal_types::shared_jvm::{JavaRuntimeFiles, _JavaRuntimeFilesEntry};
use crate::jvm::{entry_step, file_steps, link_step, link_steps, runtime_base, runtime_plan};
use crate::steps::{all_guarded, after_plan, fetches, rerun_fetches_nothing, run_plan, StepView};
use crate::types::Platform;

verus! {

/// Everything that installs a release once its descriptor is at hand:
/// the libraries, the asset index, the assets, the client archive and
/// the runtime image, in this order.
pub open spec fn installation_plan(
    root: Seq<char>,
    info: VersionJson,
    index: JsonAssetIndexes,
    token: Seq<char>,
    files: JavaRuntimeFiles,
    platform: Platform,
) -> Seq<StepView> {
    install_libraries_plan(root, info, platform) + asset_index_plan(root, info) + assets_plan(
        root,
        index.objects@,
    ) + client_plan(root, info) + runtime_plan(
        runtime_base(root, info.java_version.component@, token),
        files.files@,
    )
}

/// Two plans that skip what exists make one plan that does.
pub proof fn guarded_plans_join(a: Seq<StepView>, b: Seq<StepView>)
    requires
        all_guarded(a),
        all_guarded(b),
    ensures
        all_guarded(a + b),
{
    assert forall|i: int| 0 <= i < (a + b).len() implies !(#[trigger] (a + b)[i] is Fetch) by {
        if i < a.len() {
            assert((a + b)[i] == a[i]);
        } else {
            assert((a + b)[i] == b[i - a.len()]);
        }
    }
}

/// The plan for any libraries skips what exists.
pub proof fn libraries_plan_is_guarded(
    libs: Seq<VersionJsonLibrary>,
    game_dir: Seq<char>,
    natives: Seq<char>,
    platform: Platform,
)
    ensures
        all_guarded(libraries_plan(libs, game_dir, natives, platform)),
    decreases libs.len(),
{
    if libs.len() > 0 {
        libraries_plan_is_guarded(libs.drop_last(), game_dir, natives, platform);
        guarded_plans_join(
            libraries_plan(libs.drop_last(), game_dir, natives, platform),
            library_plan(libs.last(), game_dir, natives, platform),
        );
    }
}

/// The plan for any assets skips what exists.
pub proof fn assets_plan_is_guarded(root: Seq<char>, objects: Seq<_JsonAssetIndexEntry>)
    ensures
        all_guarded(assets_plan(root, objects)),
    decreases objects.len(),
{
    if objects.len() > 0 {
        assets_plan_is_guarded(root, objects.drop_last());
        guarded_plans_join(
            assets_plan(root, objects.drop_last()),
            asset_plan(root, objects.last()),
        );
    }
}

/// The plan for any runtime image skips what exists.
pub proof fn runtime_plan_is_guarded(base: Seq<char>, files: Seq<_JavaRuntimeFilesEntry>)
    ensures
        all_guarded(file_steps(base, files)),
        all_guarded(link_steps(base, files)),
        all_guarded(runtime_plan(base, files)),
    decreases files.len(),
{
    if files.len() > 0 {
        runtime_plan_is_guarded(base, files.drop_last());
        guarded_plans_join(file_steps(base, files.drop_last()), entry_step(base, files.last()));
        guarded_plans_join(link_steps(base, files.drop_last()), link_step(base, files.last()));
    }
    let head = seq![StepView::CreateDirAll { path: base }];
    guarded_plans_join(head, file_steps(base, files));
    guarded_plans_join(head + file_steps(base, files), link_steps(base, files));
}

/// No step of an installation fetches what is already there.
pub proof fn installation_is_guarded(
    root: Seq<char>,
    info: VersionJson,
    index: JsonAssetIndexes,
    token: Seq<char>,
    files: JavaRuntimeFiles,
    platform: Platform,
)
    ensures
        all_guarded(installation_plan(root, info, index, token, files, platform)),
{
    let natives = crate::layout::natives_dir_of(root, info.id@);
    let libs = install_libraries_plan(root, info, platform);
    let idx = asset_index_plan(root, info);
    let assets = assets_plan(root, index.objects@);
    let client = client_plan(root, info);
    let image = runtime_plan(
        runtime_base(root, info.java_version.component@, token),
        files.files@,
    );
    libraries_plan_is_guarded(info.libraries@, root, natives, platform);
    guarded_plans_join(
        seq![StepView::CreateDirAll { path: natives }],
        libraries_plan(info.libraries@, root, natives, platform),
    );
    assets_plan_is_guarded(root, index.objects@);
    runtime_plan_is_guarded(
        runtime_base(root, info.java_version.component@, token),
        files.files@,
    );
    guarded_plans_join(libs, idx);
    guarded_plans_join(libs + idx, assets);
    guarded_plans_join(libs + idx + assets, client);
    guarded_plans_join(libs + idx + assets + client, image);
}

/// Installing a release again downloads nothing: as long as everything
/// that the first installation brought into being is still there, the
/// second one performs no fetch.
pub proof fn reinstallation_fetches_nothing(
    root: Seq<char>,
    info: VersionJson,
    index: JsonAssetIndexes,
    token: Seq<char>,
    files: JavaRuntimeFiles,
    platform: Platform,
    fs: Set<Seq<char>>,
    later: Set<Seq<char>>,
)
    requires
        after_plan(
            installation_plan(root, info, index, token, files, platform),
            fs,
            platform,
        ).subset_of(later),
    ensures
        fetches(
            run_plan(installation_plan(root, info, index, token, files, platform), later, platform),
        ) == 0,
{
    installation_is_guarded(root, info, index, token, files, platform);
    rerun_fetches_nothing(
        installation_plan(root, info, index, token, files, platform),
        fs,
        later,
        platform,
    );
}

} // verus!
