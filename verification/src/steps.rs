//! What an installation asks of its caller. A plan is a list of steps;
//! a step, together with the answer to "is its target already there?",
//! gives the actions to perform on the file system and the network.

use vstd::prelude::*;
use crate::paths::{join_path, joined, parent_of, parent_path};
use crate::types::Platform;

verus! {

/// One effect on the file system or the network, performed by the caller.
#[derive(Debug, Clone, PartialEq, Eq)]
pub enum Action {
    /// Create the directory and every missing ancestor of it.
    CreateDirAll { path: String },
    /// Fetch `url` and write the whole response body to `path`.
    Fetch { url: String, path: String },
    /// Set the executable permission of `path`.
    MakeExecutable { path: String },
    /// Unpack the archive stored at `archive` below the directory `dest`.
    Extract { archive: String, dest: String },
    /// Copy the bytes stored at `from` to `to`.
    Copy { from: String, to: String },
    /// Write `data` to `path`, replacing what is there.
    WriteFile { path: String, data: Vec<u8> },
}

/// An [`Action`] with its texts and bytes as sequences.
pub enum ActionView {
    CreateDirAll { path: Seq<char> },
    Fetch { url: Seq<char>, path: Seq<char> },
    MakeExecutable { path: Seq<char> },
    Extract { archive: Seq<char>, dest: Seq<char> },
    Copy { from: Seq<char>, to: Seq<char> },
    WriteFile { path: Seq<char>, data: Seq<u8> },
}

impl View for Action {
    type V = ActionView;

    open spec fn view(&self) -> ActionView {
        match *self {
            Action::CreateDirAll { path } => ActionView::CreateDirAll { path: path@ },
            Action::Fetch { url, path } => ActionView::Fetch { url: url@, path: path@ },
            Action::MakeExecutable { path } => ActionView::MakeExecutable { path: path@ },
            Action::Extract { archive, dest } => ActionView::Extract {
                archive: archive@,
                dest: dest@,
            },
            Action::Copy { from, to } => ActionView::Copy { from: from@, to: to@ },
            Action::WriteFile { path, data } => ActionView::WriteFile { path: path@, data: data@ },
        }
    }
}

/// One entry of a plan. Where a step has a guard, the caller looks whether
/// that path exists just before the step, and the step does nothing if it
/// does.
#[derive(Debug, Clone, PartialEq, Eq)]
pub enum Step {
    /// Create a directory with its ancestors, whatever is there.
    CreateDirAll { path: String },
    /// Download `url` to `path` unless `path` exists: create the
    /// directory that holds `path`, then fetch.
    Download { url: String, path: String },
    /// Download `url` to `path`, replacing what is there.
    Fetch { url: String, path: String },
    /// Unpack the archive at `archive` below `dest`, whatever is there.
    Extract { archive: String, dest: String },
    /// A plain file of a runtime image: unless `path` exists, create its
    /// directory, download it and mark it executable.
    RuntimeFile { url: String, path: String },
    /// A directory of a runtime image: create it unless it exists.
    RuntimeDirectory { path: String },
    /// A link of a runtime image: unless `path` exists, copy onto it the
    /// file that `target` names, read from the directory that holds `path`.
    RuntimeLink { target: String, path: String },
}

/// A [`Step`] with its texts as sequences.
pub enum StepView {
    CreateDirAll { path: Seq<char> },
    Download { url: Seq<char>, path: Seq<char> },
    Fetch { url: Seq<char>, path: Seq<char> },
    Extract { archive: Seq<char>, dest: Seq<char> },
    RuntimeFile { url: Seq<char>, path: Seq<char> },
    RuntimeDirectory { path: Seq<char> },
    RuntimeLink { target: Seq<char>, path: Seq<char> },
}

impl View for Step {
    type V = StepView;

    open spec fn view(&self) -> StepView {
        match *self {
            Step::CreateDirAll { path } => StepView::CreateDirAll { path: path@ },
            Step::Download { url, path } => StepView::Download { url: url@, path: path@ },
            Step::Fetch { url, path } => StepView::Fetch { url: url@, path: path@ },
            Step::Extract { archive, dest } => StepView::Extract { archive: archive@, dest: dest@ },
            Step::RuntimeFile { url, path } => StepView::RuntimeFile { url: url@, path: path@ },
            Step::RuntimeDirectory { path } => StepView::RuntimeDirectory { path: path@ },
            Step::RuntimeLink { target, path } => StepView::RuntimeLink {
                target: target@,
                path: path@,
            },
        }
    }
}

/// The views of the actions of `v`, in order.
pub open spec fn action_views(v: Seq<Action>) -> Seq<ActionView> {
    Seq::new(v.len(), |i: int| v[i]@)
}

/// The views of the steps of `v`, in order.
pub open spec fn step_views(v: Seq<Step>) -> Seq<StepView> {
    Seq::new(v.len(), |i: int| v[i]@)
}

/// Whether files carry an executable permission on `platform`.
pub open spec fn has_executable_bit(platform: Platform) -> bool {
    platform != Platform::Windows
}

/// What marking `path` executable takes on `platform`: one action where
/// files carry the permission, nothing where they do not.
pub open spec fn executable_actions(path: Seq<char>, platform: Platform) -> Seq<ActionView> {
    if has_executable_bit(platform) {
        seq![ActionView::MakeExecutable { path }]
    } else {
        Seq::empty()
    }
}

impl StepView {
    /// The path whose presence decides whether the step does anything.
    pub open spec fn guard(self) -> Option<Seq<char>> {
        match self {
            StepView::CreateDirAll { .. } => None,
            StepView::Download { path, .. } => Some(path),
            StepView::Fetch { .. } => None,
            StepView::Extract { .. } => None,
            StepView::RuntimeFile { path, .. } => Some(path),
            StepView::RuntimeDirectory { path } => Some(path),
            StepView::RuntimeLink { path, .. } => Some(path),
        }
    }

    /// The actions of the step, given whether its guard exists. A step
    /// without a guard ignores `present`.
    pub open spec fn actions(self, present: bool, platform: Platform) -> Seq<ActionView> {
        match self {
            StepView::CreateDirAll { path } => seq![ActionView::CreateDirAll { path }],
            StepView::Extract { archive, dest } => seq![ActionView::Extract { archive, dest }],
            StepView::Fetch { url, path } => seq![ActionView::Fetch { url, path }],
            StepView::Download { url, path } => if present {
                Seq::empty()
            } else {
                seq![
                    ActionView::CreateDirAll { path: parent_of(path) },
                    ActionView::Fetch { url, path },
                ]
            },
            StepView::RuntimeFile { url, path } => if present {
                Seq::empty()
            } else {
                seq![
                    ActionView::CreateDirAll { path: parent_of(path) },
                    ActionView::Fetch { url, path },
                ] + executable_actions(path, platform)
            },
            StepView::RuntimeDirectory { path } => if present {
                Seq::empty()
            } else {
                seq![ActionView::CreateDirAll { path }]
            },
            StepView::RuntimeLink { target, path } => if present {
                Seq::empty()
            } else {
                seq![
                    ActionView::CreateDirAll { path: parent_of(path) },
                    ActionView::Copy { from: joined(parent_of(path), target), to: path },
                ]
            },
        }
    }
}

/// The path that an action brings into being, if it does.
pub open spec fn written(action: ActionView) -> Option<Seq<char>> {
    match action {
        ActionView::CreateDirAll { path } => Some(path),
        ActionView::Fetch { path, .. } => Some(path),
        ActionView::Copy { to, .. } => Some(to),
        ActionView::WriteFile { path, .. } => Some(path),
        ActionView::MakeExecutable { .. } => None,
        ActionView::Extract { .. } => None,
    }
}

/// The paths that `actions` bring into being.
pub open spec fn written_all(actions: Seq<ActionView>) -> Set<Seq<char>> {
    Set::new(
        |p: Seq<char>| exists|k: int| 0 <= k < actions.len() && written(#[trigger] actions[k]) == Some(p),
    )
}

/// How many of `actions` fetch something.
pub open spec fn fetches(actions: Seq<ActionView>) -> nat
    decreases actions.len(),
{
    if actions.len() == 0 {
        0
    } else {
        fetches(actions.drop_last()) + if actions.last() is Fetch {
            1nat
        } else {
            0nat
        }
    }
}

impl StepView {
    /// The actions of the step when `fs` is the set of the paths that
    /// exist.
    pub open spec fn run(self, fs: Set<Seq<char>>, platform: Platform) -> Seq<ActionView> {
        self.actions(
            match self.guard() {
                Some(p) => fs.contains(p),
                None => false,
            },
            platform,
        )
    }

    /// The paths that exist once the step has run from `fs` and each of
    /// its actions has succeeded.
    pub open spec fn after(self, fs: Set<Seq<char>>, platform: Platform) -> Set<Seq<char>> {
        fs.union(written_all(self.run(fs, platform)))
    }
}

/// The actions of a whole plan run from `fs`, each step looking at what
/// exists when its turn comes.
pub open spec fn run_plan(plan: Seq<StepView>, fs: Set<Seq<char>>, platform: Platform) -> Seq<
    ActionView,
>
    decreases plan.len(),
{
    if plan.len() == 0 {
        Seq::empty()
    } else {
        plan[0].run(fs, platform) + run_plan(
            plan.drop_first(),
            plan[0].after(fs, platform),
            platform,
        )
    }
}

/// The paths that exist once a whole plan has run from `fs` and each of
/// its actions has succeeded.
pub open spec fn after_plan(plan: Seq<StepView>, fs: Set<Seq<char>>, platform: Platform) -> Set<
    Seq<char>,
>
    decreases plan.len(),
{
    if plan.len() == 0 {
        fs
    } else {
        after_plan(plan.drop_first(), plan[0].after(fs, platform), platform)
    }
}

/// Whether every download of `plan` is skipped where its destination
/// exists: the plan holds no step that fetches whatever is there.
pub open spec fn all_guarded(plan: Seq<StepView>) -> bool {
    forall|i: int| 0 <= i < plan.len() ==> !(#[trigger] plan[i] is Fetch)
}

/// The fetches of two lists of actions add up.
pub proof fn fetches_add_up(a: Seq<ActionView>, b: Seq<ActionView>)
    ensures
        fetches(a + b) == fetches(a) + fetches(b),
    decreases b.len(),
{
    if b.len() == 0 {
        assert(a + b =~= a);
    } else {
        assert((a + b).drop_last() =~= a + b.drop_last());
        assert((a + b).last() == b.last());
        fetches_add_up(a, b.drop_last());
    }
}

/// Actions of which none is a fetch fetch nothing.
pub proof fn no_fetch_counts_zero(actions: Seq<ActionView>)
    requires
        forall|k: int| 0 <= k < actions.len() ==> !(#[trigger] actions[k] is Fetch),
    ensures
        fetches(actions) == 0,
    decreases actions.len(),
{
    if actions.len() > 0 {
        no_fetch_counts_zero(actions.drop_last());
    }
}

/// Actions of which only the one at `at` may be a fetch fetch at most
/// once.
pub proof fn one_fetch_counts_one(actions: Seq<ActionView>, at: int)
    requires
        forall|k: int| 0 <= k < actions.len() && k != at ==> !(#[trigger] actions[k] is Fetch),
    ensures
        fetches(actions) <= 1,
    decreases actions.len(),
{
    if actions.len() > 0 {
        if at == actions.len() - 1 {
            no_fetch_counts_zero(actions.drop_last());
        } else {
            one_fetch_counts_one(actions.drop_last(), at);
        }
    }
}

/// A step whose destination exists performs nothing at all, and so no
/// download.
pub proof fn present_target_is_left_alone(
    step: StepView,
    fs: Set<Seq<char>>,
    platform: Platform,
)
    requires
        step.guard() matches Some(p) && fs.contains(p),
    ensures
        step.run(fs, platform) == Seq::<ActionView>::empty(),
        fetches(step.run(fs, platform)) == 0,
{
}

/// A step fetches at most once, and where it has a guard the guard
/// exists afterwards.
pub proof fn step_establishes_its_guard(step: StepView, fs: Set<Seq<char>>, platform: Platform)
    ensures
        fetches(step.run(fs, platform)) <= 1,
        step.guard() matches Some(p) ==> step.after(fs, platform).contains(p),
        fs.subset_of(step.after(fs, platform)),
{
    let acts = step.run(fs, platform);
    match step {
        StepView::Download { url, path } => {
            one_fetch_counts_one(acts, 1);
            if !fs.contains(path) {
                assert(written(acts[1]) == Some(path));
            }
        },
        StepView::Fetch { url, path } => {
            one_fetch_counts_one(acts, 0);
        },
        StepView::RuntimeFile { url, path } => {
            one_fetch_counts_one(acts, 1);
            if !fs.contains(path) {
                assert(written(acts[1]) == Some(path));
            }
        },
        StepView::RuntimeDirectory { path } => {
            no_fetch_counts_zero(acts);
            if !fs.contains(path) {
                assert(written(acts[0]) == Some(path));
            }
        },
        StepView::RuntimeLink { target, path } => {
            no_fetch_counts_zero(acts);
            if !fs.contains(path) {
                assert(written(acts[1]) == Some(path));
            }
        },
        StepView::CreateDirAll { path } => {
            no_fetch_counts_zero(acts);
        },
        StepView::Extract { archive, dest } => {
            no_fetch_counts_zero(acts);
        },
    }
}

/// Downloading to one destination twice fetches at most once: the
/// second time the destination is there, and nothing is done.
pub proof fn second_download_is_skipped(
    url: Seq<char>,
    path: Seq<char>,
    fs: Set<Seq<char>>,
    platform: Platform,
)
    ensures
        ({
            let step = StepView::Download { url, path };
            let then = step.after(fs, platform);
            &&& step.run(then, platform) == Seq::<ActionView>::empty()
            &&& fetches(step.run(fs, platform)) + fetches(step.run(then, platform)) <= 1
        }),
{
    let step = StepView::Download { url, path };
    step_establishes_its_guard(step, fs, platform);
}

/// Once a plan has run, every guard of it exists, and nothing that
/// existed before is gone.
pub proof fn plan_establishes_its_guards(
    plan: Seq<StepView>,
    fs: Set<Seq<char>>,
    platform: Platform,
)
    ensures
        fs.subset_of(after_plan(plan, fs, platform)),
        forall|i: int|
            0 <= i < plan.len() ==> ((#[trigger] plan[i]).guard() matches Some(p) ==> after_plan(
                plan,
                fs,
                platform,
            ).contains(p)),
    decreases plan.len(),
{
    if plan.len() > 0 {
        let next = plan[0].after(fs, platform);
        let rest = plan.drop_first();
        step_establishes_its_guard(plan[0], fs, platform);
        plan_establishes_its_guards(rest, next, platform);
        assert forall|i: int| 0 <= i < plan.len() implies ((#[trigger] plan[i]).guard() matches Some(
            p,
        ) ==> after_plan(plan, fs, platform).contains(p)) by {
            if i > 0 {
                assert(plan[i] == rest[i - 1]);
            }
        }
    }
}

/// A plan whose guards all exist fetches nothing, as long as it holds no
/// step that fetches whatever is there.
pub proof fn guards_present_fetch_nothing(
    plan: Seq<StepView>,
    fs: Set<Seq<char>>,
    platform: Platform,
)
    requires
        all_guarded(plan),
        forall|i: int|
            0 <= i < plan.len() ==> ((#[trigger] plan[i]).guard() matches Some(p) ==> fs.contains(
                p,
            )),
    ensures
        fetches(run_plan(plan, fs, platform)) == 0,
    decreases plan.len(),
{
    if plan.len() > 0 {
        let next = plan[0].after(fs, platform);
        let rest = plan.drop_first();
        let first = plan[0].run(fs, platform);
        assert(!(plan[0] is Fetch));
        step_establishes_its_guard(plan[0], fs, platform);
        assert forall|i: int| 0 <= i < rest.len() implies ((#[trigger] rest[i]).guard() matches Some(
            p,
        ) ==> next.contains(p)) by {
            assert(rest[i] == plan[i + 1]);
        }
        assert(all_guarded(rest)) by {
            assert forall|i: int| 0 <= i < rest.len() implies !(#[trigger] rest[i] is Fetch) by {
                assert(rest[i] == plan[i + 1]);
            }
        }
        guards_present_fetch_nothing(rest, next, platform);
        fetches_add_up(first, run_plan(rest, next, platform));
        no_fetch_counts_zero(first);
    }
}

/// Running a plan again downloads nothing: where the plan holds no step
/// that fetches whatever is there, and everything that its first run
/// brought into being is still there, the second run fetches nothing.
pub proof fn rerun_fetches_nothing(
    plan: Seq<StepView>,
    fs: Set<Seq<char>>,
    later: Set<Seq<char>>,
    platform: Platform,
)
    requires
        all_guarded(plan),
        after_plan(plan, fs, platform).subset_of(later),
    ensures
        fetches(run_plan(plan, later, platform)) == 0,
{
    plan_establishes_its_guards(plan, fs, platform);
    guards_present_fetch_nothing(plan, later, platform);
}

/// Running two plans one after the other is running the first, then the
/// second from what the first left.
pub proof fn run_plan_splits(
    a: Seq<StepView>,
    b: Seq<StepView>,
    fs: Set<Seq<char>>,
    platform: Platform,
)
    ensures
        run_plan(a + b, fs, platform) == run_plan(a, fs, platform) + run_plan(
            b,
            after_plan(a, fs, platform),
            platform,
        ),
    decreases a.len(),
{
    if a.len() == 0 {
        assert(a + b =~= b);
        assert(run_plan(a, fs, platform) + run_plan(b, fs, platform) =~= run_plan(
            b,
            fs,
            platform,
        ));
    } else {
        let next = a[0].after(fs, platform);
        assert((a + b)[0] == a[0]);
        assert((a + b).drop_first() =~= a.drop_first() + b);
        run_plan_splits(a.drop_first(), b, next, platform);
        assert(run_plan(a + b, fs, platform) =~= run_plan(a, fs, platform) + run_plan(
            b,
            after_plan(a, fs, platform),
            platform,
        ));
    }
}

/// A plan without links copies nothing.
pub proof fn plan_without_links_copies_nothing(
    plan: Seq<StepView>,
    fs: Set<Seq<char>>,
    platform: Platform,
)
    requires
        forall|i: int| 0 <= i < plan.len() ==> !(#[trigger] plan[i] is RuntimeLink),
    ensures
        forall|k: int|
            0 <= k < run_plan(plan, fs, platform).len() ==> !(#[trigger] run_plan(
                plan,
                fs,
                platform,
            )[k] is Copy),
    decreases plan.len(),
{
    if plan.len() > 0 {
        let first = plan[0].run(fs, platform);
        let rest = plan.drop_first();
        let next = plan[0].after(fs, platform);
        assert(!(plan[0] is RuntimeLink));
        assert forall|i: int| 0 <= i < rest.len() implies !(#[trigger] rest[i] is RuntimeLink) by {
            assert(rest[i] == plan[i + 1]);
        }
        plan_without_links_copies_nothing(rest, next, platform);
        let all = run_plan(plan, fs, platform);
        assert forall|k: int| 0 <= k < all.len() implies !(#[trigger] all[k] is Copy) by {
            if k < first.len() {
                assert(all[k] == first[k]);
            } else {
                assert(all[k] == run_plan(rest, next, platform)[k - first.len()]);
            }
        }
    }
}

/// A plan of links fetches nothing.
pub proof fn plan_of_links_fetches_nothing(
    plan: Seq<StepView>,
    fs: Set<Seq<char>>,
    platform: Platform,
)
    requires
        forall|i: int| 0 <= i < plan.len() ==> #[trigger] plan[i] is RuntimeLink,
    ensures
        forall|k: int|
            0 <= k < run_plan(plan, fs, platform).len() ==> !(#[trigger] run_plan(
                plan,
                fs,
                platform,
            )[k] is Fetch),
    decreases plan.len(),
{
    if plan.len() > 0 {
        let first = plan[0].run(fs, platform);
        let rest = plan.drop_first();
        let next = plan[0].after(fs, platform);
        assert(plan[0] is RuntimeLink);
        assert forall|i: int| 0 <= i < rest.len() implies #[trigger] rest[i] is RuntimeLink by {
            assert(rest[i] == plan[i + 1]);
        }
        plan_of_links_fetches_nothing(rest, next, platform);
        let all = run_plan(plan, fs, platform);
        assert forall|k: int| 0 <= k < all.len() implies !(#[trigger] all[k] is Fetch) by {
            if k < first.len() {
                assert(all[k] == first[k]);
            } else {
                assert(all[k] == run_plan(rest, next, platform)[k - first.len()]);
            }
        }
    }
}

/// Marks `path` executable: a no-op on a platform without such a
/// permission.
pub fn make_executable(path: &str, platform: Platform) -> (r: Vec<Action>)
    ensures
        action_views(r@) == executable_actions(path@, platform),
{
    let mut out: Vec<Action> = Vec::new();
    if platform != Platform::Windows {
        out.push(Action::MakeExecutable { path: String::from_str(path) });
    }
    assert(action_views(out@) =~= executable_actions(path@, platform));
    out
}

impl Step {
    /// The path to look for before the step, if the step has a guard.
    pub fn guard(&self) -> (r: Option<&str>)
        ensures
            match r {
                Some(p) => self@.guard() == Some(p@),
                None => self@.guard().is_none(),
            },
    {
        match self {
            Step::CreateDirAll { .. } => None,
            Step::Download { path, .. } => Some(path.as_str()),
            Step::Fetch { .. } => None,
            Step::Extract { .. } => None,
            Step::RuntimeFile { path, .. } => Some(path.as_str()),
            Step::RuntimeDirectory { path } => Some(path.as_str()),
            Step::RuntimeLink { path, .. } => Some(path.as_str()),
        }
    }

    /// The actions to perform for the step, given whether its guard
    /// exists.
    pub fn actions(&self, present: bool, platform: Platform) -> (r: Vec<Action>)
        ensures
            action_views(r@) == self@.actions(present, platform),
    {
        let mut out: Vec<Action> = Vec::new();
        match self {
            Step::CreateDirAll { path } => {
                out.push(Action::CreateDirAll { path: path.clone() });
            },
            Step::Extract { archive, dest } => {
                out.push(Action::Extract { archive: archive.clone(), dest: dest.clone() });
            },
            Step::Fetch { url, path } => {
                out.push(Action::Fetch { url: url.clone(), path: path.clone() });
            },
            Step::Download { url, path } => {
                if !present {
                    out.push(Action::CreateDirAll { path: parent_path(path.as_str()) });
                    out.push(Action::Fetch { url: url.clone(), path: path.clone() });
                }
            },
            Step::RuntimeFile { url, path } => {
                if !present {
                    out.push(Action::CreateDirAll { path: parent_path(path.as_str()) });
                    out.push(Action::Fetch { url: url.clone(), path: path.clone() });
                    let mut mark = make_executable(path.as_str(), platform);
                    let ghost before = out@;
                    let ghost added = mark@;
                    out.append(&mut mark);
                    assert(action_views(out@) =~= action_views(before) + action_views(added));
                }
            },
            Step::RuntimeDirectory { path } => {
                if !present {
                    out.push(Action::CreateDirAll { path: path.clone() });
                }
            },
            Step::RuntimeLink { target, path } => {
                if !present {
                    let parent = parent_path(path.as_str());
                    let from = join_path(parent.as_str(), target.as_str());
                    out.push(Action::CreateDirAll { path: parent });
                    out.push(Action::Copy { from, to: path.clone() });
                }
            },
        }
        assert(action_views(out@) =~= self@.actions(present, platform));
        out
    }
}

} // verus!
