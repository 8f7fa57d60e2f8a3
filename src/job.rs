//! The source-build pipeline of one package, as a state machine.
//!
//! The caller performs the work that the current stage names and reports
//! what happened as an [`Event`]; [`Job::step`] decides the next stage.
use vstd::prelude::*;
use vstd::string::StringExecFns;
use crate::prompt::Answer;
use crate::text::{file_name, file_name_of, join, join_path, non_blank_lines, non_blank_lines_of, views};

verus! {

/// How an external process ended.
#[derive(Clone, Copy, Debug, PartialEq, Eq, Structural)]
pub enum ExitStatus {
    Success,
    /// A non-zero exit code.
    Code(i32),
    /// Ended without an exit code (a signal), or could not be started.
    NoCode,
}

/// The exit code with which the package manager reports that the user
/// declined at its own prompt.
pub open spec fn declined_code() -> i32 {
    1
}

impl ExitStatus {
    /// The status of a process that ended with `success`, and with `code`
    /// when it has one.
    pub fn from_parts(success: bool, code: Option<i32>) -> (r: ExitStatus)
        ensures
            success ==> r == ExitStatus::Success,
            !success && code.is_some() ==> r == ExitStatus::Code(code.unwrap()),
            !success && code.is_none() ==> r == ExitStatus::NoCode,
    {
        if success {
            ExitStatus::Success
        } else {
            match code {
                Some(c) => ExitStatus::Code(c),
                None => ExitStatus::NoCode,
            }
        }
    }
}

/// How a snapshot download ended.
#[derive(Clone, Copy, Debug, PartialEq, Eq, Structural)]
pub enum FetchOutcome {
    /// Downloaded and published under the cache path.
    Saved,
    /// The server answered with this non-success status.
    Status(u16),
    /// The transfer or the write failed without a status.
    Broken,
}

/// Why a package's pipeline failed.
#[derive(Clone, Copy, Debug, PartialEq, Eq, Structural)]
pub enum JobError {
    DownloadFailed(u16),
    DownloadBroken,
    ExtractionFailed(ExitStatus),
    /// The archive did not hold a directory named after the package.
    BadLayout,
    ListFailed(ExitStatus),
    /// The build tool listed no package file.
    EmptyPlan,
    BuildFailed(ExitStatus),
    RelocateFailed,
    /// No listed package file exists after the build.
    NoArtifactsProduced,
    InstallFailed(ExitStatus),
    /// An event that the current stage does not expect.
    UnexpectedEvent,
}

/// How a package's pipeline ended.
#[derive(Clone, Copy, Debug, PartialEq, Eq, Structural)]
pub enum JobEnd {
    Installed,
    /// The user declined at the package manager's prompt.
    Declined,
    /// The user left the recipe editor with a failure.
    Aborted,
    Failed(JobError),
}

/// The stage of a pipeline: the work the caller is to do next, and the event
/// that reports it.
#[derive(Clone, Copy, Debug, PartialEq, Eq, Structural)]
pub enum Stage {
    /// Does the cached snapshot exist? `Present`.
    CheckCache,
    /// Download the snapshot into the cache. `Fetched`.
    Download,
    /// Unpack the snapshot into the workspace. `Exited`.
    Extract,
    /// Is the package's directory in the workspace? `Present`.
    CheckLayout,
    /// Is there a recipe file in it? `Present`.
    CheckRecipe,
    /// Ask whether to view the recipe. `Answered`.
    AskView,
    /// Open the recipe in an editor. `Exited`.
    OpenEditor,
    /// List the package files a build would produce. `Listed`.
    ListArtifacts,
    /// Delete the listed files and their copies in the build directory. `Removed`.
    RemoveOld,
    /// Which listed files exist? `Outputs`.
    CheckOutputs,
    /// Run the build. `Exited`.
    Build,
    /// Which listed files exist, at their place and in the build directory? `Outputs`.
    CheckBuilt,
    /// Move the files that the build left in the build directory. `Relocated`.
    Relocate,
    /// Install the package files. `Exited`.
    Install,
    Finished(JobEnd),
}

/// What the caller reports after doing the work of a stage.
pub enum Event {
    Present(bool),
    Fetched(FetchOutcome),
    Exited(ExitStatus),
    Answered(Answer),
    /// The listing process's status and standard output.
    Listed(ExitStatus, String),
    Removed,
    /// For each listed file: whether it exists at its place, and whether a
    /// file of its name exists in the build directory.
    Outputs(Vec<bool>, Vec<bool>),
    Relocated(bool),
}

/// One package's source-build pipeline.
pub struct Job {
    pub name: String,
    /// The scratch directory the snapshot is unpacked into.
    pub workspace: String,
    pub force: bool,
    /// The package files the build tool listed, in its order.
    pub targets: Vec<String>,
    /// Which targets make up the install set.
    pub keep: Vec<bool>,
    /// Which targets are to be moved from the build directory.
    pub moving: Vec<bool>,
    pub stage: Stage,
}

/// The mathematical state of a [`Job`].
pub struct JobView {
    pub name: Seq<char>,
    pub workspace: Seq<char>,
    pub force: bool,
    pub targets: Seq<Seq<char>>,
    pub keep: Seq<bool>,
    pub moving: Seq<bool>,
    pub stage: Stage,
}

impl View for Job {
    type V = JobView;

    open spec fn view(&self) -> JobView {
        JobView {
            name: self.name@,
            workspace: self.workspace@,
            force: self.force,
            targets: views(self.targets@),
            keep: self.keep@,
            moving: self.moving@,
            stage: self.stage,
        }
    }
}

/// The stages that follow a successful listing, where the targets are known.
pub open spec fn has_targets(s: Stage) -> bool {
    match s {
        Stage::RemoveOld | Stage::CheckOutputs | Stage::Build | Stage::CheckBuilt
        | Stage::Relocate | Stage::Install => true,
        _ => false,
    }
}

/// The targets selected by `keep`, in order.
pub open spec fn select(ts: Seq<Seq<char>>, keep: Seq<bool>) -> Seq<Seq<char>>
    decreases ts.len(),
{
    if ts.len() == 0 || keep.len() < ts.len() {
        seq![]
    } else if keep[ts.len() - 1] {
        select(ts.drop_last(), keep.subrange(0, ts.len() - 1)).push(ts.last())
    } else {
        select(ts.drop_last(), keep.subrange(0, ts.len() - 1))
    }
}

impl JobView {
    /// The directory of the unpacked recipe: the package's own directory in
    /// the workspace.
    pub open spec fn build_dir(self) -> Seq<char> {
        join_path(self.workspace, self.name)
    }

    /// Where a build that ignores the destination leaves the file of `t`.
    pub open spec fn local_copy(self, t: Seq<char>) -> Seq<char> {
        join_path(self.build_dir(), file_name(t))
    }

    /// The package files to install.
    pub open spec fn install_set(self) -> Seq<Seq<char>> {
        select(self.targets, self.keep)
    }

    /// The consistency of the state.
    pub open spec fn wf(self) -> bool {
        &&& self.keep.len() == self.targets.len()
        &&& self.moving.len() == self.targets.len()
        &&& has_targets(self.stage) ==> self.targets.len() > 0
        &&& self.stage == Stage::Install ==> exists|i: int|
            0 <= i < self.keep.len() && #[trigger] self.keep[i]
        &&& self.stage == Stage::Relocate ==> exists|i: int|
            0 <= i < self.moving.len() && #[trigger] self.moving[i]
        &&& forall|i: int| 0 <= i < self.moving.len() && #[trigger] self.moving[i] ==> self.keep[i]
    }

    pub open spec fn goto(self, s: Stage) -> JobView {
        JobView { stage: s, ..self }
    }

    pub open spec fn fail(self, e: JobError) -> JobView {
        self.goto(Stage::Finished(JobEnd::Failed(e)))
    }
}

/// The files a forced rebuild deletes first: each target, then its copy in
/// the build directory.
pub open spec fn removal_list(j: JobView, ts: Seq<Seq<char>>) -> Seq<Seq<char>>
    decreases ts.len(),
{
    if ts.len() == 0 {
        seq![]
    } else {
        removal_list(j, ts.drop_last()) + seq![ts.last(), j.local_copy(ts.last())]
    }
}

/// The moves that bring each file marked in `moving` from the build
/// directory to its place, as (from, to) pairs.
pub open spec fn move_list(j: JobView, ts: Seq<Seq<char>>, moving: Seq<bool>) -> Seq<
    (Seq<char>, Seq<char>),
>
    decreases ts.len(),
{
    if ts.len() == 0 || moving.len() < ts.len() {
        seq![]
    } else if moving[ts.len() - 1] {
        move_list(j, ts.drop_last(), moving.subrange(0, ts.len() - 1)).push(
            (j.local_copy(ts.last()), ts.last()),
        )
    } else {
        move_list(j, ts.drop_last(), moving.subrange(0, ts.len() - 1))
    }
}

/// The state after a successful listing that found `lines`.
pub open spec fn after_listing(j: JobView, lines: Seq<Seq<char>>) -> JobView {
    if lines.len() == 0 {
        j.fail(JobError::EmptyPlan)
    } else {
        JobView {
            targets: lines,
            keep: Seq::new(lines.len(), |i: int| false),
            moving: Seq::new(lines.len(), |i: int| false),
            stage: if j.force {
                Stage::RemoveOld
            } else {
                Stage::CheckOutputs
            },
            ..j
        }
    }
}

/// The state after the post-build check found the files `dest` at their
/// place and `local` in the build directory.
pub open spec fn after_build_check(j: JobView, dest: Seq<bool>, local: Seq<bool>) -> JobView {
    let n = j.targets.len();
    let keep = Seq::new(n, |i: int| dest[i] || local[i]);
    let moving = Seq::new(n, |i: int| !dest[i] && local[i]);
    let k = JobView { keep, moving, ..j };
    if exists|i: int| 0 <= i < n && #[trigger] moving[i] {
        k.goto(Stage::Relocate)
    } else if exists|i: int| 0 <= i < n && #[trigger] keep[i] {
        k.goto(Stage::Install)
    } else {
        k.fail(JobError::NoArtifactsProduced)
    }
}

/// The transition of the pipeline on event `e`.
pub open spec fn next_job(j: JobView, e: Event) -> JobView {
    match j.stage {
        Stage::CheckCache => match e {
            Event::Present(b) => j.goto(
                if b {
                    Stage::Extract
                } else {
                    Stage::Download
                },
            ),
            _ => j.fail(JobError::UnexpectedEvent),
        },
        Stage::Download => match e {
            Event::Fetched(FetchOutcome::Saved) => j.goto(Stage::Extract),
            Event::Fetched(FetchOutcome::Status(c)) => j.fail(JobError::DownloadFailed(c)),
            Event::Fetched(FetchOutcome::Broken) => j.fail(JobError::DownloadBroken),
            _ => j.fail(JobError::UnexpectedEvent),
        },
        Stage::Extract => match e {
            Event::Exited(ExitStatus::Success) => j.goto(Stage::CheckLayout),
            Event::Exited(st) => j.fail(JobError::ExtractionFailed(st)),
            _ => j.fail(JobError::UnexpectedEvent),
        },
        Stage::CheckLayout => match e {
            Event::Present(true) => j.goto(Stage::CheckRecipe),
            Event::Present(false) => j.fail(JobError::BadLayout),
            _ => j.fail(JobError::UnexpectedEvent),
        },
        Stage::CheckRecipe => match e {
            Event::Present(true) => j.goto(Stage::AskView),
            Event::Present(false) => j.goto(Stage::ListArtifacts),
            _ => j.fail(JobError::UnexpectedEvent),
        },
        Stage::AskView => match e {
            Event::Answered(Answer::Yes) => j.goto(Stage::OpenEditor),
            Event::Answered(Answer::No) => j.goto(Stage::ListArtifacts),
            Event::Answered(Answer::Unclear) => j,
            _ => j.fail(JobError::UnexpectedEvent),
        },
        Stage::OpenEditor => match e {
            Event::Exited(ExitStatus::Success) => j.goto(Stage::ListArtifacts),
            Event::Exited(_) => j.goto(Stage::Finished(JobEnd::Aborted)),
            _ => j.fail(JobError::UnexpectedEvent),
        },
        Stage::ListArtifacts => match e {
            Event::Listed(ExitStatus::Success, out) => after_listing(j, non_blank_lines(out@)),
            Event::Listed(st, _) => j.fail(JobError::ListFailed(st)),
            _ => j.fail(JobError::UnexpectedEvent),
        },
        Stage::RemoveOld => match e {
            Event::Removed => j.goto(Stage::Build),
            _ => j.fail(JobError::UnexpectedEvent),
        },
        Stage::CheckOutputs => match e {
            Event::Outputs(dest, _) => if dest@.len() != j.targets.len() {
                j.fail(JobError::UnexpectedEvent)
            } else if forall|i: int| 0 <= i < dest@.len() ==> #[trigger] dest@[i] {
                JobView { keep: dest@, ..j }.goto(Stage::Install)
            } else {
                j.goto(Stage::Build)
            },
            _ => j.fail(JobError::UnexpectedEvent),
        },
        Stage::Build => match e {
            Event::Exited(ExitStatus::Success) => j.goto(Stage::CheckBuilt),
            Event::Exited(st) => j.fail(JobError::BuildFailed(st)),
            _ => j.fail(JobError::UnexpectedEvent),
        },
        Stage::CheckBuilt => match e {
            Event::Outputs(dest, local) => if dest@.len() != j.targets.len() || local@.len()
                != j.targets.len() {
                j.fail(JobError::UnexpectedEvent)
            } else {
                after_build_check(j, dest@, local@)
            },
            _ => j.fail(JobError::UnexpectedEvent),
        },
        Stage::Relocate => match e {
            Event::Relocated(true) => j.goto(Stage::Install),
            Event::Relocated(false) => j.fail(JobError::RelocateFailed),
            _ => j.fail(JobError::UnexpectedEvent),
        },
        Stage::Install => match e {
            Event::Exited(ExitStatus::Success) => j.goto(Stage::Finished(JobEnd::Installed)),
            Event::Exited(ExitStatus::Code(c)) => if c == declined_code() {
                j.goto(Stage::Finished(JobEnd::Declined))
            } else {
                j.fail(JobError::InstallFailed(ExitStatus::Code(c)))
            },
            Event::Exited(ExitStatus::NoCode) => j.fail(JobError::InstallFailed(ExitStatus::NoCode)),
            _ => j.fail(JobError::UnexpectedEvent),
        },
        Stage::Finished(_) => j,
    }
}

spec fn kept_at(dest: Seq<bool>, local: Seq<bool>, k: int) -> bool {
    dest[k] || local[k]
}

spec fn moved_at(dest: Seq<bool>, local: Seq<bool>, k: int) -> bool {
    !dest[k] && local[k]
}

fn all_false(n: usize) -> (r: Vec<bool>)
    ensures
        r@ == Seq::new(n as nat, |i: int| false),
{
    let mut r: Vec<bool> = Vec::new();
    let mut i: usize = 0;
    while i < n
        invariant
            i <= n,
            r@.len() == i,
            forall|k: int| 0 <= k < i ==> !#[trigger] r@[k],
        decreases n - i,
    {
        r.push(false);
        i = i + 1;
    }
    assert(r@ =~= Seq::new(n as nat, |i: int| false));
    r
}

impl Job {
    /// A pipeline for `name` that unpacks into `workspace`, waiting for the
    /// cache check.
    pub fn new(name: String, workspace: String, force: bool) -> (r: Job)
        ensures
            r@.name == name@,
            r@.workspace == workspace@,
            r@.force == force,
            r@.targets.len() == 0,
            r@.stage == Stage::CheckCache,
            r@.wf(),
    {
        let r = Job {
            name,
            workspace,
            force,
            targets: Vec::new(),
            keep: Vec::new(),
            moving: Vec::new(),
            stage: Stage::CheckCache,
        };
        assert(r@.targets =~= Seq::<Seq<char>>::empty());
        r
    }

    fn fail(&mut self, e: JobError)
        ensures
            final(self)@ == old(self)@.fail(e),
    {
        self.stage = Stage::Finished(JobEnd::Failed(e));
    }

    fn go(&mut self, s: Stage)
        ensures
            final(self)@ == old(self)@.goto(s),
    {
        self.stage = s;
    }

    fn on_listing(&mut self, out: String)
        requires
            old(self)@.stage == Stage::ListArtifacts,
        ensures
            final(self)@ == after_listing(old(self)@, non_blank_lines(out@)),
            old(self)@.wf() ==> final(self)@.wf(),
    {
        let lines = non_blank_lines_of(out.as_str());
        if lines.len() == 0 {
            self.fail(JobError::EmptyPlan);
        } else {
            let n = lines.len();
            self.targets = lines;
            self.keep = all_false(n);
            self.moving = all_false(n);
            if self.force {
                self.stage = Stage::RemoveOld;
            } else {
                self.stage = Stage::CheckOutputs;
            }
        }
    }

    fn on_outputs(&mut self, dest: Vec<bool>)
        requires
            old(self)@.stage == Stage::CheckOutputs,
            dest@.len() == old(self)@.targets.len(),
        ensures
            final(self)@ == (if forall|i: int| 0 <= i < dest@.len() ==> #[trigger] dest@[i] {
                JobView { keep: dest@, ..old(self)@ }.goto(Stage::Install)
            } else {
                old(self)@.goto(Stage::Build)
            }),
            old(self)@.wf() ==> final(self)@.wf(),
    {
        let mut all = true;
        let mut i: usize = 0;
        while i < dest.len()
            invariant
                i <= dest@.len(),
                all == forall|k: int| 0 <= k < i ==> #[trigger] dest@[k],
            decreases dest@.len() - i,
        {
            all = all && dest[i];
            i = i + 1;
        }
        if all {
            proof {
                if old(self)@.wf() {
                    assert(dest@[0]);
                }
            }
            self.keep = dest;
            self.stage = Stage::Install;
        } else {
            self.stage = Stage::Build;
        }
    }

    fn on_build_check(&mut self, dest: Vec<bool>, local: Vec<bool>)
        requires
            old(self)@.stage == Stage::CheckBuilt,
            dest@.len() == old(self)@.targets.len(),
            local@.len() == old(self)@.targets.len(),
        ensures
            final(self)@ == after_build_check(old(self)@, dest@, local@),
            old(self)@.wf() ==> final(self)@.wf(),
    {
        let n = dest.len();
        let ghost t = old(self)@.targets;
        let mut keep: Vec<bool> = Vec::new();
        let mut moving: Vec<bool> = Vec::new();
        let mut any_keep = false;
        let mut any_moving = false;
        let mut i: usize = 0;
        while i < n
            invariant
                n == dest@.len(),
                n == local@.len(),
                i <= n,
                keep@.len() == i,
                moving@.len() == i,
                forall|k: int| 0 <= k < i ==> #[trigger] keep@[k] == (dest@[k] || local@[k]),
                forall|k: int| 0 <= k < i ==> #[trigger] moving@[k] == (!dest@[k] && local@[k]),
                any_keep == exists|k: int| 0 <= k < i && #[trigger] kept_at(dest@, local@, k),
                any_moving == exists|k: int| 0 <= k < i && #[trigger] moved_at(dest@, local@, k),
            decreases n - i,
        {
            let kp = dest[i] || local[i];
            let mv = !dest[i] && local[i];
            keep.push(kp);
            moving.push(mv);
            assert(keep@[i as int] == kp);
            assert(moving@[i as int] == mv);
            proof {
                if kp {
                    assert(kept_at(dest@, local@, i as int));
                } else {
                    assert(!kept_at(dest@, local@, i as int));
                }
                if mv {
                    assert(moved_at(dest@, local@, i as int));
                } else {
                    assert(!moved_at(dest@, local@, i as int));
                }
            }
            any_keep = any_keep || kp;
            any_moving = any_moving || mv;
            i = i + 1;
        }
        let ghost ks = Seq::new(n as nat, |k: int| dest@[k] || local@[k]);
        let ghost ms = Seq::new(n as nat, |k: int| !dest@[k] && local@[k]);
        assert(keep@ =~= ks);
        assert(moving@ =~= ms);
        proof {
            assert forall|k: int| 0 <= k < n && #[trigger] ms[k] implies ks[k] by {}
            if any_moving {
                let k = choose|k: int| 0 <= k < n && #[trigger] moved_at(dest@, local@, k);
                assert(ms[k]);
            } else {
                assert forall|k: int| 0 <= k < n implies !#[trigger] ms[k] by {
                    if ms[k] {
                        assert(moved_at(dest@, local@, k));
                    }
                }
            }
            if any_keep {
                let k = choose|k: int| 0 <= k < n && #[trigger] kept_at(dest@, local@, k);
                assert(ks[k]);
            } else {
                assert forall|k: int| 0 <= k < n implies !#[trigger] ks[k] by {
                    if ks[k] {
                        assert(kept_at(dest@, local@, k));
                    }
                }
            }
        }
        self.keep = keep;
        self.moving = moving;
        if any_moving {
            self.stage = Stage::Relocate;
        } else if any_keep {
            self.stage = Stage::Install;
        } else {
            self.stage = Stage::Finished(JobEnd::Failed(JobError::NoArtifactsProduced));
        }
        proof {
            let v = self@;
            assert(v.keep.len() == v.targets.len());
            assert(v.moving.len() == v.targets.len());
            assert(forall|i: int| 0 <= i < v.moving.len() && #[trigger] v.moving[i] ==> v.keep[i]);
            assert(v.stage == Stage::Install ==> exists|i: int| 0 <= i < v.keep.len() && #[trigger] v.keep[i]);
            assert(v.stage == Stage::Relocate ==> exists|i: int| 0 <= i < v.moving.len() && #[trigger] v.moving[i]);
        }
    }

    /// The directory of the unpacked recipe.
    pub fn build_dir(&self) -> (r: String)
        ensures
            r@ == self@.build_dir(),
    {
        join(self.workspace.as_str(), self.name.as_str())
    }

    /// The recipe file, which the user may open before building.
    pub fn recipe_path(&self) -> (r: String)
        ensures
            r@ == join_path(self@.build_dir(), "PKGBUILD"@),
    {
        let d = self.build_dir();
        join(d.as_str(), "PKGBUILD")
    }

    /// Where the snapshot of this package is cached in `cache`.
    pub fn archive_path(&self, cache: &str) -> (r: String)
        ensures
            r@ == crate::catalog::snapshot_file(cache@, self@.name),
    {
        crate::catalog::snapshot_path(cache, self.name.as_str())
    }

    /// Where a build that ignores the destination leaves the file of `t`.
    pub fn local_copy(&self, t: &str) -> (r: String)
        ensures
            r@ == self@.local_copy(t@),
    {
        let d = self.build_dir();
        let f = file_name_of(t);
        join(d.as_str(), f.as_str())
    }

    /// The build-directory copy of each target, in the targets' order.
    pub fn local_copies(&self) -> (r: Vec<String>)
        ensures
            views(r@) == Seq::new(self@.targets.len(), |i: int| self@.local_copy(self@.targets[i])),
    {
        let mut r: Vec<String> = Vec::new();
        let mut i: usize = 0;
        while i < self.targets.len()
            invariant
                i <= self.targets@.len(),
                r@.len() == i,
                forall|k: int| 0 <= k < i ==> (#[trigger] r@[k])@ == self@.local_copy(self@.targets[k]),
            decreases self.targets@.len() - i,
        {
            let c = self.local_copy(self.targets[i].as_str());
            r.push(c);
            i = i + 1;
        }
        assert(views(r@) =~= Seq::new(self@.targets.len(), |i: int| self@.local_copy(self@.targets[i])));
        r
    }

    /// The files a forced rebuild deletes before building.
    pub fn removal_paths(&self) -> (r: Vec<String>)
        ensures
            views(r@) == removal_list(self@, self@.targets),
    {
        let mut r: Vec<String> = Vec::new();
        let mut i: usize = 0;
        let ghost ts = self@.targets;
        assert(ts.subrange(0, 0) =~= Seq::<Seq<char>>::empty());
        assert(views(r@) =~= Seq::<Seq<char>>::empty());
        while i < self.targets.len()
            invariant
                ts == self@.targets,
                i <= ts.len(),
                views(r@) == removal_list(self@, ts.subrange(0, i as int)),
            decreases ts.len() - i,
        {
            let t = self.targets[i].as_str();
            let c = self.local_copy(t);
            let ghost before = views(r@);
            crate::command::push_str(&mut r, t);
            let ghost mid = r@;
            r.push(c);
            assert(views(r@) =~= views(mid).push(c@));
            assert(views(r@) =~= before + seq![t@, self@.local_copy(t@)]);
            assert(ts.subrange(0, i + 1).drop_last() =~= ts.subrange(0, i as int));
            i = i + 1;
        }
        assert(ts.subrange(0, ts.len() as int) =~= ts);
        r
    }

    /// The (from, to) moves of the files the build left in the build
    /// directory.
    pub fn moves(&self) -> (r: Vec<(String, String)>)
        requires
            self@.wf(),
        ensures
            crate::command::env_views(r@) == move_list(self@, self@.targets, self@.moving),
    {
        let mut r: Vec<(String, String)> = Vec::new();
        let mut i: usize = 0;
        let ghost ts = self@.targets;
        let ghost ms = self@.moving;
        assert(crate::command::env_views(r@) =~= Seq::<(Seq<char>, Seq<char>)>::empty());
        while i < self.targets.len()
            invariant
                ts == self@.targets,
                ms == self@.moving,
                ms.len() == ts.len(),
                i <= ts.len(),
                crate::command::env_views(r@) == move_list(self@, ts.subrange(0, i as int), ms.subrange(0, i as int)),
            decreases ts.len() - i,
        {
            let ghost before = crate::command::env_views(r@);
            assert(ts.subrange(0, i + 1).drop_last() =~= ts.subrange(0, i as int));
            assert(ms.subrange(0, i + 1).subrange(0, i as int) =~= ms.subrange(0, i as int));
            if self.moving[i] {
                let t = self.targets[i].as_str();
                let from = self.local_copy(t);
                let to = String::from_str(t);
                r.push((from, to));
                assert(crate::command::env_views(r@) =~= before.push((self@.local_copy(t@), t@)));
            }
            i = i + 1;
        }
        assert(ts.subrange(0, ts.len() as int) =~= ts);
        assert(ms.subrange(0, ms.len() as int) =~= ms);
        r
    }

    /// The package files to install.
    pub fn install_set(&self) -> (r: Vec<String>)
        requires
            self@.wf(),
        ensures
            views(r@) == self@.install_set(),
    {
        let mut r: Vec<String> = Vec::new();
        let mut i: usize = 0;
        let ghost ts = self@.targets;
        let ghost ks = self@.keep;
        assert(views(r@) =~= Seq::<Seq<char>>::empty());
        while i < self.targets.len()
            invariant
                ts == self@.targets,
                ks == self@.keep,
                ks.len() == ts.len(),
                i <= ts.len(),
                views(r@) == select(ts.subrange(0, i as int), ks.subrange(0, i as int)),
            decreases ts.len() - i,
        {
            let ghost before = views(r@);
            assert(ts.subrange(0, i + 1).drop_last() =~= ts.subrange(0, i as int));
            assert(ks.subrange(0, i + 1).subrange(0, i as int) =~= ks.subrange(0, i as int));
            if self.keep[i] {
                crate::command::push_str(&mut r, self.targets[i].as_str());
            }
            i = i + 1;
        }
        assert(ts.subrange(0, ts.len() as int) =~= ts);
        assert(ks.subrange(0, ks.len() as int) =~= ks);
        r
    }

    /// Advances the pipeline on the report `e` of the current stage's work.
    pub fn step(&mut self, e: Event)
        ensures
            final(self)@ == next_job(old(self)@, e),
            old(self)@.wf() ==> final(self)@.wf(),
    {
        match self.stage {
            Stage::CheckCache => match e {
                Event::Present(b) => self.go(
                    if b {
                        Stage::Extract
                    } else {
                        Stage::Download
                    },
                ),
                _ => self.fail(JobError::UnexpectedEvent),
            },
            Stage::Download => match e {
                Event::Fetched(FetchOutcome::Saved) => self.go(Stage::Extract),
                Event::Fetched(FetchOutcome::Status(c)) => self.fail(JobError::DownloadFailed(c)),
                Event::Fetched(FetchOutcome::Broken) => self.fail(JobError::DownloadBroken),
                _ => self.fail(JobError::UnexpectedEvent),
            },
            Stage::Extract => match e {
                Event::Exited(ExitStatus::Success) => self.go(Stage::CheckLayout),
                Event::Exited(st) => self.fail(JobError::ExtractionFailed(st)),
                _ => self.fail(JobError::UnexpectedEvent),
            },
            Stage::CheckLayout => match e {
                Event::Present(true) => self.go(Stage::CheckRecipe),
                Event::Present(false) => self.fail(JobError::BadLayout),
                _ => self.fail(JobError::UnexpectedEvent),
            },
            Stage::CheckRecipe => match e {
                Event::Present(true) => self.go(Stage::AskView),
                Event::Present(false) => self.go(Stage::ListArtifacts),
                _ => self.fail(JobError::UnexpectedEvent),
            },
            Stage::AskView => match e {
                Event::Answered(Answer::Yes) => self.go(Stage::OpenEditor),
                Event::Answered(Answer::No) => self.go(Stage::ListArtifacts),
                Event::Answered(Answer::Unclear) => {},
                _ => self.fail(JobError::UnexpectedEvent),
            },
            Stage::OpenEditor => match e {
                Event::Exited(ExitStatus::Success) => self.go(Stage::ListArtifacts),
                Event::Exited(_) => self.go(Stage::Finished(JobEnd::Aborted)),
                _ => self.fail(JobError::UnexpectedEvent),
            },
            Stage::ListArtifacts => match e {
                Event::Listed(ExitStatus::Success, out) => self.on_listing(out),
                Event::Listed(st, _) => self.fail(JobError::ListFailed(st)),
                _ => self.fail(JobError::UnexpectedEvent),
            },
            Stage::RemoveOld => match e {
                Event::Removed => self.go(Stage::Build),
                _ => self.fail(JobError::UnexpectedEvent),
            },
            Stage::CheckOutputs => match e {
                Event::Outputs(dest, _) => {
                    if dest.len() != self.targets.len() {
                        self.fail(JobError::UnexpectedEvent);
                    } else {
                        self.on_outputs(dest);
                    }
                },
                _ => self.fail(JobError::UnexpectedEvent),
            },
            Stage::Build => match e {
                Event::Exited(ExitStatus::Success) => self.go(Stage::CheckBuilt),
                Event::Exited(st) => self.fail(JobError::BuildFailed(st)),
                _ => self.fail(JobError::UnexpectedEvent),
            },
            Stage::CheckBuilt => match e {
                Event::Outputs(dest, local) => {
                    if dest.len() != self.targets.len() || local.len() != self.targets.len() {
                        self.fail(JobError::UnexpectedEvent);
                    } else {
                        self.on_build_check(dest, local);
                    }
                },
                _ => self.fail(JobError::UnexpectedEvent),
            },
            Stage::Relocate => match e {
                Event::Relocated(true) => self.go(Stage::Install),
                Event::Relocated(false) => self.fail(JobError::RelocateFailed),
                _ => self.fail(JobError::UnexpectedEvent),
            },
            Stage::Install => match e {
                Event::Exited(ExitStatus::Success) => self.go(Stage::Finished(JobEnd::Installed)),
                Event::Exited(ExitStatus::Code(c)) => {
                    if c == 1 {
                        self.go(Stage::Finished(JobEnd::Declined));
                    } else {
                        self.fail(JobError::InstallFailed(ExitStatus::Code(c)));
                    }
                },
                Event::Exited(ExitStatus::NoCode) => self.fail(
                    JobError::InstallFailed(ExitStatus::NoCode),
                ),
                _ => self.fail(JobError::UnexpectedEvent),
            },
            Stage::Finished(_) => {},
        }
    }
}

proof fn lemma_removal_list_shape(j: JobView, ts: Seq<Seq<char>>)
    ensures
        removal_list(j, ts).len() == 2 * ts.len(),
        forall|i: int|
            0 <= i < ts.len() ==> removal_list(j, ts)[2 * i] == ts[i] && removal_list(j, ts)[2 * i
                + 1] == j.local_copy(ts[i]),
    decreases ts.len(),
{
    if ts.len() > 0 {
        lemma_removal_list_shape(j, ts.drop_last());
        let r = removal_list(j, ts);
        let p = removal_list(j, ts.drop_last());
        assert forall|i: int| 0 <= i < ts.len() implies r[2 * i] == ts[i] && r[2 * i + 1]
            == j.local_copy(ts[i]) by {
            if i < ts.len() - 1 {
                assert(r[2 * i] == p[2 * i]);
                assert(r[2 * i + 1] == p[2 * i + 1]);
                assert(ts.drop_last()[i] == ts[i]);
            }
        }
    }
}

proof fn lemma_select_all(ts: Seq<Seq<char>>, keep: Seq<bool>)
    requires
        keep.len() == ts.len(),
        forall|i: int| 0 <= i < keep.len() ==> #[trigger] keep[i],
    ensures
        select(ts, keep) == ts,
    decreases ts.len(),
{
    if ts.len() > 0 {
        let k = keep.subrange(0, ts.len() - 1);
        assert forall|i: int| 0 <= i < k.len() implies #[trigger] k[i] by {
            assert(k[i] == keep[i]);
        }
        lemma_select_all(ts.drop_last(), k);
        assert(keep[ts.len() - 1]);
        assert(ts.drop_last().push(ts.last()) =~= ts);
    }
}

proof fn lemma_select_nonempty(ts: Seq<Seq<char>>, keep: Seq<bool>, w: int)
    requires
        keep.len() == ts.len(),
        0 <= w < keep.len(),
        keep[w],
    ensures
        select(ts, keep).len() > 0,
    decreases ts.len(),
{
    if w < ts.len() - 1 {
        let k = keep.subrange(0, ts.len() - 1);
        assert(k[w] == keep[w]);
        lemma_select_nonempty(ts.drop_last(), k, w);
    }
}

/// A second fetch of a name needs no download: every fetch of the name
/// uses the same cache file, and when that file is present the pipeline
/// goes straight to extraction.
pub proof fn lemma_snapshot_fetched_once(cache: Seq<char>, first: JobView, second: JobView)
    requires
        first.name == second.name,
        second.stage == Stage::CheckCache,
    ensures
        snapshot_file_of(cache, first) == snapshot_file_of(cache, second),
        next_job(second, Event::Present(true)).stage == Stage::Extract,
{
}

/// The cache file of a job's snapshot.
pub open spec fn snapshot_file_of(cache: Seq<char>, j: JobView) -> Seq<char> {
    crate::catalog::snapshot_file(cache, j.name)
}

/// A forced rebuild first deletes every listed file and its copy in the
/// build directory, and then always builds.
pub proof fn lemma_force_clears_outputs(j: JobView, out: String)
    requires
        j.wf(),
        j.stage == Stage::ListArtifacts,
        j.force,
        non_blank_lines(out@).len() > 0,
    ensures
        ({
            let k = next_job(j, Event::Listed(ExitStatus::Success, out));
            &&& k.stage == Stage::RemoveOld
            &&& k.targets == non_blank_lines(out@)
            &&& forall|i: int|
                0 <= i < k.targets.len() ==> removal_list(k, k.targets)[2 * i] == k.targets[i]
                    && removal_list(k, k.targets)[2 * i + 1] == k.local_copy(k.targets[i])
            &&& next_job(k, Event::Removed).stage == Stage::Build
        }),
{
    let k = next_job(j, Event::Listed(ExitStatus::Success, out));
    lemma_removal_list_shape(k, k.targets);
}

/// Without force, a listing leads to the existence check, and when every
/// listed file exists the build is skipped: the listed files are installed
/// as they are, and no event after that runs the build.
pub proof fn lemma_skip_rebuild(j: JobView, dest: Vec<bool>, local: Vec<bool>, e: Event)
    requires
        j.wf(),
        j.stage == Stage::CheckOutputs,
        dest@.len() == j.targets.len(),
        forall|i: int| 0 <= i < dest@.len() ==> #[trigger] dest@[i],
    ensures
        ({
            let k = next_job(j, Event::Outputs(dest, local));
            &&& k.stage == Stage::Install
            &&& k.install_set() == j.targets
            &&& next_job(k, e).stage is Finished
        }),
{
    lemma_select_all(j.targets, dest@);
}

/// Without force, a non-empty listing leads to the existence check, not to
/// a build or a deletion.
pub proof fn lemma_listing_without_force(j: JobView, out: String)
    requires
        j.stage == Stage::ListArtifacts,
        !j.force,
        non_blank_lines(out@).len() > 0,
    ensures
        next_job(j, Event::Listed(ExitStatus::Success, out)).stage == Stage::CheckOutputs,
{
}

/// An empty listing ends the pipeline with the empty-plan error.
pub proof fn lemma_empty_plan_fatal(j: JobView, out: String)
    requires
        j.stage == Stage::ListArtifacts,
        non_blank_lines(out@).len() == 0,
    ensures
        next_job(j, Event::Listed(ExitStatus::Success, out)).stage == Stage::Finished(
            JobEnd::Failed(JobError::EmptyPlan),
        ),
{
}

/// When no listed file exists after the build, at its place or in the build
/// directory, the pipeline ends with the no-artifacts error.
pub proof fn lemma_no_artifacts_fatal(j: JobView, dest: Vec<bool>, local: Vec<bool>)
    requires
        j.stage == Stage::CheckBuilt,
        dest@.len() == j.targets.len(),
        local@.len() == j.targets.len(),
        forall|i: int| 0 <= i < dest@.len() ==> !#[trigger] dest@[i] && !local@[i],
    ensures
        next_job(j, Event::Outputs(dest, local)).stage == Stage::Finished(
            JobEnd::Failed(JobError::NoArtifactsProduced),
        ),
{
    let n = j.targets.len();
    let keep = Seq::new(n, |i: int| dest@[i] || local@[i]);
    let moving = Seq::new(n, |i: int| !dest@[i] && local@[i]);
    assert(forall|i: int| 0 <= i < n ==> !#[trigger] moving[i]);
    assert(forall|i: int| 0 <= i < n ==> !#[trigger] keep[i]);
}

/// A pipeline installs only a non-empty set of existing package files, and
/// reports success only after that install succeeded.
pub proof fn lemma_success_needs_artifacts(j: JobView, e: Event)
    requires
        j.wf(),
    ensures
        next_job(j, e).wf(),
        next_job(j, e).stage == Stage::Install ==> next_job(j, e).install_set().len() > 0,
        next_job(j, e).stage == Stage::Finished(JobEnd::Installed) ==> j.stage == Stage::Install
            || j.stage == Stage::Finished(JobEnd::Installed),
{
    lemma_next_job_wf(j, e);
    let k = next_job(j, e);
    if k.stage == Stage::Install {
        let w = choose|i: int| 0 <= i < k.keep.len() && #[trigger] k.keep[i];
        lemma_select_nonempty(k.targets, k.keep, w);
    }
}

/// Each transition keeps the state consistent.
pub proof fn lemma_next_job_wf(j: JobView, e: Event)
    requires
        j.wf(),
    ensures
        next_job(j, e).wf(),
{
    match j.stage {
        Stage::ListArtifacts => {
            if let Event::Listed(ExitStatus::Success, out) = e {
                let lines = non_blank_lines(out@);
                if lines.len() > 0 {
                    let k = after_listing(j, lines);
                    assert(k.keep.len() == k.targets.len());
                }
            }
            assert(next_job(j, e).wf());
        },
        Stage::CheckOutputs => {
            if let Event::Outputs(dest, _) = e {
                if dest@.len() == j.targets.len() && forall|i: int|
                    0 <= i < dest@.len() ==> #[trigger] dest@[i] {
                    let k = JobView { keep: dest@, ..j }.goto(Stage::Install);
                    assert(next_job(j, e) == k);
                    assert(k.keep[0]);
                    assert(forall|i: int| 0 <= i < k.moving.len() && #[trigger] k.moving[i] ==> k.keep[i]);
                    assert(k.wf());
                }
            }
            assert(next_job(j, e).wf());
        },
        Stage::CheckBuilt => {
            if let Event::Outputs(dest, local) = e {
                if dest@.len() == j.targets.len() && local@.len() == j.targets.len() {
                    let n = j.targets.len();
                    let ks = Seq::new(n, |i: int| dest@[i] || local@[i]);
                    let ms = Seq::new(n, |i: int| !dest@[i] && local@[i]);
                    assert forall|i: int| 0 <= i < n && #[trigger] ms[i] implies ks[i] by {}
                }
            }
            assert(next_job(j, e).wf());
        },
        Stage::Relocate => {
            let w = choose|i: int| 0 <= i < j.moving.len() && #[trigger] j.moving[i];
            assert(j.keep[w]);
            assert(next_job(j, e).wf());
        },
        _ => {
            assert(next_job(j, e).wf());
        },
    }
}

} // verus!
