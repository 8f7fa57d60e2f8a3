//! One invocation of the sync command, as a state machine: classify every
//! requested name in order, ask once for confirmation, then install the
//! packages in request order.
use vstd::prelude::*;
use crate::job::{ExitStatus, JobEnd, JobError};
use crate::prompt::Answer;
use vstd::string::StringExecFns;
use crate::command::ProcessSpec;
use crate::config::Config;
use crate::text::views;
use crate::tools::{pacman_call, repo_install_cmd};

verus! {

/// Which source provides a package.
#[derive(Clone, Copy, Debug, PartialEq, Eq, Structural)]
pub enum PackageKind {
    BinaryRepo,
    SourceBuild,
}

/// What the source-build lookup service said of a name.
#[derive(Clone, Copy, Debug, PartialEq, Eq, Structural)]
pub enum LookupOutcome {
    /// A record carries exactly the name.
    Matched,
    /// No record carries exactly the name.
    Unmatched,
    /// The service answered with this non-success status.
    Status(u16),
    /// The request or the reading of its reply failed without a status.
    Broken,
}

/// Why an invocation failed; the index is that of the requested name.
#[derive(Clone, Copy, Debug, PartialEq, Eq, Structural)]
pub enum SyncError {
    NoPackages,
    NotFound(usize),
    LookupFailed(usize, u16),
    LookupBroken(usize),
    InstallFailed(usize, ExitStatus),
    Build(usize, JobError),
    UnexpectedEvent,
}

/// The phase of an invocation: the work the caller is to do next.
#[derive(Clone, Copy, Debug, PartialEq, Eq, Structural)]
pub enum Phase {
    /// Ask the package manager whether its repository has name `i`. `RepoFound`.
    ProbeRepo(usize),
    /// Look name `i` up in the source-build repository. `Looked`.
    LookupSource(usize),
    /// Ask the package manager whether name `i` is installed. `InstalledFound`.
    ProbeInstalled(usize),
    /// Show the plan and ask whether to proceed. `Answered`.
    Confirm,
    /// Install name `i` through the package manager's sync operation. `Exited`.
    SyncRepo(usize),
    /// Run the source-build pipeline of name `i`. `JobEnded`.
    BuildSource(usize),
    Done,
    Aborted,
    Failed(SyncError),
}

/// What the caller reports after doing the work of a phase.
#[derive(Clone, Copy, Debug, PartialEq, Eq, Structural)]
pub enum SessionEvent {
    RepoFound(bool),
    Looked(LookupOutcome),
    InstalledFound(bool),
    Answered(Answer),
    Exited(ExitStatus),
    JobEnded(JobEnd),
}

/// One invocation: the requested names, what is known of each so far, and
/// the phase.
pub struct Session {
    pub names: Vec<String>,
    /// The kind of each classified name, in request order.
    pub kinds: Vec<PackageKind>,
    /// Whether each probed name is installed, in request order.
    pub installed: Vec<bool>,
    pub phase: Phase,
}

/// The mathematical state of a [`Session`].
pub struct SessionView {
    pub names: Seq<Seq<char>>,
    pub kinds: Seq<PackageKind>,
    pub installed: Seq<bool>,
    pub phase: Phase,
}

impl View for Session {
    type V = SessionView;

    open spec fn view(&self) -> SessionView {
        SessionView {
            names: views(self.names@),
            kinds: self.kinds@,
            installed: self.installed@,
            phase: self.phase,
        }
    }
}

/// The phases that install something with elevated rights.
pub open spec fn is_install_phase(p: Phase) -> bool {
    match p {
        Phase::SyncRepo(_) | Phase::BuildSource(_) => true,
        _ => false,
    }
}

impl SessionView {
    pub open spec fn len(self) -> nat {
        self.names.len()
    }

    /// The consistency of the state.
    pub open spec fn wf(self) -> bool {
        &&& self.kinds.len() <= self.len()
        &&& self.installed.len() <= self.kinds.len()
        &&& match self.phase {
            Phase::ProbeRepo(i) | Phase::LookupSource(i) => i < self.len() && self.kinds.len() == i
                && self.installed.len() == i,
            Phase::ProbeInstalled(i) => i < self.len() && self.kinds.len() == i + 1
                && self.installed.len() == i,
            Phase::Confirm | Phase::Done => self.kinds.len() == self.len()
                && self.installed.len() == self.len(),
            Phase::SyncRepo(i) => i < self.len() && self.kinds.len() == self.len()
                && self.installed.len() == self.len() && self.kinds[i as int]
                == PackageKind::BinaryRepo,
            Phase::BuildSource(i) => i < self.len() && self.kinds.len() == self.len()
                && self.installed.len() == self.len() && self.kinds[i as int]
                == PackageKind::SourceBuild,
            _ => true,
        }
    }

    pub open spec fn with_phase(self, p: Phase) -> SessionView {
        SessionView { phase: p, ..self }
    }

    pub open spec fn fail(self, e: SyncError) -> SessionView {
        self.with_phase(Phase::Failed(e))
    }

    /// The phase that installs item `k`, or `Done` past the last one.
    pub open spec fn install_phase(self, k: nat) -> Phase {
        if k >= self.len() || k >= self.kinds.len() {
            Phase::Done
        } else if self.kinds[k as int] == PackageKind::BinaryRepo {
            Phase::SyncRepo(k as usize)
        } else {
            Phase::BuildSource(k as usize)
        }
    }
}

/// The transition of an invocation on event `e`.
pub open spec fn next_session(s: SessionView, e: SessionEvent) -> SessionView {
    match s.phase {
        Phase::ProbeRepo(i) => match e {
            SessionEvent::RepoFound(true) => SessionView {
                kinds: s.kinds.push(PackageKind::BinaryRepo),
                phase: Phase::ProbeInstalled(i),
                ..s
            },
            SessionEvent::RepoFound(false) => s.with_phase(Phase::LookupSource(i)),
            _ => s.fail(SyncError::UnexpectedEvent),
        },
        Phase::LookupSource(i) => match e {
            SessionEvent::Looked(LookupOutcome::Matched) => SessionView {
                kinds: s.kinds.push(PackageKind::SourceBuild),
                phase: Phase::ProbeInstalled(i),
                ..s
            },
            SessionEvent::Looked(LookupOutcome::Unmatched) => s.fail(SyncError::NotFound(i)),
            SessionEvent::Looked(LookupOutcome::Status(c)) => s.fail(SyncError::LookupFailed(i, c)),
            SessionEvent::Looked(LookupOutcome::Broken) => s.fail(SyncError::LookupBroken(i)),
            _ => s.fail(SyncError::UnexpectedEvent),
        },
        Phase::ProbeInstalled(i) => match e {
            SessionEvent::InstalledFound(b) => SessionView {
                installed: s.installed.push(b),
                phase: if i + 1 < s.len() {
                    Phase::ProbeRepo((i + 1) as usize)
                } else {
                    Phase::Confirm
                },
                ..s
            },
            _ => s.fail(SyncError::UnexpectedEvent),
        },
        Phase::Confirm => match e {
            SessionEvent::Answered(Answer::Yes) => s.with_phase(s.install_phase(0)),
            SessionEvent::Answered(Answer::No) => s.with_phase(Phase::Aborted),
            SessionEvent::Answered(Answer::Unclear) => s,
            _ => s.fail(SyncError::UnexpectedEvent),
        },
        Phase::SyncRepo(i) => match e {
            SessionEvent::Exited(ExitStatus::Success) => s.with_phase(s.install_phase((i + 1) as nat)),
            SessionEvent::Exited(ExitStatus::Code(c)) => if c == crate::job::declined_code() {
                s.with_phase(Phase::Aborted)
            } else {
                s.fail(SyncError::InstallFailed(i, ExitStatus::Code(c)))
            },
            SessionEvent::Exited(ExitStatus::NoCode) => s.fail(
                SyncError::InstallFailed(i, ExitStatus::NoCode),
            ),
            _ => s.fail(SyncError::UnexpectedEvent),
        },
        Phase::BuildSource(i) => match e {
            SessionEvent::JobEnded(JobEnd::Installed) => s.with_phase(s.install_phase((i + 1) as nat)),
            SessionEvent::JobEnded(JobEnd::Aborted) => s.with_phase(s.install_phase((i + 1) as nat)),
            SessionEvent::JobEnded(JobEnd::Declined) => s.with_phase(Phase::Aborted),
            SessionEvent::JobEnded(JobEnd::Failed(err)) => s.fail(SyncError::Build(i, err)),
            _ => s.fail(SyncError::UnexpectedEvent),
        },
        Phase::Done | Phase::Aborted | Phase::Failed(_) => s,
    }
}

/// The tag that names a source in the plan.
pub open spec fn kind_tag(k: PackageKind) -> Seq<char> {
    match k {
        PackageKind::BinaryRepo => "repo"@,
        PackageKind::SourceBuild => "AUR"@,
    }
}

/// The plan lines of one item: its name and source, and a note when it is
/// already installed.
pub open spec fn item_lines(name: Seq<char>, k: PackageKind, installed: bool) -> Seq<Seq<char>> {
    let head = "   "@ + name + " ("@ + kind_tag(k) + ")"@;
    if installed {
        seq![head, "      warning: "@ + name + " is up to date -- reinstalling"@]
    } else {
        seq![head]
    }
}

/// The plan lines of the first `n` items, in request order.
pub open spec fn plan_text(s: SessionView, n: nat) -> Seq<Seq<char>>
    decreases n,
{
    if n == 0 {
        seq![]
    } else {
        plan_text(s, (n - 1) as nat) + item_lines(
            s.names[n - 1],
            s.kinds[n - 1],
            s.installed[n - 1],
        )
    }
}

proof fn lemma_install_phase_wf(s: SessionView, k: nat)
    requires
        s.kinds.len() == s.len(),
        s.installed.len() == s.len(),
        s.len() <= usize::MAX,
    ensures
        s.with_phase(s.install_phase(k)).wf(),
{
}

impl Session {
    /// An invocation for `names`, in request order; it fails at once when no
    /// name is given.
    pub fn new(names: Vec<String>) -> (r: Session)
        ensures
            r@.names == views(names@),
            r@.kinds.len() == 0,
            r@.installed.len() == 0,
            r@.phase == (if names@.len() == 0 {
                Phase::Failed(SyncError::NoPackages)
            } else {
                Phase::ProbeRepo(0)
            }),
            r@.wf(),
    {
        let phase = if names.len() == 0 {
            Phase::Failed(SyncError::NoPackages)
        } else {
            Phase::ProbeRepo(0)
        };
        Session { names, kinds: Vec::new(), installed: Vec::new(), phase }
    }

    fn install_phase(&self, k: usize) -> (r: Phase)
        ensures
            r == self@.install_phase(k as nat),
    {
        if k >= self.names.len() || k >= self.kinds.len() {
            Phase::Done
        } else {
            match self.kinds[k] {
                PackageKind::BinaryRepo => Phase::SyncRepo(k),
                PackageKind::SourceBuild => Phase::BuildSource(k),
            }
        }
    }

    /// The phase that installs the item after item `i`.
    fn phase_after(&self, i: usize) -> (r: Phase)
        ensures
            r == self@.install_phase((i + 1) as nat),
    {
        if i >= self.names.len() {
            Phase::Done
        } else {
            self.install_phase(i + 1)
        }
    }

    /// The package-manager invocation that installs name `i` from the binary
    /// repository.
    pub fn sync_cmd(&self, cfg: &Config, elevated: bool, i: usize) -> (r: ProcessSpec)
        requires
            i < self@.len(),
        ensures
            pacman_call(cfg, elevated, "-S"@, seq![self@.names[i as int]], &r),
    {
        let mut one: Vec<String> = Vec::new();
        crate::command::push_str(&mut one, self.names[i].as_str());
        assert(views(one@) =~= seq![self@.names[i as int]]);
        repo_install_cmd(cfg, elevated, &one)
    }

    /// The lines that show the plan: for each item in request order, its
    /// name and source, and a warning when it is already installed.
    pub fn plan_lines(&self) -> (r: Vec<String>)
        requires
            self@.wf(),
            self@.phase == Phase::Confirm,
        ensures
            views(r@) == plan_text(self@, self@.len()),
    {
        let mut r: Vec<String> = Vec::new();
        let mut i: usize = 0;
        assert(views(r@) =~= Seq::<Seq<char>>::empty());
        while i < self.names.len()
            invariant
                self@.wf(),
                self@.phase == Phase::Confirm,
                i <= self@.len(),
                views(r@) == plan_text(self@, i as nat),
            decreases self@.len() - i,
        {
            let name = self.names[i].as_str();
            let mut head = String::from_str("   ");
            head.append(name);
            head.append(" (");
            match self.kinds[i] {
                PackageKind::BinaryRepo => head.append("repo"),
                PackageKind::SourceBuild => head.append("AUR"),
            }
            head.append(")");
            let ghost before = views(r@);
            r.push(head);
            assert(views(r@) =~= before.push(head@));
            if self.installed[i] {
                let mut note = String::from_str("      warning: ");
                note.append(name);
                note.append(" is up to date -- reinstalling");
                let ghost mid = views(r@);
                r.push(note);
                assert(views(r@) =~= mid.push(note@));
            }
            assert(views(r@) =~= before + item_lines(
                self@.names[i as int],
                self@.kinds[i as int],
                self@.installed[i as int],
            ));
            i = i + 1;
        }
        r
    }

    /// Advances the invocation on the report `e` of the current phase's work.
    pub fn step(&mut self, e: SessionEvent)
        ensures
            final(self)@ == next_session(old(self)@, e),
            old(self)@.wf() ==> final(self)@.wf(),
    {
        let ghost len = self.names.len();
        proof {
            if self@.wf() {
                lemma_next_session_wf(self@, e);
            }
        }
        match self.phase {
            Phase::ProbeRepo(i) => match e {
                SessionEvent::RepoFound(true) => {
                    self.kinds.push(PackageKind::BinaryRepo);
                    self.phase = Phase::ProbeInstalled(i);
                },
                SessionEvent::RepoFound(false) => {
                    self.phase = Phase::LookupSource(i);
                },
                _ => {
                    self.phase = Phase::Failed(SyncError::UnexpectedEvent);
                },
            },
            Phase::LookupSource(i) => match e {
                SessionEvent::Looked(LookupOutcome::Matched) => {
                    self.kinds.push(PackageKind::SourceBuild);
                    self.phase = Phase::ProbeInstalled(i);
                },
                SessionEvent::Looked(LookupOutcome::Unmatched) => {
                    self.phase = Phase::Failed(SyncError::NotFound(i));
                },
                SessionEvent::Looked(LookupOutcome::Status(c)) => {
                    self.phase = Phase::Failed(SyncError::LookupFailed(i, c));
                },
                SessionEvent::Looked(LookupOutcome::Broken) => {
                    self.phase = Phase::Failed(SyncError::LookupBroken(i));
                },
                _ => {
                    self.phase = Phase::Failed(SyncError::UnexpectedEvent);
                },
            },
            Phase::ProbeInstalled(i) => match e {
                SessionEvent::InstalledFound(b) => {
                    self.installed.push(b);
                    let n = self.names.len();
                    if n > 0 && i < n - 1 {
                        self.phase = Phase::ProbeRepo(i + 1);
                    } else {
                        self.phase = Phase::Confirm;
                    }
                },
                _ => {
                    self.phase = Phase::Failed(SyncError::UnexpectedEvent);
                },
            },
            Phase::Confirm => match e {
                SessionEvent::Answered(Answer::Yes) => {
                    self.phase = self.install_phase(0);
                },
                SessionEvent::Answered(Answer::No) => {
                    self.phase = Phase::Aborted;
                },
                SessionEvent::Answered(Answer::Unclear) => {},
                _ => {
                    self.phase = Phase::Failed(SyncError::UnexpectedEvent);
                },
            },
            Phase::SyncRepo(i) => match e {
                SessionEvent::Exited(ExitStatus::Success) => {
                    self.phase = self.phase_after(i);
                },
                SessionEvent::Exited(ExitStatus::Code(c)) => {
                    if c == 1 {
                        self.phase = Phase::Aborted;
                    } else {
                        self.phase = Phase::Failed(SyncError::InstallFailed(i, ExitStatus::Code(c)));
                    }
                },
                SessionEvent::Exited(ExitStatus::NoCode) => {
                    self.phase = Phase::Failed(SyncError::InstallFailed(i, ExitStatus::NoCode));
                },
                _ => {
                    self.phase = Phase::Failed(SyncError::UnexpectedEvent);
                },
            },
            Phase::BuildSource(i) => match e {
                SessionEvent::JobEnded(JobEnd::Installed) => {
                    self.phase = self.phase_after(i);
                },
                SessionEvent::JobEnded(JobEnd::Aborted) => {
                    self.phase = self.phase_after(i);
                },
                SessionEvent::JobEnded(JobEnd::Declined) => {
                    self.phase = Phase::Aborted;
                },
                SessionEvent::JobEnded(JobEnd::Failed(err)) => {
                    self.phase = Phase::Failed(SyncError::Build(i, err));
                },
                _ => {
                    self.phase = Phase::Failed(SyncError::UnexpectedEvent);
                },
            },
            Phase::Done | Phase::Aborted | Phase::Failed(_) => {},
        }
    }
}

/// Each transition keeps the state consistent.
pub proof fn lemma_next_session_wf(s: SessionView, e: SessionEvent)
    requires
        s.wf(),
        s.len() <= usize::MAX,
    ensures
        next_session(s, e).wf(),
{
    if s.kinds.len() == s.len() && s.installed.len() == s.len() {
        lemma_install_phase_wf(s, 0);
        match s.phase {
            Phase::SyncRepo(i) => lemma_install_phase_wf(s, (i + 1) as nat),
            Phase::BuildSource(i) => lemma_install_phase_wf(s, (i + 1) as nat),
            _ => {},
        }
    }
}

/// A name found in the binary repository is classified as such at once:
/// the next work is the installed-status probe, never a source-build
/// lookup. A lookup follows only a miss in the binary repository.
pub proof fn lemma_repo_hit_skips_lookup(s: SessionView, e: SessionEvent, i: usize)
    ensures
        s.phase == Phase::ProbeRepo(i) ==> next_session(s, SessionEvent::RepoFound(true)).phase
            == Phase::ProbeInstalled(i) && next_session(s, SessionEvent::RepoFound(true)).kinds
            == s.kinds.push(PackageKind::BinaryRepo),
        next_session(s, e).phase == Phase::LookupSource(i) && s.phase != Phase::LookupSource(i)
            ==> s.phase == Phase::ProbeRepo(i) && e == SessionEvent::RepoFound(false),
{
}

/// A classification is never revised: each transition keeps the kinds
/// already decided, and each install step follows the kind of its name,
/// the binary repository's sync for one and the source build for the other.
pub proof fn lemma_install_follows_kind(s: SessionView, e: SessionEvent)
    requires
        s.wf(),
        s.len() <= usize::MAX,
    ensures
        ({
            let t = next_session(s, e);
            &&& s.kinds.len() <= t.kinds.len()
            &&& t.kinds.subrange(0, s.kinds.len() as int) == s.kinds
            &&& forall|k: usize|
                #[trigger] t.phase == Phase::SyncRepo(k) ==> t.kinds[k as int]
                    == PackageKind::BinaryRepo
            &&& forall|k: usize|
                #[trigger] t.phase == Phase::BuildSource(k) ==> t.kinds[k as int]
                    == PackageKind::SourceBuild
        }),
{
    lemma_next_session_wf(s, e);
    let t = next_session(s, e);
    assert(t.kinds.subrange(0, s.kinds.len() as int) =~= s.kinds);
}

/// Nothing is installed before the user agreed: an install phase follows
/// only another install phase, or the confirmation answered yes.
pub proof fn lemma_confirmation_gates_install(s: SessionView, e: SessionEvent)
    ensures
        is_install_phase(next_session(s, e).phase) ==> is_install_phase(s.phase) || (s.phase
            == Phase::Confirm && e == SessionEvent::Answered(Answer::Yes)),
{
}

/// At the confirmation, only an agreeing answer proceeds: a declining one
/// aborts, an unclear one asks again.
pub proof fn lemma_confirmation_answers(s: SessionView)
    requires
        s.phase == Phase::Confirm,
    ensures
        next_session(s, SessionEvent::Answered(Answer::No)).phase == Phase::Aborted,
        next_session(s, SessionEvent::Answered(Answer::Unclear)) == s,
{
}

/// A name that neither source has fails the whole invocation, and so does
/// a failed source build: no later item is installed.
pub proof fn lemma_failures_are_fatal(s: SessionView, i: usize, err: JobError)
    ensures
        s.phase == Phase::LookupSource(i) ==> next_session(
            s,
            SessionEvent::Looked(LookupOutcome::Unmatched),
        ).phase == Phase::Failed(SyncError::NotFound(i)),
        s.phase == Phase::BuildSource(i) ==> next_session(
            s,
            SessionEvent::JobEnded(JobEnd::Failed(err)),
        ).phase == Phase::Failed(SyncError::Build(i, err)),
        s.phase is Failed ==> forall|e: SessionEvent| #[trigger] next_session(s, e) == s,
{
}

} // verus!
