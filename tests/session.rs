use yaorust::config::{Config, EnvSettings};
use yaorust::fetch::{FetchError, FetchEvent, FetchPhase, FetchSession};
use yaorust::job::{ExitStatus, FetchOutcome, JobEnd, JobError};
use yaorust::prompt::Answer;
use yaorust::session::{LookupOutcome, PackageKind, Phase, Session, SessionEvent, SyncError};

fn names(v: &[&str]) -> Vec<String> {
    v.iter().map(|s| s.to_string()).collect()
}

fn config() -> Config {
    Config::load(
        EnvSettings {
            pkgdest: None,
            snapshot_cache: None,
            pacman: None,
            sudo: None,
            build_user: None,
            auto_trust_root: None,
            root_mode: None,
        },
        false,
    )
}

#[test]
fn repo_only_name_installs_without_lookup() {
    let mut s = Session::new(names(&["vim"]));
    let mut phases = vec![s.phase];
    s.step(SessionEvent::RepoFound(true));
    phases.push(s.phase);
    s.step(SessionEvent::InstalledFound(false));
    phases.push(s.phase);
    assert_eq!(s.phase, Phase::Confirm);
    assert_eq!(s.plan_lines(), vec!["   vim (repo)"]);
    s.step(SessionEvent::Answered(Answer::Yes));
    phases.push(s.phase);
    assert_eq!(s.phase, Phase::SyncRepo(0));
    let cmd = s.sync_cmd(&config(), false, 0);
    assert_eq!(cmd.program, "sudo");
    assert_eq!(cmd.args, vec!["pacman", "-S", "vim"]);
    s.step(SessionEvent::Exited(ExitStatus::Success));
    phases.push(s.phase);
    assert_eq!(s.phase, Phase::Done);
    assert!(!phases.iter().any(|p| matches!(p, Phase::LookupSource(_) | Phase::BuildSource(_))));
    assert_eq!(s.kinds, vec![PackageKind::BinaryRepo]);
}

#[test]
fn unknown_name_fails_before_any_install() {
    let mut s = Session::new(names(&["vim", "nosuchpkg", "yay"]));
    s.step(SessionEvent::RepoFound(true));
    s.step(SessionEvent::InstalledFound(true));
    assert_eq!(s.phase, Phase::ProbeRepo(1));
    s.step(SessionEvent::RepoFound(false));
    assert_eq!(s.phase, Phase::LookupSource(1));
    s.step(SessionEvent::Looked(LookupOutcome::Unmatched));
    assert_eq!(s.phase, Phase::Failed(SyncError::NotFound(1)));
    s.step(SessionEvent::Answered(Answer::Yes));
    assert_eq!(s.phase, Phase::Failed(SyncError::NotFound(1)));
}

#[test]
fn lookup_errors_are_fatal() {
    let mut s = Session::new(names(&["x"]));
    s.step(SessionEvent::RepoFound(false));
    s.step(SessionEvent::Looked(LookupOutcome::Status(503)));
    assert_eq!(s.phase, Phase::Failed(SyncError::LookupFailed(0, 503)));
    let mut s = Session::new(names(&["x"]));
    s.step(SessionEvent::RepoFound(false));
    s.step(SessionEvent::Looked(LookupOutcome::Broken));
    assert_eq!(s.phase, Phase::Failed(SyncError::LookupBroken(0)));
}

fn planned_mixed() -> Session {
    let mut s = Session::new(names(&["yay", "vim"]));
    s.step(SessionEvent::RepoFound(false));
    s.step(SessionEvent::Looked(LookupOutcome::Matched));
    s.step(SessionEvent::InstalledFound(true));
    s.step(SessionEvent::RepoFound(true));
    s.step(SessionEvent::InstalledFound(false));
    s
}

#[test]
fn mixed_plan_runs_in_request_order() {
    let mut s = planned_mixed();
    assert_eq!(s.phase, Phase::Confirm);
    assert_eq!(s.kinds, vec![PackageKind::SourceBuild, PackageKind::BinaryRepo]);
    assert_eq!(s.installed, vec![true, false]);
    assert_eq!(
        s.plan_lines(),
        vec!["   yay (AUR)", "      warning: yay is up to date -- reinstalling", "   vim (repo)"]
    );
    s.step(SessionEvent::Answered(Answer::Yes));
    assert_eq!(s.phase, Phase::BuildSource(0));
    s.step(SessionEvent::JobEnded(JobEnd::Installed));
    assert_eq!(s.phase, Phase::SyncRepo(1));
    s.step(SessionEvent::Exited(ExitStatus::Success));
    assert_eq!(s.phase, Phase::Done);
}

#[test]
fn confirmation_answers() {
    let mut s = planned_mixed();
    s.step(SessionEvent::Answered(Answer::Unclear));
    assert_eq!(s.phase, Phase::Confirm);
    s.step(SessionEvent::Answered(Answer::No));
    assert_eq!(s.phase, Phase::Aborted);
    s.step(SessionEvent::Answered(Answer::Yes));
    assert_eq!(s.phase, Phase::Aborted);
}

#[test]
fn declined_install_aborts() {
    let mut s = Session::new(names(&["vim", "git"]));
    s.step(SessionEvent::RepoFound(true));
    s.step(SessionEvent::InstalledFound(false));
    s.step(SessionEvent::RepoFound(true));
    s.step(SessionEvent::InstalledFound(false));
    s.step(SessionEvent::Answered(Answer::Yes));
    s.step(SessionEvent::Exited(ExitStatus::Code(1)));
    assert_eq!(s.phase, Phase::Aborted);
    let mut t = planned_mixed();
    t.step(SessionEvent::Answered(Answer::Yes));
    t.step(SessionEvent::JobEnded(JobEnd::Declined));
    assert_eq!(t.phase, Phase::Aborted);
}

#[test]
fn install_and_build_failures_are_fatal() {
    let mut s = Session::new(names(&["vim"]));
    s.step(SessionEvent::RepoFound(true));
    s.step(SessionEvent::InstalledFound(false));
    s.step(SessionEvent::Answered(Answer::Yes));
    s.step(SessionEvent::Exited(ExitStatus::Code(2)));
    assert_eq!(s.phase, Phase::Failed(SyncError::InstallFailed(0, ExitStatus::Code(2))));
    let mut t = planned_mixed();
    t.step(SessionEvent::Answered(Answer::Yes));
    t.step(SessionEvent::JobEnded(JobEnd::Failed(JobError::EmptyPlan)));
    assert_eq!(t.phase, Phase::Failed(SyncError::Build(0, JobError::EmptyPlan)));
}

#[test]
fn editor_abort_moves_on() {
    let mut t = planned_mixed();
    t.step(SessionEvent::Answered(Answer::Yes));
    t.step(SessionEvent::JobEnded(JobEnd::Aborted));
    assert_eq!(t.phase, Phase::SyncRepo(1));
}

#[test]
fn empty_request_and_unexpected_events() {
    let s = Session::new(Vec::new());
    assert_eq!(s.phase, Phase::Failed(SyncError::NoPackages));
    let mut t = Session::new(names(&["a"]));
    t.step(SessionEvent::Answered(Answer::Yes));
    assert_eq!(t.phase, Phase::Failed(SyncError::UnexpectedEvent));
}

#[test]
fn fetch_only_flow() {
    let mut f = FetchSession::new(names(&["yay", "paru"]));
    assert_eq!(f.phase, FetchPhase::Lookup(0));
    f.step(FetchEvent::Looked(LookupOutcome::Matched));
    assert_eq!(f.phase, FetchPhase::CheckCache(0));
    f.step(FetchEvent::Present(true));
    assert_eq!(f.phase, FetchPhase::Extract(0));
    f.step(FetchEvent::Exited(ExitStatus::Success));
    assert_eq!(f.phase, FetchPhase::Replace(0));
    f.step(FetchEvent::Replaced(true));
    assert_eq!(f.phase, FetchPhase::Lookup(1));
    f.step(FetchEvent::Looked(LookupOutcome::Matched));
    f.step(FetchEvent::Present(false));
    assert_eq!(f.phase, FetchPhase::Download(1));
    f.step(FetchEvent::Fetched(FetchOutcome::Saved));
    f.step(FetchEvent::Exited(ExitStatus::Success));
    f.step(FetchEvent::Replaced(true));
    assert_eq!(f.phase, FetchPhase::Done);
}

#[test]
fn fetch_only_failures() {
    let mut f = FetchSession::new(names(&["nope"]));
    f.step(FetchEvent::Looked(LookupOutcome::Unmatched));
    assert_eq!(f.phase, FetchPhase::Failed(FetchError::NotFound(0)));
    let mut f = FetchSession::new(names(&["a"]));
    f.step(FetchEvent::Looked(LookupOutcome::Matched));
    f.step(FetchEvent::Present(false));
    f.step(FetchEvent::Fetched(FetchOutcome::Status(500)));
    assert_eq!(f.phase, FetchPhase::Failed(FetchError::DownloadFailed(0, 500)));
    let mut f = FetchSession::new(names(&["a"]));
    f.step(FetchEvent::Looked(LookupOutcome::Matched));
    f.step(FetchEvent::Present(true));
    f.step(FetchEvent::Exited(ExitStatus::NoCode));
    assert_eq!(f.phase, FetchPhase::Failed(FetchError::ExtractionFailed(0, ExitStatus::NoCode)));
    let mut f = FetchSession::new(names(&["a"]));
    f.step(FetchEvent::Looked(LookupOutcome::Matched));
    f.step(FetchEvent::Present(true));
    f.step(FetchEvent::Exited(ExitStatus::Success));
    f.step(FetchEvent::Replaced(false));
    assert_eq!(f.phase, FetchPhase::Failed(FetchError::ReplaceFailed(0)));
    assert_eq!(FetchSession::new(Vec::new()).phase, FetchPhase::Failed(FetchError::NoPackages));
}

use yaorust::job::{Event, Job, Stage};

/// Runs a build job for `name` with a cached snapshot, no recipe, the given
/// listing and outputs that all exist; returns the job's end and whether
/// the build ran.
fn run_job(name: &str, force: bool) -> (JobEnd, bool, Vec<String>) {
    let mut j = Job::new(name.to_string(), "/tmp/ws".to_string(), force);
    let mut built = false;
    let mut removed = Vec::new();
    loop {
        match j.stage {
            Stage::CheckCache | Stage::CheckLayout => j.step(Event::Present(true)),
            Stage::CheckRecipe => j.step(Event::Present(false)),
            Stage::Extract => j.step(Event::Exited(ExitStatus::Success)),
            Stage::ListArtifacts => j.step(Event::Listed(
                ExitStatus::Success,
                format!("/var/cache/makepkg/{name}-1-1-any.pkg.tar.zst\n"),
            )),
            Stage::RemoveOld => {
                removed = j.removal_paths();
                j.step(Event::Removed)
            }
            Stage::CheckOutputs | Stage::CheckBuilt => j.step(Event::Outputs(vec![true], vec![false])),
            Stage::Build => {
                built = true;
                j.step(Event::Exited(ExitStatus::Success))
            }
            Stage::Install => j.step(Event::Exited(ExitStatus::Success)),
            Stage::Finished(end) => return (end, built, removed),
            other => panic!("unexpected stage {:?}", other),
        }
    }
}

fn source_only_session() -> Session {
    let mut s = Session::new(names(&["paru"]));
    s.step(SessionEvent::RepoFound(false));
    s.step(SessionEvent::Looked(LookupOutcome::Matched));
    s.step(SessionEvent::InstalledFound(false));
    s.step(SessionEvent::Answered(Answer::Yes));
    assert_eq!(s.phase, Phase::BuildSource(0));
    s
}

#[test]
fn source_only_name_with_built_outputs_skips_build() {
    let mut s = source_only_session();
    let (end, built, removed) = run_job("paru", false);
    assert_eq!(end, JobEnd::Installed);
    assert!(!built);
    assert!(removed.is_empty());
    s.step(SessionEvent::JobEnded(end));
    assert_eq!(s.phase, Phase::Done);
}

#[test]
fn source_only_name_forced_removes_and_rebuilds() {
    let mut s = source_only_session();
    let (end, built, removed) = run_job("paru", true);
    assert_eq!(end, JobEnd::Installed);
    assert!(built);
    assert_eq!(removed, vec!["/var/cache/makepkg/paru-1-1-any.pkg.tar.zst", "/tmp/ws/paru/paru-1-1-any.pkg.tar.zst"]);
    s.step(SessionEvent::JobEnded(end));
    assert_eq!(s.phase, Phase::Done);
}
