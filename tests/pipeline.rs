use yaorust::job::{Event, ExitStatus, FetchOutcome, Job, JobEnd, JobError, Stage};
use yaorust::prompt::Answer;

const LISTING: &str = "/var/cache/makepkg/foo-1-1-x86_64.pkg.tar.zst\n/var/cache/makepkg/foo-docs-1-1-any.pkg.tar.zst\n";

fn job(force: bool) -> Job {
    Job::new("foo".to_string(), "/tmp/ws".to_string(), force)
}

/// Drives a job from the cache check to the listing, with a cached snapshot
/// and no recipe to look at.
fn listed(force: bool, listing: &str) -> Job {
    let mut j = job(force);
    assert_eq!(j.stage, Stage::CheckCache);
    j.step(Event::Present(true));
    assert_eq!(j.stage, Stage::Extract);
    j.step(Event::Exited(ExitStatus::Success));
    assert_eq!(j.stage, Stage::CheckLayout);
    j.step(Event::Present(true));
    assert_eq!(j.stage, Stage::CheckRecipe);
    j.step(Event::Present(false));
    assert_eq!(j.stage, Stage::ListArtifacts);
    j.step(Event::Listed(ExitStatus::Success, listing.to_string()));
    j
}

#[test]
fn cached_snapshot_is_not_downloaded() {
    let mut j = job(false);
    assert_eq!(j.archive_path("/c"), "/c/foo.tar.gz");
    j.step(Event::Present(true));
    assert_eq!(j.stage, Stage::Extract);
    let second = job(true);
    assert_eq!(second.archive_path("/c"), j.archive_path("/c"));
}

#[test]
fn missing_snapshot_is_downloaded_once() {
    let mut j = job(false);
    j.step(Event::Present(false));
    assert_eq!(j.stage, Stage::Download);
    j.step(Event::Fetched(FetchOutcome::Saved));
    assert_eq!(j.stage, Stage::Extract);
}

#[test]
fn download_failures() {
    let mut j = job(false);
    j.step(Event::Present(false));
    j.step(Event::Fetched(FetchOutcome::Status(404)));
    assert_eq!(j.stage, Stage::Finished(JobEnd::Failed(JobError::DownloadFailed(404))));
    let mut j = job(false);
    j.step(Event::Present(false));
    j.step(Event::Fetched(FetchOutcome::Broken));
    assert_eq!(j.stage, Stage::Finished(JobEnd::Failed(JobError::DownloadBroken)));
}

#[test]
fn extraction_and_layout_failures() {
    let mut j = job(false);
    j.step(Event::Present(true));
    j.step(Event::Exited(ExitStatus::Code(1)));
    assert_eq!(j.stage, Stage::Finished(JobEnd::Failed(JobError::ExtractionFailed(ExitStatus::Code(1)))));
    let mut j = job(false);
    j.step(Event::Present(true));
    j.step(Event::Exited(ExitStatus::Success));
    j.step(Event::Present(false));
    assert_eq!(j.stage, Stage::Finished(JobEnd::Failed(JobError::BadLayout)));
}

#[test]
fn recipe_viewing_paths() {
    let mut j = job(false);
    j.step(Event::Present(true));
    j.step(Event::Exited(ExitStatus::Success));
    j.step(Event::Present(true));
    assert_eq!(j.recipe_path(), "/tmp/ws/foo/PKGBUILD");
    j.step(Event::Present(true));
    assert_eq!(j.stage, Stage::AskView);
    j.step(Event::Answered(Answer::Unclear));
    assert_eq!(j.stage, Stage::AskView);
    j.step(Event::Answered(Answer::Yes));
    assert_eq!(j.stage, Stage::OpenEditor);
    j.step(Event::Exited(ExitStatus::Success));
    assert_eq!(j.stage, Stage::ListArtifacts);

    let mut k = job(false);
    k.step(Event::Present(true));
    k.step(Event::Exited(ExitStatus::Success));
    k.step(Event::Present(true));
    k.step(Event::Present(true));
    k.step(Event::Answered(Answer::Yes));
    k.step(Event::Exited(ExitStatus::Code(2)));
    assert_eq!(k.stage, Stage::Finished(JobEnd::Aborted));

    let mut m = job(false);
    m.step(Event::Present(true));
    m.step(Event::Exited(ExitStatus::Success));
    m.step(Event::Present(true));
    m.step(Event::Present(true));
    m.step(Event::Answered(Answer::No));
    assert_eq!(m.stage, Stage::ListArtifacts);
}

#[test]
fn empty_listing_is_fatal() {
    let j = listed(false, "\n  \n");
    assert_eq!(j.stage, Stage::Finished(JobEnd::Failed(JobError::EmptyPlan)));
    let j = listed(true, "");
    assert_eq!(j.stage, Stage::Finished(JobEnd::Failed(JobError::EmptyPlan)));
}

#[test]
fn failed_listing_is_fatal() {
    let mut j = job(false);
    j.step(Event::Present(true));
    j.step(Event::Exited(ExitStatus::Success));
    j.step(Event::Present(true));
    j.step(Event::Present(false));
    j.step(Event::Listed(ExitStatus::Code(4), LISTING.to_string()));
    assert_eq!(j.stage, Stage::Finished(JobEnd::Failed(JobError::ListFailed(ExitStatus::Code(4)))));
}

#[test]
fn existing_outputs_skip_the_build() {
    let mut j = listed(false, LISTING);
    assert_eq!(j.stage, Stage::CheckOutputs);
    assert_eq!(j.targets.len(), 2);
    j.step(Event::Outputs(vec![true, true], vec![false, false]));
    assert_eq!(j.stage, Stage::Install);
    assert_eq!(j.install_set(), j.targets);
    j.step(Event::Exited(ExitStatus::Success));
    assert_eq!(j.stage, Stage::Finished(JobEnd::Installed));
}

#[test]
fn partly_missing_outputs_build() {
    let mut j = listed(false, LISTING);
    j.step(Event::Outputs(vec![true, false], vec![false, false]));
    assert_eq!(j.stage, Stage::Build);
}

#[test]
fn force_removes_outputs_then_builds() {
    let mut j = listed(true, LISTING);
    assert_eq!(j.stage, Stage::RemoveOld);
    assert_eq!(
        j.removal_paths(),
        vec![
            "/var/cache/makepkg/foo-1-1-x86_64.pkg.tar.zst",
            "/tmp/ws/foo/foo-1-1-x86_64.pkg.tar.zst",
            "/var/cache/makepkg/foo-docs-1-1-any.pkg.tar.zst",
            "/tmp/ws/foo/foo-docs-1-1-any.pkg.tar.zst",
        ]
    );
    j.step(Event::Removed);
    assert_eq!(j.stage, Stage::Build);
    j.step(Event::Exited(ExitStatus::Success));
    assert_eq!(j.stage, Stage::CheckBuilt);
    j.step(Event::Outputs(vec![true, true], vec![false, false]));
    assert_eq!(j.stage, Stage::Install);
    j.step(Event::Exited(ExitStatus::Success));
    assert_eq!(j.stage, Stage::Finished(JobEnd::Installed));
}

#[test]
fn build_failure_is_fatal() {
    let mut j = listed(true, LISTING);
    j.step(Event::Removed);
    j.step(Event::Exited(ExitStatus::Code(1)));
    assert_eq!(j.stage, Stage::Finished(JobEnd::Failed(JobError::BuildFailed(ExitStatus::Code(1)))));
}

#[test]
fn stray_outputs_are_relocated_and_missing_ones_dropped() {
    let mut j = listed(false, LISTING);
    j.step(Event::Outputs(vec![false, false], vec![false, false]));
    j.step(Event::Exited(ExitStatus::Success));
    assert_eq!(j.local_copies(), vec!["/tmp/ws/foo/foo-1-1-x86_64.pkg.tar.zst", "/tmp/ws/foo/foo-docs-1-1-any.pkg.tar.zst"]);
    j.step(Event::Outputs(vec![false, false], vec![true, false]));
    assert_eq!(j.stage, Stage::Relocate);
    assert_eq!(
        j.moves(),
        vec![(
            "/tmp/ws/foo/foo-1-1-x86_64.pkg.tar.zst".to_string(),
            "/var/cache/makepkg/foo-1-1-x86_64.pkg.tar.zst".to_string()
        )]
    );
    j.step(Event::Relocated(true));
    assert_eq!(j.stage, Stage::Install);
    assert_eq!(j.install_set(), vec!["/var/cache/makepkg/foo-1-1-x86_64.pkg.tar.zst"]);
}

#[test]
fn failed_relocation_is_fatal() {
    let mut j = listed(false, LISTING);
    j.step(Event::Outputs(vec![false, true], vec![false, false]));
    j.step(Event::Exited(ExitStatus::Success));
    j.step(Event::Outputs(vec![false, true], vec![true, false]));
    j.step(Event::Relocated(false));
    assert_eq!(j.stage, Stage::Finished(JobEnd::Failed(JobError::RelocateFailed)));
}

#[test]
fn no_surviving_outputs_is_fatal() {
    let mut j = listed(false, LISTING);
    j.step(Event::Outputs(vec![false, false], vec![false, false]));
    j.step(Event::Exited(ExitStatus::Success));
    j.step(Event::Outputs(vec![false, false], vec![false, false]));
    assert_eq!(j.stage, Stage::Finished(JobEnd::Failed(JobError::NoArtifactsProduced)));
}

#[test]
fn install_outcomes() {
    let run = |st: ExitStatus| {
        let mut j = listed(false, LISTING);
        j.step(Event::Outputs(vec![true, true], vec![false, false]));
        j.step(Event::Exited(st));
        j.stage
    };
    assert_eq!(run(ExitStatus::Success), Stage::Finished(JobEnd::Installed));
    assert_eq!(run(ExitStatus::Code(1)), Stage::Finished(JobEnd::Declined));
    assert_eq!(run(ExitStatus::Code(3)), Stage::Finished(JobEnd::Failed(JobError::InstallFailed(ExitStatus::Code(3)))));
    assert_eq!(run(ExitStatus::NoCode), Stage::Finished(JobEnd::Failed(JobError::InstallFailed(ExitStatus::NoCode))));
}

#[test]
fn unexpected_events_fail_and_finished_jobs_stay() {
    let mut j = job(false);
    j.step(Event::Removed);
    assert_eq!(j.stage, Stage::Finished(JobEnd::Failed(JobError::UnexpectedEvent)));
    j.step(Event::Present(true));
    assert_eq!(j.stage, Stage::Finished(JobEnd::Failed(JobError::UnexpectedEvent)));
    let mut k = listed(false, LISTING);
    k.step(Event::Outputs(vec![true], vec![true]));
    assert_eq!(k.stage, Stage::Finished(JobEnd::Failed(JobError::UnexpectedEvent)));
}

#[test]
fn exit_status_from_parts() {
    assert_eq!(ExitStatus::from_parts(true, Some(0)), ExitStatus::Success);
    assert_eq!(ExitStatus::from_parts(false, Some(1)), ExitStatus::Code(1));
    assert_eq!(ExitStatus::from_parts(false, None), ExitStatus::NoCode);
}

#[test]
fn build_dir_and_local_copy() {
    let j = job(false);
    assert_eq!(j.build_dir(), "/tmp/ws/foo");
    assert_eq!(j.local_copy("/var/cache/makepkg/foo-1-1-any.pkg.tar.zst"), "/tmp/ws/foo/foo-1-1-any.pkg.tar.zst");
}
