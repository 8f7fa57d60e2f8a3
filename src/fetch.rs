//! The fetch-only command: for each requested name, check that the
//! source-build repository has it, fetch its snapshot through the cache and
//! unpack its recipe tree into a directory of that name.
use vstd::prelude::*;
use crate::job::{ExitStatus, FetchOutcome};
use crate::session::LookupOutcome;

verus! {

/// Why a fetch-only invocation failed; the index is that of the name.
#[derive(Clone, Copy, Debug, PartialEq, Eq, Structural)]
pub enum FetchError {
    NoPackages,
    NotFound(usize),
    LookupFailed(usize, u16),
    LookupBroken(usize),
    DownloadFailed(usize, u16),
    DownloadBroken(usize),
    ExtractionFailed(usize, ExitStatus),
    /// The unpacked tree could not replace the directory of that name.
    ReplaceFailed(usize),
    UnexpectedEvent,
}

/// The work the caller is to do next for name `i`.
#[derive(Clone, Copy, Debug, PartialEq, Eq, Structural)]
pub enum FetchPhase {
    /// Look the name up. `Looked`.
    Lookup(usize),
    /// Does the cached snapshot exist? `Present`.
    CheckCache(usize),
    /// Download the snapshot into the cache. `Fetched`.
    Download(usize),
    /// Unpack the snapshot into a scratch directory. `Exited`.
    Extract(usize),
    /// Replace the directory of the name with the unpacked tree. `Replaced`.
    Replace(usize),
    Done,
    Failed(FetchError),
}

/// What the caller reports after doing the work of a phase.
#[derive(Clone, Copy, Debug, PartialEq, Eq, Structural)]
pub enum FetchEvent {
    Looked(LookupOutcome),
    Present(bool),
    Fetched(FetchOutcome),
    Exited(ExitStatus),
    Replaced(bool),
}

/// The phase after phase `p` on event `e`, for `n` requested names.
pub open spec fn next_fetch(n: nat, p: FetchPhase, e: FetchEvent) -> FetchPhase {
    match p {
        FetchPhase::Lookup(i) => match e {
            FetchEvent::Looked(LookupOutcome::Matched) => FetchPhase::CheckCache(i),
            FetchEvent::Looked(LookupOutcome::Unmatched) => FetchPhase::Failed(FetchError::NotFound(i)),
            FetchEvent::Looked(LookupOutcome::Status(c)) => FetchPhase::Failed(
                FetchError::LookupFailed(i, c),
            ),
            FetchEvent::Looked(LookupOutcome::Broken) => FetchPhase::Failed(FetchError::LookupBroken(i)),
            _ => FetchPhase::Failed(FetchError::UnexpectedEvent),
        },
        FetchPhase::CheckCache(i) => match e {
            FetchEvent::Present(true) => FetchPhase::Extract(i),
            FetchEvent::Present(false) => FetchPhase::Download(i),
            _ => FetchPhase::Failed(FetchError::UnexpectedEvent),
        },
        FetchPhase::Download(i) => match e {
            FetchEvent::Fetched(FetchOutcome::Saved) => FetchPhase::Extract(i),
            FetchEvent::Fetched(FetchOutcome::Status(c)) => FetchPhase::Failed(
                FetchError::DownloadFailed(i, c),
            ),
            FetchEvent::Fetched(FetchOutcome::Broken) => FetchPhase::Failed(
                FetchError::DownloadBroken(i),
            ),
            _ => FetchPhase::Failed(FetchError::UnexpectedEvent),
        },
        FetchPhase::Extract(i) => match e {
            FetchEvent::Exited(ExitStatus::Success) => FetchPhase::Replace(i),
            FetchEvent::Exited(st) => FetchPhase::Failed(FetchError::ExtractionFailed(i, st)),
            _ => FetchPhase::Failed(FetchError::UnexpectedEvent),
        },
        FetchPhase::Replace(i) => match e {
            FetchEvent::Replaced(true) => if i + 1 < n {
                FetchPhase::Lookup((i + 1) as usize)
            } else {
                FetchPhase::Done
            },
            FetchEvent::Replaced(false) => FetchPhase::Failed(FetchError::ReplaceFailed(i)),
            _ => FetchPhase::Failed(FetchError::UnexpectedEvent),
        },
        FetchPhase::Done | FetchPhase::Failed(_) => p,
    }
}

/// A fetch-only invocation over the requested names.
pub struct FetchSession {
    pub names: Vec<String>,
    pub phase: FetchPhase,
}

impl FetchSession {
    /// An invocation for `names`; it fails at once when no name is given.
    pub fn new(names: Vec<String>) -> (r: FetchSession)
        ensures
            r.names@ == names@,
            r.phase == (if names@.len() == 0 {
                FetchPhase::Failed(FetchError::NoPackages)
            } else {
                FetchPhase::Lookup(0)
            }),
    {
        let phase = if names.len() == 0 {
            FetchPhase::Failed(FetchError::NoPackages)
        } else {
            FetchPhase::Lookup(0)
        };
        FetchSession { names, phase }
    }

    /// Advances the invocation on the report `e` of the current phase's work.
    pub fn step(&mut self, e: FetchEvent)
        ensures
            final(self).names@ == old(self).names@,
            final(self).phase == next_fetch(old(self).names@.len(), old(self).phase, e),
    {
        let n = self.names.len();
        self.phase = match self.phase {
            FetchPhase::Lookup(i) => match e {
                FetchEvent::Looked(LookupOutcome::Matched) => FetchPhase::CheckCache(i),
                FetchEvent::Looked(LookupOutcome::Unmatched) => FetchPhase::Failed(
                    FetchError::NotFound(i),
                ),
                FetchEvent::Looked(LookupOutcome::Status(c)) => FetchPhase::Failed(
                    FetchError::LookupFailed(i, c),
                ),
                FetchEvent::Looked(LookupOutcome::Broken) => FetchPhase::Failed(
                    FetchError::LookupBroken(i),
                ),
                _ => FetchPhase::Failed(FetchError::UnexpectedEvent),
            },
            FetchPhase::CheckCache(i) => match e {
                FetchEvent::Present(true) => FetchPhase::Extract(i),
                FetchEvent::Present(false) => FetchPhase::Download(i),
                _ => FetchPhase::Failed(FetchError::UnexpectedEvent),
            },
            FetchPhase::Download(i) => match e {
                FetchEvent::Fetched(FetchOutcome::Saved) => FetchPhase::Extract(i),
                FetchEvent::Fetched(FetchOutcome::Status(c)) => FetchPhase::Failed(
                    FetchError::DownloadFailed(i, c),
                ),
                FetchEvent::Fetched(FetchOutcome::Broken) => FetchPhase::Failed(
                    FetchError::DownloadBroken(i),
                ),
                _ => FetchPhase::Failed(FetchError::UnexpectedEvent),
            },
            FetchPhase::Extract(i) => match e {
                FetchEvent::Exited(ExitStatus::Success) => FetchPhase::Replace(i),
                FetchEvent::Exited(st) => FetchPhase::Failed(FetchError::ExtractionFailed(i, st)),
                _ => FetchPhase::Failed(FetchError::UnexpectedEvent),
            },
            FetchPhase::Replace(i) => match e {
                FetchEvent::Replaced(true) => if n > 0 && i < n - 1 {
                    FetchPhase::Lookup(i + 1)
                } else {
                    FetchPhase::Done
                },
                FetchEvent::Replaced(false) => FetchPhase::Failed(FetchError::ReplaceFailed(i)),
                _ => FetchPhase::Failed(FetchError::UnexpectedEvent),
            },
            FetchPhase::Done => FetchPhase::Done,
            FetchPhase::Failed(f) => FetchPhase::Failed(f),
        };
    }
}

/// A second fetch of a name whose snapshot is cached goes straight to
/// unpacking, with no download.
pub proof fn lemma_cached_fetch_skips_download(n: nat, i: usize)
    ensures
        next_fetch(n, FetchPhase::CheckCache(i), FetchEvent::Present(true)) == FetchPhase::Extract(i),
{
}

} // verus!
