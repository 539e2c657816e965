//! The startup state machine gating the downstream application.

use vstd::prelude::*;
use crate::decision::Decision;
use crate::decision::spec_decide;
use crate::inspect::LocalVersion;
use crate::version::SemanticVersion;

verus! {

/// The states of the pre-launch sequence.
#[derive(Clone, Copy, Debug, PartialEq, Eq, Structural)]
pub enum LauncherState {
    Start,
    Checking,
    Fetching,
    PermissionFix,
    Ready,
    Aborted,
}

/// What the surrounding program reports back after performing a step.
#[derive(Clone, Copy, Debug, PartialEq, Eq, Structural)]
pub enum LauncherEvent {
    /// The startup sequence begins.
    Begin,
    /// The staleness check concluded with a decision.
    Decided(Decision),
    /// The staleness check itself failed: the registry could not be read.
    CheckFailed,
    /// The artifact was downloaded and written.
    DownloadSucceeded,
    /// The artifact download or write failed.
    DownloadFailed,
    /// Execute permission was set (a no-op step on Windows).
    PermissionSet,
    /// Execute permission could not be set.
    PermissionFailed,
}

/// The transition relation. An event that does not belong to the current
/// state changes nothing; in particular `Ready` and `Aborted` are terminal.
pub open spec fn spec_step(s: LauncherState, e: LauncherEvent) -> LauncherState {
    match (s, e) {
        (LauncherState::Start, LauncherEvent::Begin) => LauncherState::Checking,
        (LauncherState::Checking, LauncherEvent::Decided(d)) => if d == Decision::Current {
            LauncherState::PermissionFix
        } else {
            LauncherState::Fetching
        },
        (LauncherState::Checking, LauncherEvent::CheckFailed) => LauncherState::Aborted,
        (LauncherState::Fetching, LauncherEvent::DownloadSucceeded) => LauncherState::PermissionFix,
        (LauncherState::Fetching, LauncherEvent::DownloadFailed) => LauncherState::Aborted,
        (LauncherState::PermissionFix, LauncherEvent::PermissionSet) => LauncherState::Ready,
        (LauncherState::PermissionFix, LauncherEvent::PermissionFailed) => LauncherState::Aborted,
        _ => s,
    }
}

/// Advances the machine by one observed event.
pub fn step(s: &LauncherState, e: &LauncherEvent) -> (r: LauncherState)
    ensures
        r == spec_step(*s, *e),
{
    match (s, e) {
        (LauncherState::Start, LauncherEvent::Begin) => LauncherState::Checking,
        (LauncherState::Checking, LauncherEvent::Decided(d)) => if *d == Decision::Current {
            LauncherState::PermissionFix
        } else {
            LauncherState::Fetching
        },
        (LauncherState::Checking, LauncherEvent::CheckFailed) => LauncherState::Aborted,
        (LauncherState::Fetching, LauncherEvent::DownloadSucceeded) => LauncherState::PermissionFix,
        (LauncherState::Fetching, LauncherEvent::DownloadFailed) => LauncherState::Aborted,
        (LauncherState::PermissionFix, LauncherEvent::PermissionSet) => LauncherState::Ready,
        (LauncherState::PermissionFix, LauncherEvent::PermissionFailed) => LauncherState::Aborted,
        _ => *s,
    }
}

/// `Ready` and `Aborted` are terminal: once the sequence has succeeded or
/// failed, no further event moves it. A fault surfaced before `Ready`
/// therefore keeps the downstream application from ever launching.
pub proof fn lemma_terminal_states(e: LauncherEvent)
    ensures
        spec_step(LauncherState::Aborted, e) == LauncherState::Aborted,
        spec_step(LauncherState::Ready, e) == LauncherState::Ready,
{
}

/// The machine enters `Fetching` only from `Checking`, and only on a
/// decision that demands a fetch: a `Current` binary is never re-downloaded.
pub proof fn lemma_fetch_only_when_decided(s: LauncherState, e: LauncherEvent)
    ensures
        spec_step(s, e) == LauncherState::Fetching ==> s == LauncherState::Fetching || (
        s == LauncherState::Checking && (e == LauncherEvent::Decided(Decision::MissingMustFetch)
            || e == LauncherEvent::Decided(Decision::StaleMustFetch))),
{
}

/// The library half of the missing-binary startup: whatever is known
/// locally or remotely, an absent binary decides a fetch, and once the
/// download and the permission step are reported successful the machine
/// reaches `Ready`, so the downstream application may launch.
pub proof fn lemma_missing_binary_reaches_ready(local: LocalVersion, remote: SemanticVersion)
    ensures
        spec_decide(false, local, remote) == Decision::MissingMustFetch,
        spec_step(
            spec_step(
                spec_step(
                    spec_step(LauncherState::Start, LauncherEvent::Begin),
                    LauncherEvent::Decided(Decision::MissingMustFetch),
                ),
                LauncherEvent::DownloadSucceeded,
            ),
            LauncherEvent::PermissionSet,
        ) == LauncherState::Ready,
{
}

/// The library half of the current-binary startup: a local version equal to
/// the remote one decides `Current`, which never enters `Fetching` — so no
/// artifact download is asked for — yet still passes through the permission
/// step before `Ready`.
pub proof fn lemma_current_binary_skips_download(v: SemanticVersion)
    ensures
        spec_decide(true, LocalVersion::Known(v), v) == Decision::Current,
        spec_step(LauncherState::Checking, LauncherEvent::Decided(Decision::Current))
            == LauncherState::PermissionFix,
        spec_step(LauncherState::Checking, LauncherEvent::Decided(Decision::Current))
            != LauncherState::Fetching,
        spec_step(LauncherState::PermissionFix, LauncherEvent::PermissionSet)
            == LauncherState::Ready,
{
}

} // verus!
