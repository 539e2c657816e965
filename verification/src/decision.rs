//! The staleness decision: combine existence, local and remote version.

use vstd::prelude::*;
use crate::error::UpdateError;
use crate::inspect::LocalVersion;
use crate::version::SemanticVersion;
use crate::version::spec_lt;

verus! {

/// Whether the installed binary must be replaced.
#[derive(Clone, Copy, Debug, PartialEq, Eq, Structural)]
pub enum Decision {
    /// No binary is installed; it must be fetched.
    MissingMustFetch,
    /// The binary is older than the latest release, or its version is
    /// unknown; it must be fetched.
    StaleMustFetch,
    /// The binary is at least as new as the latest release.
    Current,
}

/// The staleness rule, a pure function of what was observed.
pub open spec fn spec_decide(exists: bool, local: LocalVersion, remote: SemanticVersion) -> Decision {
    if !exists {
        Decision::MissingMustFetch
    } else {
        match local {
            LocalVersion::Unknown => Decision::StaleMustFetch,
            LocalVersion::Known(l) => if spec_lt(l, remote) {
                Decision::StaleMustFetch
            } else {
                Decision::Current
            },
        }
    }
}

/// Decides whether the binary must be replaced.
///
/// Absence decides by itself; an unknown local version is assumed outdated;
/// otherwise the versions are compared by semantic-version precedence.
pub fn decide(exists: bool, local: &LocalVersion, remote: &SemanticVersion) -> (r: Decision)
    ensures
        r == spec_decide(exists, *local, *remote),
{
    if !exists {
        Decision::MissingMustFetch
    } else {
        match local {
            LocalVersion::Unknown => Decision::StaleMustFetch,
            LocalVersion::Known(l) => if l.lt(remote) {
                Decision::StaleMustFetch
            } else {
                Decision::Current
            },
        }
    }
}

/// The decision when remote resolution may itself have failed. The rules
/// apply in order: absence decides, then an unknown local version decides,
/// and only then does the remote answer matter.
pub open spec fn spec_decide_with_remote(
    exists: bool,
    local: LocalVersion,
    remote: Result<SemanticVersion, UpdateError>,
) -> Result<Decision, UpdateError> {
    if !exists {
        Ok(Decision::MissingMustFetch)
    } else if local is Unknown {
        Ok(Decision::StaleMustFetch)
    } else {
        match remote {
            Ok(rv) => Ok(spec_decide(true, local, rv)),
            Err(e) => Err(e),
        }
    }
}

/// Decides, treating a failed remote resolution as a hard failure only
/// where the remote answer is needed.
///
/// A missing binary decides without the remote answer, mirroring the
/// short-circuit that skips the registry lookup entirely; an unknown local
/// version is already a fetch, whatever the registry said or failed to say.
/// Only with a known local version does a remote failure propagate — and
/// then unchanged: it is never read as `Current`.
pub fn decide_with_remote(
    exists: bool,
    local: &LocalVersion,
    remote: &Result<SemanticVersion, UpdateError>,
) -> (r: Result<Decision, UpdateError>)
    ensures
        r == spec_decide_with_remote(exists, *local, *remote),
{
    if !exists {
        Ok(Decision::MissingMustFetch)
    } else {
        match local {
            LocalVersion::Unknown => Ok(Decision::StaleMustFetch),
            LocalVersion::Known(_) => match remote {
                Ok(rv) => Ok(decide(true, local, rv)),
                Err(e) => Err(*e),
            },
        }
    }
}

/// An installed binary whose version is unknown is always fetched, whatever
/// the remote version: no ordering comparison is needed or attempted.
pub proof fn lemma_unknown_forces_fetch(remote: SemanticVersion)
    ensures
        spec_decide(true, LocalVersion::Unknown, remote) == Decision::StaleMustFetch,
{
}

/// A registry failure seen while a binary of known version is installed
/// propagates as that failure; and whatever the local version, a registry
/// failure is never silently read as `Current`.
pub proof fn lemma_registry_failure_propagates(local: LocalVersion, e: UpdateError)
    ensures
        local is Known ==> spec_decide_with_remote(true, local, Err(e)) == Err::<
            Decision,
            UpdateError,
        >(e),
        spec_decide_with_remote(true, local, Err(e)) != Ok::<Decision, UpdateError>(
            Decision::Current,
        ),
{
}

} // verus!
