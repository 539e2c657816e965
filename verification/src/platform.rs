//! Platform targets and the artifact each one selects.

use vstd::prelude::*;
use crate::error::UpdateError;

verus! {

/// The operating systems an artifact is published for.
///
/// Exactly one target per supported OS; an unsupported OS is a hard failure,
/// never a default target.
#[derive(Clone, Copy, Debug, PartialEq, Eq, Structural)]
pub enum PlatformTarget {
    Windows,
    MacOs,
    Linux,
}

/// The target an OS name denotes, if any.
pub open spec fn spec_target_for_os(os: Seq<char>) -> Option<PlatformTarget> {
    if os == "windows"@ {
        Some(PlatformTarget::Windows)
    } else if os == "macos"@ {
        Some(PlatformTarget::MacOs)
    } else if os == "linux"@ {
        Some(PlatformTarget::Linux)
    } else {
        None
    }
}

/// The artifact filename published for a target.
pub open spec fn spec_artifact_name(t: PlatformTarget) -> Seq<char> {
    match t {
        PlatformTarget::Windows => "mockstruct-win.exe"@,
        PlatformTarget::MacOs => "mockstruct-macos"@,
        PlatformTarget::Linux => "mockstruct-linux"@,
    }
}

fn str_eq(a: &str, b: &str) -> (r: bool)
    ensures
        r <==> a@ == b@,
{
    let na = a.unicode_len();
    let nb = b.unicode_len();
    if na != nb {
        return false;
    }
    let mut i: usize = 0;
    while i < na
        invariant
            0 <= i <= na,
            na == a@.len(),
            na == b@.len(),
            forall|m: int| 0 <= m < i ==> a@[m] == b@[m],
        decreases na - i,
    {
        if a.get_char(i) != b.get_char(i) {
            return false;
        }
        i += 1;
    }
    proof {
        assert(a@ =~= b@);
    }
    true
}

/// Maps the running OS's name to its platform target.
///
/// Fails with `UnsupportedPlatform` on every other name; the caller must
/// raise that before any network or filesystem access.
pub fn target_for_os(os: &str) -> (r: Result<PlatformTarget, UpdateError>)
    ensures
        (match r {
            Ok(t) => spec_target_for_os(os@) == Some(t),
            Err(e) => spec_target_for_os(os@) is None && e == UpdateError::UnsupportedPlatform,
        }),
{
    if str_eq(os, "windows") {
        Ok(PlatformTarget::Windows)
    } else if str_eq(os, "macos") {
        Ok(PlatformTarget::MacOs)
    } else if str_eq(os, "linux") {
        Ok(PlatformTarget::Linux)
    } else {
        Err(UpdateError::UnsupportedPlatform)
    }
}

/// The artifact filename for a target.
pub fn artifact_name(t: &PlatformTarget) -> (r: String)
    ensures
        r@ == spec_artifact_name(*t),
{
    match t {
        PlatformTarget::Windows => String::from_str("mockstruct-win.exe"),
        PlatformTarget::MacOs => String::from_str("mockstruct-macos"),
        PlatformTarget::Linux => String::from_str("mockstruct-linux"),
    }
}

} // verus!
