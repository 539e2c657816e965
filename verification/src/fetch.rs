//! The fetch plan: endpoints, timeouts, filesystem layout, download outcome.

use vstd::prelude::*;
use crate::error::UpdateError;
use crate::platform::PlatformTarget;
use crate::platform::spec_artifact_name;
use crate::platform::artifact_name;
use crate::registry::is_success_status;
use crate::registry::status_is_success;

verus! {

/// Seconds allowed for the registry lookup.
pub const REGISTRY_TIMEOUT_SECS: u64 = 10;

/// Seconds allowed for the artifact download.
pub const DOWNLOAD_TIMEOUT_SECS: u64 = 300;

/// The registry's "latest release" endpoint for this project.
pub fn registry_url() -> (r: String)
    ensures
        r@ == "https://api.github.com/repos/FANNYMU/MockStruct/releases/latest"@,
{
    String::from_str("https://api.github.com/repos/FANNYMU/MockStruct/releases/latest")
}

/// The User-Agent header value the registry requires.
pub fn user_agent() -> (r: String)
    ensures
        r@ == "mockstructgui"@,
{
    String::from_str("mockstructgui")
}

/// The deterministic download URL: latest release, platform-named asset.
pub open spec fn spec_download_url(t: PlatformTarget) -> Seq<char> {
    "https://github.com/FANNYMU/MockStruct/releases/latest/download/"@ + spec_artifact_name(t)
}

/// Builds the download URL for a target.
pub fn download_url(t: &PlatformTarget) -> (r: String)
    ensures
        r@ == spec_download_url(*t),
{
    let mut url = String::from_str(
        "https://github.com/FANNYMU/MockStruct/releases/latest/download/",
    );
    let name = artifact_name(t);
    url.append(name.as_str());
    url
}

/// The directory, relative to the working directory, that holds the binary
/// and its sidecar.
pub fn bin_dir_name() -> (r: String)
    ensures
        r@ == "./bin"@,
{
    String::from_str("./bin")
}

/// The sidecar file recording the installed binary's version.
pub fn sidecar_name() -> (r: String)
    ensures
        r@ == "version.txt"@,
{
    String::from_str("version.txt")
}

/// What the artifact endpoint's HTTP status means: success accepts the
/// body, anything else fails with that status.
pub fn download_outcome(status: u16) -> (r: Result<(), UpdateError>)
    ensures
        r is Ok <==> is_success_status(status),
        r matches Err(e) ==> e == UpdateError::DownloadFailed(status),
{
    if status_is_success(status) {
        Ok(())
    } else {
        Err(UpdateError::DownloadFailed(status))
    }
}

} // verus!
