//! Errors of the update protocol.

use vstd::prelude::*;
use crate::version::spec_dec;
use crate::version::decimal_string;

verus! {

/// Why the release registry could not be used.
#[derive(Clone, Copy, Debug, PartialEq, Eq, Structural)]
pub enum RegistryFault {
    /// The endpoint answered with a non-success HTTP status.
    Status(u16),
    /// The body was not a JSON object carrying a string `tag_name` field.
    MalformedBody,
}

/// A fatal fault of the pre-launch sequence.
///
/// Every fault surfaced before the launcher reaches its ready state prevents
/// the downstream application from starting; none is retried automatically.
#[derive(Clone, Copy, Debug, PartialEq, Eq, Structural)]
pub enum UpdateError {
    /// The running operating system has no artifact; raised before any I/O.
    UnsupportedPlatform,
    /// A version string could not be parsed.
    InvalidVersionFormat,
    /// The release registry failed or answered malformed data.
    RegistryError(RegistryFault),
    /// The artifact endpoint answered with a non-success HTTP status.
    DownloadFailed(u16),
    /// Directory creation, file write or permission setting failed.
    IoFailure,
}

/// The human-readable message of a fault.
pub open spec fn spec_describe(e: UpdateError) -> Seq<char> {
    match e {
        UpdateError::UnsupportedPlatform => "Unsupported OS"@,
        UpdateError::InvalidVersionFormat => "Invalid version format"@,
        UpdateError::RegistryError(RegistryFault::Status(s)) => "Registry request failed: "@
            + spec_dec(s as nat),
        UpdateError::RegistryError(RegistryFault::MalformedBody) =>
            "Invalid response: missing tag_name"@,
        UpdateError::DownloadFailed(s) => "Download failed: "@ + spec_dec(s as nat),
        UpdateError::IoFailure => "File system operation failed"@,
    }
}

impl UpdateError {
    /// Renders the fault for the process's error-reporting channel.
    pub fn describe(&self) -> (r: String)
        ensures
            r@ == spec_describe(*self),
    {
        match self {
            UpdateError::UnsupportedPlatform => String::from_str("Unsupported OS"),
            UpdateError::InvalidVersionFormat => String::from_str("Invalid version format"),
            UpdateError::RegistryError(RegistryFault::Status(s)) => {
                let mut m = String::from_str("Registry request failed: ");
                let num = decimal_string(*s as u64);
                m.append(num.as_str());
                m
            },
            UpdateError::RegistryError(RegistryFault::MalformedBody) => String::from_str(
                "Invalid response: missing tag_name",
            ),
            UpdateError::DownloadFailed(s) => {
                let mut m = String::from_str("Download failed: ");
                let num = decimal_string(*s as u64);
                m.append(num.as_str());
                m
            },
            UpdateError::IoFailure => String::from_str("File system operation failed"),
        }
    }
}

} // verus!
