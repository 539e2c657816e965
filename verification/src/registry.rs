//! Interpretation of the release registry's answer.

use vstd::prelude::*;
use crate::error::RegistryFault;
use crate::error::UpdateError;
use crate::version::SemanticVersion;
use crate::version::spec_tag_version;
use crate::version::parse_tag;

verus! {

/// A success HTTP status.
pub open spec fn is_success_status(status: u16) -> bool {
    200 <= status < 300
}

/// Tests an HTTP status for success.
pub fn status_is_success(status: u16) -> (r: bool)
    ensures
        r == is_success_status(status),
{
    200 <= status && status < 300
}

/// The string `tag_name` field of a body read as a JSON object, if the body
/// is well-formed JSON with such a field.
pub uninterp spec fn json_tag_name(body: Seq<char>) -> Option<Seq<char>>;

/// Relies on serde_json::from_str, serde_json::Value::get and
/// serde_json::Value::as_str: reading the `tag_name` string field out of a
/// JSON body is a function of the body text alone.
#[verifier::external_body]
fn extract_tag_name(body: &str) -> (r: Option<String>)
    ensures
        (r is Some) == (json_tag_name(body@) is Some),
        r matches Some(t) ==> (json_tag_name(body@) matches Some(u) && t@ == u),
{
    match serde_json::from_str::<serde_json::Value>(body) {
        Ok(v) => match v.get("tag_name") {
            Some(t) => t.as_str().map(|s| s.to_string()),
            None => None,
        },
        Err(_) => None,
    }
}

/// What a registry answer means.
pub open spec fn spec_resolve(status: u16, body: Seq<char>) -> Result<SemanticVersion, UpdateError> {
    if !is_success_status(status) {
        Err(UpdateError::RegistryError(RegistryFault::Status(status)))
    } else {
        match json_tag_name(body) {
            None => Err(UpdateError::RegistryError(RegistryFault::MalformedBody)),
            Some(tag) => match spec_tag_version(tag) {
                Some(v) => Ok(v),
                None => Err(UpdateError::InvalidVersionFormat),
            },
        }
    }
}

/// Reads the registry's "latest release" answer into a version.
///
/// A non-success status fails with that status; a body without a string
/// `tag_name` field fails as malformed; an unparsable tag fails as an
/// invalid version. Failure is the caller's to handle: there is no retry,
/// and no failure is ever read as an up-to-date answer.
pub fn resolve_remote_version(status: u16, body: &str) -> (r: Result<SemanticVersion, UpdateError>)
    ensures
        r == spec_resolve(status, body@),
{
    if !status_is_success(status) {
        return Err(UpdateError::RegistryError(RegistryFault::Status(status)));
    }
    match extract_tag_name(body) {
        None => Err(UpdateError::RegistryError(RegistryFault::MalformedBody)),
        Some(tag) => match parse_tag(tag.as_str()) {
            Ok(v) => Ok(v),
            Err(_) => Err(UpdateError::InvalidVersionFormat),
        },
    }
}

/// A non-success answer from the release endpoint always surfaces as a
/// registry error carrying that status, whatever the body says: it is never
/// read as a version, so never silently taken for an up-to-date binary.
pub proof fn lemma_non_success_is_registry_error(status: u16, body: Seq<char>)
    requires
        !is_success_status(status),
    ensures
        spec_resolve(status, body) == Err::<SemanticVersion, UpdateError>(
            UpdateError::RegistryError(RegistryFault::Status(status)),
        ),
{
}

} // verus!
