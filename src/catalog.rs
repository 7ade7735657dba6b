//! Release metadata as the release catalog reports it, and the reading of
//! the catalog's errors.

use vstd::prelude::*;
use vstd::string::*;
use crate::error::ElectronError;
use crate::text::{contains, contains_text};

verus! {

/// A downloadable file attached to a release.
#[derive(Debug)]
pub struct Asset {
    pub name: String,
    pub url: String,
}

/// A published release: its tag and its assets, in catalog order.
#[derive(Debug)]
pub struct Release {
    pub tag_name: String,
    pub assets: Vec<Asset>,
}

/// What came back from asking the catalog for the release of one tag.
#[derive(Debug)]
pub enum ReleaseLookup {
    /// The release exists.
    Found(Release),
    /// The request failed. `api_message` is the message of an error that
    /// the catalog's API itself reported, if it was one; `description`
    /// describes the failure whatever it was.
    Failed { api_message: Option<String>, description: String },
}

/// The phrase by which the catalog reports that it is rate limiting.
pub open spec fn rate_limit_phrase() -> Seq<char> {
    "rate limit exceeded"@
}

/// Whether an API error message reports a rate limit.
pub fn is_rate_limit_message(message: &str) -> (r: bool)
    ensures
        r == contains(message@, rate_limit_phrase()),
{
    proof { reveal_strlit("rate limit exceeded"); }
    contains_text(message, "rate limit exceeded")
}

/// Whether a failed lookup was a rate limit.
pub open spec fn is_rate_limited(api_message: Option<String>) -> bool {
    api_message matches Some(m) && contains(m@, rate_limit_phrase())
}

/// The library's error for a failed catalog request: a rate limit when the
/// API's own message says so, any other API failure otherwise.
pub fn classify_api_error(api_message: Option<String>, description: String) -> (r: ElectronError)
    ensures
        is_rate_limited(api_message) ==> (r matches ElectronError::GitHubApiLimit(m)
            && api_message == Some(m)),
        !is_rate_limited(api_message) ==> (r matches ElectronError::GitHubApiError(d)
            && d == description),
{
    match api_message {
        Some(m) => {
            if is_rate_limit_message(m.as_str()) {
                ElectronError::GitHubApiLimit(m)
            } else {
                ElectronError::GitHubApiError(description)
            }
        },
        None => ElectronError::GitHubApiError(description),
    }
}

} // verus!
