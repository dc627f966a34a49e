//! Errors of the update check.
use vstd::prelude::*;

verus! {

/// Why an update check found nothing to install.
#[derive(Debug)]
pub enum UpdateError {
    /// A version string that is not `major.minor`; holds the offending text.
    MalformedVersion(String),
    /// The program was built without a version of its own.
    NotConfigured,
    /// The release descriptor could not be fetched.
    NetworkError(String),
    /// The release descriptor is not a JSON object with string members
    /// `version`, `md5sum` and `url`, or its version is malformed.
    DescriptorParseError(String),
}

} // verus!
