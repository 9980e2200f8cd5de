//! The ways in which a run can fail.

use vstd::prelude::*;
use vstd::string::*;

verus! {

/// Why a run did not do what it was asked for.
#[derive(Clone, Copy, Debug, PartialEq, Eq, Structural)]
pub enum SyncError {
    /// There is no manifest to load.
    ManifestNotFound,
    /// What was loaded is no well-formed manifest.
    ManifestParseError,
    /// The remote manifest could not be fetched.
    NetworkError,
    /// What was fetched is no manifest with a version.
    RemoteParseError,
    /// The sync with the remote repository did not succeed.
    VcsInvocationError,
}

impl SyncError {
    /// Whether the error ends the operation without its result. A failed
    /// sync does not: by then the comparison has been made and reported.
    pub open spec fn fatal(self) -> bool {
        self != SyncError::VcsInvocationError
    }

    /// The line that reports the error: it names the step that failed.
    pub open spec fn message(self) -> Seq<char> {
        match self {
            SyncError::ManifestNotFound => "Error reading gitSource.json: no such file"@,
            SyncError::ManifestParseError => "Error reading gitSource.json: not a manifest"@,
            SyncError::NetworkError => "Failed to fetch version: the request failed"@,
            SyncError::RemoteParseError => "Failed to fetch version: no version in the response"@,
            SyncError::VcsInvocationError => "Warning: git fetch failed"@,
        }
    }

    /// Whether the error ends the operation without its result.
    pub fn is_fatal(&self) -> (fatal: bool)
        ensures
            fatal == self.fatal(),
    {
        match self {
            SyncError::VcsInvocationError => false,
            _ => true,
        }
    }

    /// The line that reports the error.
    pub fn describe(&self) -> (line: String)
        ensures
            line@ == self.message(),
    {
        match self {
            SyncError::ManifestNotFound => String::from_str(
                "Error reading gitSource.json: no such file",
            ),
            SyncError::ManifestParseError => String::from_str(
                "Error reading gitSource.json: not a manifest",
            ),
            SyncError::NetworkError => String::from_str(
                "Failed to fetch version: the request failed",
            ),
            SyncError::RemoteParseError => String::from_str(
                "Failed to fetch version: no version in the response",
            ),
            SyncError::VcsInvocationError => String::from_str("Warning: git fetch failed"),
        }
    }
}

} // verus!
