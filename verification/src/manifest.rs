//! The manifest: which repository is tracked, on which branch, and at which
//! version.

use crate::version::{increment_major_version, increment_patch_version, Version};
use vstd::prelude::*;
use vstd::string::*;

verus! {

/// The manifest as it is stored: all four fields are texts.
#[derive(Debug, PartialEq, Eq)]
pub struct GitSource {
    pub version: String,
    pub username: String,
    pub repo: String,
    pub branch: String,
}

/// What a manifest holds.
pub struct Manifest {
    pub version: Seq<char>,
    pub username: Seq<char>,
    pub repo: Seq<char>,
    pub branch: Seq<char>,
}

impl View for GitSource {
    type V = Manifest;

    open spec fn view(&self) -> Manifest {
        Manifest {
            version: self.version@,
            username: self.username@,
            repo: self.repo@,
            branch: self.branch@,
        }
    }
}

impl Clone for GitSource {
    /// A manifest with the same four texts.
    fn clone(&self) -> (copy: GitSource)
        ensures
            copy == *self,
    {
        GitSource {
            version: self.version.clone(),
            username: self.username.clone(),
            repo: self.repo.clone(),
            branch: self.branch.clone(),
        }
    }
}

impl Manifest {
    /// None of the four fields is empty.
    pub open spec fn is_complete(self) -> bool {
        self.version.len() > 0 && self.username.len() > 0 && self.repo.len() > 0
            && self.branch.len() > 0
    }

    /// This manifest with another version; the repository and the branch
    /// stay.
    pub open spec fn with_version(self, version: Seq<char>) -> Manifest {
        Manifest { version, username: self.username, repo: self.repo, branch: self.branch }
    }

    /// The version that the manifest holds, read leniently.
    pub open spec fn parsed_version(self) -> Version {
        Version::of_text(self.version)
    }

    /// This manifest at its next patch version.
    pub open spec fn patch_bumped(self) -> Manifest {
        self.with_version(self.parsed_version().next_patch().text())
    }

    /// This manifest at its next major version.
    pub open spec fn major_bumped(self) -> Manifest {
        self.with_version(self.parsed_version().next_major().text())
    }
}

impl GitSource {
    /// A manifest of the given fields, taken as they are.
    pub fn new(version: &str, username: &str, repo: &str, branch: &str) -> (source: GitSource)
        ensures
            source@ == (Manifest {
                version: version@,
                username: username@,
                repo: repo@,
                branch: branch@,
            }),
    {
        GitSource {
            version: String::from_str(version),
            username: String::from_str(username),
            repo: String::from_str(repo),
            branch: String::from_str(branch),
        }
    }

    /// Whether none of the four fields is empty.
    pub fn is_complete(&self) -> (complete: bool)
        ensures
            complete == self@.is_complete(),
    {
        !self.version.as_str().is_empty() && !self.username.as_str().is_empty()
            && !self.repo.as_str().is_empty() && !self.branch.as_str().is_empty()
    }

    /// The manifest at its next patch version. Only the version changes.
    pub fn bump_patch(self) -> (bumped: GitSource)
        requires
            self@.parsed_version().patch < u32::MAX,
        ensures
            bumped@ == self@.patch_bumped(),
            bumped.username == self.username,
            bumped.repo == self.repo,
            bumped.branch == self.branch,
    {
        let version = increment_patch_version(self.version.as_str());
        GitSource { version, username: self.username, repo: self.repo, branch: self.branch }
    }

    /// The manifest at its next major version. Only the version changes.
    pub fn bump_major(self) -> (bumped: GitSource)
        requires
            self@.parsed_version().major < u32::MAX,
        ensures
            bumped@ == self@.major_bumped(),
            bumped.username == self.username,
            bumped.repo == self.repo,
            bumped.branch == self.branch,
    {
        let version = increment_major_version(self.version.as_str());
        GitSource { version, username: self.username, repo: self.repo, branch: self.branch }
    }
}

/// A bump changes the version and nothing else, and a complete manifest
/// stays complete.
pub proof fn law_bump_keeps_identity(m: Manifest)
    ensures
        m.patch_bumped().username == m.username,
        m.patch_bumped().repo == m.repo,
        m.patch_bumped().branch == m.branch,
        m.major_bumped().username == m.username,
        m.major_bumped().repo == m.repo,
        m.major_bumped().branch == m.branch,
        m.is_complete() ==> m.patch_bumped().is_complete() && m.major_bumped().is_complete(),
{
}

} // verus!
