//! Where the remote copy of the manifest is published.

use vstd::prelude::*;
use vstd::string::*;

verus! {

/// The address of the manifest that the branch `branch` of the repository
/// `username/repo` publishes.
pub open spec fn github_url(username: Seq<char>, repo: Seq<char>, branch: Seq<char>) -> Seq<char> {
    "https://raw.githubusercontent.com/"@ + username + "/"@ + repo + "/refs/heads/"@ + branch
        + "/gitSource.json"@
}

/// Builds the address of the remote manifest from the three fields, which
/// are taken as they are: nothing is checked or escaped.
pub fn create_github_url(username: &str, repo: &str, branch: &str) -> (url: String)
    ensures
        url@ == github_url(username@, repo@, branch@),
{
    let mut url = String::from_str("https://raw.githubusercontent.com/");
    url.append(username);
    url.append("/");
    url.append(repo);
    url.append("/refs/heads/");
    url.append(branch);
    url.append("/gitSource.json");
    url
}

} // verus!
