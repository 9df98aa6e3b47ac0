//! What fetching a repository comes to, apart from running the commands:
//! the address to fetch from, the directory to fetch into, the arguments of
//! each command, and the tally of what was fetched.

use vstd::prelude::*;
use crate::models::{RepoConfig, RepoConfigView};
use crate::text::{concat, decimal, replace, replace_all, starts_with, usize_to_string};

verus! {

#[verifier::external_type_specification]
#[verifier::external_body]
pub struct ExPathBuf(std::path::PathBuf);

/// An address with a token for the hosting service put in: after the scheme
/// of an `https` address, nowhere in any other.
pub open spec fn url_with_token(url: Seq<char>, token: Seq<char>) -> Seq<char> {
    if "https://github.com/"@.is_prefix_of(url) {
        replace_all(url, "https://github.com/"@, "https://"@ + token + "@github.com/"@)
    } else if "https://"@.is_prefix_of(url) {
        replace_all(url, "https://"@, "https://"@ + token + "@"@)
    } else {
        url
    }
}

/// Puts a token for the hosting service into an address, so that a private
/// repository can be fetched. Only `https` addresses take one.
pub fn inject_github_token(url: &str, token: &str) -> (r: String)
    ensures
        r@ == url_with_token(url@, token@),
{
    proof {
        reveal_strlit("https://github.com/");
        reveal_strlit("https://");
    }
    if starts_with(url, "https://github.com/") {
        let head = concat("https://", token);
        let with_host = concat(head.as_str(), "@github.com/");
        replace(url, "https://github.com/", with_host.as_str())
    } else if starts_with(url, "https://") {
        let head = concat("https://", token);
        let with_at = concat(head.as_str(), "@");
        replace(url, "https://", with_at.as_str())
    } else {
        String::from_str(url)
    }
}

/// The address to fetch a repository from: its own, with the token put in
/// where there is one.
pub open spec fn fetch_url(repo: RepoConfigView, token: Option<Seq<char>>) -> Seq<char> {
    match token {
        Some(t) => url_with_token(repo.url, t),
        None => repo.url,
    }
}

/// The address to fetch a repository from.
pub fn clone_url(repo: &RepoConfig, github_token: Option<&str>) -> (r: String)
    ensures
        r@ == fetch_url(repo@, github_token.deep_view()),
{
    match github_token {
        Some(token) => inject_github_token(repo.url.as_str(), token),
        None => repo.url.clone(),
    }
}

/// The name of the directory that a repository is fetched into: its name
/// with an underscore for every slash and backslash.
pub open spec fn dir_name(name: Seq<char>) -> Seq<char> {
    replace_all(replace_all(name, "/"@, "_"@), "\\"@, "_"@)
}

/// The name of the directory that a repository is fetched into.
pub fn clone_dir_name(repo: &RepoConfig) -> (r: String)
    ensures
        r@ == dir_name(repo@.name),
{
    proof {
        reveal_strlit("/");
        reveal_strlit("\\");
    }
    let a = replace(repo.name.as_str(), "/", "_");
    replace(a.as_str(), "\\", "_")
}

/// The arguments of the command that fetches a repository for the first
/// time.
pub open spec fn clone_arguments(
    repo: RepoConfigView,
    url: Seq<char>,
    target_dir: Seq<char>,
) -> Seq<Seq<char>> {
    seq![
        "clone"@,
        "--depth"@,
        decimal(repo.depth_or_fallback() as nat),
        "--branch"@,
        repo.branch_or_fallback(),
        "--single-branch"@,
        url,
        target_dir,
    ]
}

/// The arguments of the command that fetches a repository for the first
/// time: one branch, to the depth asked for.
pub fn clone_args(repo: &RepoConfig, url: &str, target_dir: &str) -> (r: Vec<String>)
    ensures
        r.deep_view() == clone_arguments(repo@, url@, target_dir@),
{
    let mut args: Vec<String> = Vec::new();
    args.push(String::from_str("clone"));
    args.push(String::from_str("--depth"));
    args.push(usize_to_string(repo.depth() as usize));
    args.push(String::from_str("--branch"));
    args.push(String::from_str(repo.branch()));
    args.push(String::from_str("--single-branch"));
    args.push(String::from_str(url));
    args.push(String::from_str(target_dir));
    assert(args.deep_view() =~= clone_arguments(repo@, url@, target_dir@));
    args
}

/// The arguments of the command that fetches the news of a repository that
/// is there already. A depth of zero asks for no limit.
pub open spec fn fetch_arguments(repo: RepoConfigView, target_dir: Seq<char>) -> Seq<Seq<char>> {
    let head = seq!["-C"@, target_dir, "fetch"@, "origin"@, repo.branch_or_fallback()];
    if repo.depth_or_fallback() > 0 {
        head + seq!["--depth"@, decimal(repo.depth_or_fallback() as nat)]
    } else {
        head
    }
}

/// The arguments of the command that fetches the news of a repository that
/// is there already.
pub fn fetch_args(repo: &RepoConfig, target_dir: &str) -> (r: Vec<String>)
    ensures
        r.deep_view() == fetch_arguments(repo@, target_dir@),
{
    let mut args: Vec<String> = Vec::new();
    args.push(String::from_str("-C"));
    args.push(String::from_str(target_dir));
    args.push(String::from_str("fetch"));
    args.push(String::from_str("origin"));
    args.push(String::from_str(repo.branch()));
    if repo.depth() > 0 {
        args.push(String::from_str("--depth"));
        args.push(usize_to_string(repo.depth() as usize));
    }
    assert(args.deep_view() =~= fetch_arguments(repo@, target_dir@));
    args
}

/// The arguments of the command that switches to a repository's branch.
pub open spec fn checkout_arguments(repo: RepoConfigView, target_dir: Seq<char>) -> Seq<
    Seq<char>,
> {
    seq!["-C"@, target_dir, "checkout"@, repo.branch_or_fallback()]
}

/// The arguments of the command that switches to a repository's branch.
pub fn checkout_args(repo: &RepoConfig, target_dir: &str) -> (r: Vec<String>)
    ensures
        r.deep_view() == checkout_arguments(repo@, target_dir@),
{
    let mut args: Vec<String> = Vec::new();
    args.push(String::from_str("-C"));
    args.push(String::from_str(target_dir));
    args.push(String::from_str("checkout"));
    args.push(String::from_str(repo.branch()));
    assert(args.deep_view() =~= checkout_arguments(repo@, target_dir@));
    args
}

/// The arguments of the command that moves a branch forward to what was
/// fetched.
pub open spec fn pull_arguments(repo: RepoConfigView, target_dir: Seq<char>) -> Seq<Seq<char>> {
    seq!["-C"@, target_dir, "pull"@, "--ff-only"@, "origin"@, repo.branch_or_fallback()]
}

/// The arguments of the command that moves a branch forward to what was
/// fetched.
pub fn pull_args(repo: &RepoConfig, target_dir: &str) -> (r: Vec<String>)
    ensures
        r.deep_view() == pull_arguments(repo@, target_dir@),
{
    let mut args: Vec<String> = Vec::new();
    args.push(String::from_str("-C"));
    args.push(String::from_str(target_dir));
    args.push(String::from_str("pull"));
    args.push(String::from_str("--ff-only"));
    args.push(String::from_str("origin"));
    args.push(String::from_str(repo.branch()));
    assert(args.deep_view() =~= pull_arguments(repo@, target_dir@));
    args
}

/// What came of fetching one repository.
#[derive(Debug)]
pub struct CloneResult {
    /// The repository.
    pub repo: RepoConfig,
    /// Where it was fetched to, if it was.
    pub path: Option<std::path::PathBuf>,
    /// Why it was not, if it was not.
    pub error: Option<String>,
}

impl CloneResult {
    /// Whether the repository was fetched.
    pub open spec fn succeeded(self) -> bool {
        self.path.is_some()
    }

    /// Whether the repository was fetched.
    pub fn is_success(&self) -> (r: bool)
        ensures
            r == self.succeeded(),
    {
        self.path.is_some()
    }
}

/// How many of the first `n` results are of fetched repositories.
pub open spec fn successes(results: Seq<CloneResult>, n: int) -> nat
    decreases n,
{
    if n <= 0 {
        0
    } else {
        successes(results, n - 1) + if results[n - 1].succeeded() {
            1nat
        } else {
            0nat
        }
    }
}

/// Counts the repositories that were fetched and those that were not.
pub fn clone_stats(results: &[CloneResult]) -> (r: (usize, usize))
    ensures
        r.0 == successes(results@, results@.len() as int),
        r.0 + r.1 == results@.len(),
{
    let mut success: usize = 0;
    let mut i: usize = 0;
    while i < results.len()
        invariant
            i <= results.len(),
            success <= i,
            success == successes(results@, i as int),
        decreases results.len() - i,
    {
        if results[i].is_success() {
            success += 1;
        }
        i += 1;
    }
    (success, results.len() - success)
}

} // verus!
