//! Git facts for the branch rules: what repository a directory holds, its
//! current branch and cleanliness (read through the git2 crate, behind
//! trusted items), and the verified branch-policy check.

use vstd::prelude::*;

verus! {

use crate::text::any_str_eq;
use crate::text::view_strs;

/// What a repository probe found: the current branch, the repository's path,
/// and whether the working tree is clean.
#[derive(Debug)]
pub struct GitInfo {
    pub current_branch: String,
    pub repository_path: String,
    pub is_clean: bool,
}

#[verifier::external_type_specification]
#[verifier::external_body]
pub struct ExRepository(git2::Repository);

/// Relies on git2::Repository::open: opens the repository at the path, or
/// fails when none is there.
#[verifier::external_body]
fn repo_open(path: &str) -> Option<git2::Repository> {
    git2::Repository::open(path).ok()
}

/// Relies on git2::Repository::head and git2::Reference::shorthand: the short
/// name of the branch the head points at, when the head resolves and its name
/// is valid text.
#[verifier::external_body]
fn repo_head_branch(repo: &git2::Repository) -> Option<String> {
    repo.head().ok().and_then(|head| head.shorthand().ok().map(|s| s.to_string()))
}

/// Relies on git2::Repository::statuses and git2::Statuses::is_empty: whether
/// the working tree reports no changed entries; fails when the statuses
/// cannot be read.
#[verifier::external_body]
fn repo_is_clean(repo: &git2::Repository) -> Option<bool> {
    repo.statuses(None).ok().map(|s| s.is_empty())
}

/// Relies on git2::Repository::path (with the parent of the `.git` directory
/// taken and printed): the repository's working path as text. For a bare
/// repository that parent is not a working path; no contract rests on the
/// value, which only fills the informational `repository_path` field.
#[verifier::external_body]
fn repo_workdir(repo: &git2::Repository) -> Option<String> {
    repo.path().parent().map(|p| p.to_string_lossy().to_string())
}

/// The git facts of the repository at `project_path`: none when the path
/// holds no repository, an error when its head or status cannot be read. What
/// comes back depends on the state of the repository on disk.
pub fn get_git_info(project_path: &str) -> (r: Result<Option<GitInfo>, String>) {
    let repo = match repo_open(project_path) {
        Some(repo) => repo,
        None => {
            return Ok(None);
        },
    };
    let current_branch = match repo_head_branch(&repo) {
        Some(b) => b,
        None => {
            return Err(crate::text::str_to_string("Could not get branch name"));
        },
    };
    let is_clean = match repo_is_clean(&repo) {
        Some(c) => c,
        None => {
            return Err(crate::text::str_to_string("Could not read repository status"));
        },
    };
    let repository_path = match repo_workdir(&repo) {
        Some(p) => p,
        None => crate::text::str_to_string(project_path),
    };
    Ok(Some(GitInfo { current_branch, repository_path, is_clean }))
}

/// Whether the current branch is allowed: a branch on the forbidden list
/// never is; with an empty allowed list every other branch is; otherwise only
/// a branch on the allowed list is.
pub open spec fn spec_branch_allowed(
    branch: Seq<char>,
    allowed: Seq<Seq<char>>,
    forbidden: Seq<Seq<char>>,
) -> bool {
    if forbidden.contains(branch) {
        false
    } else if allowed.len() == 0 {
        true
    } else {
        allowed.contains(branch)
    }
}

/// Whether the repository's current branch is allowed under the given lists.
pub fn check_branch_allowed(
    git_info: &GitInfo,
    allowed_branches: &Vec<String>,
    forbidden_branches: &Vec<String>,
) -> (r: Result<bool, String>)
    ensures
        r matches Ok(ok) && ok == spec_branch_allowed(
            git_info.current_branch@,
            view_strs(allowed_branches@),
            view_strs(forbidden_branches@),
        ),
{
    if any_str_eq(forbidden_branches, git_info.current_branch.as_str()) {
        return Ok(false);
    }
    if allowed_branches.len() == 0 {
        proof {
            crate::text::lemma_view_strs(allowed_branches@);
        }
        return Ok(true);
    }
    proof {
        crate::text::lemma_view_strs(allowed_branches@);
    }
    Ok(any_str_eq(allowed_branches, git_info.current_branch.as_str()))
}

/// The current branch of the repository at `project_path`, when one is there.
pub fn get_branch_info(project_path: &str) -> (r: Result<Option<String>, String>) {
    match get_git_info(project_path) {
        Ok(Some(info)) => Ok(Some(info.current_branch)),
        Ok(None) => Ok(None),
        Err(e) => Err(e),
    }
}

/// Whether the given path holds a git repository: a `.git` directory under
/// it, as the disk reports.
pub fn is_git_repository(path: &str) -> bool {
    let p = crate::fsprobe::join_path(path, ".git");
    crate::fsprobe::path_exists(p.as_str()) && crate::fsprobe::path_is_dir(p.as_str())
}

} // verus!
