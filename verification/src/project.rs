//! Which project a command is about, judged from the directory it runs
//! in.

use vstd::prelude::*;
use vstd::string::*;
use crate::error::ShadeError;
use crate::path::{file_name, file_name_of, join, joined};

verus! {

/// The name of the project at `current_dir`: the name given, or else the
/// directory's own name. Fails when the directory has none.
pub fn detect_project_name(name_override: Option<String>, current_dir: &str) -> (name: Result<
    String,
    ShadeError,
>)
    ensures
        name_override matches Some(given) ==> (name matches Ok(chosen) && chosen@ == given@),
        name_override is None ==> match name {
            Ok(chosen) => file_name_of(current_dir@) == Some(chosen@),
            Err(e) => file_name_of(current_dir@) is None && e.is_other(
                "Could not determine project name"@,
            ),
        },
{
    if let Some(given) = name_override {
        return Ok(given);
    }
    match file_name(current_dir) {
        Some(own) => Ok(own),
        None => Err(ShadeError::Other(String::from_str("Could not determine project name"))),
    }
}

/// Where the git directory of a project at `current_dir` would be.
pub fn git_dir(current_dir: &str) -> (dir: String)
    ensures
        dir@ == joined(current_dir@, ".git"@),
{
    join(current_dir, ".git")
}

/// The project's directory, provided it is a git repository:
/// `has_git_dir` says whether its git directory exists.
pub fn verify_git_repo(current_dir: &str, has_git_dir: bool) -> (project: Result<
    String,
    ShadeError,
>)
    ensures
        project is Ok <==> has_git_dir,
        project matches Ok(dir) ==> dir@ == current_dir@,
        project matches Err(e) ==> e matches ShadeError::NotGitRepo { path } && path@
            == current_dir@,
{
    if has_git_dir {
        Ok(String::from_str(current_dir))
    } else {
        Err(ShadeError::NotGitRepo { path: String::from_str(current_dir) })
    }
}

} // verus!
