//! Where the tool keeps its own files, below the user's home directory.

use vstd::prelude::*;
use vstd::string::*;
use crate::error::ShadeError;
use crate::path::{join, joined};

verus! {

/// The tool's directories and files.
#[derive(Debug, Clone)]
pub struct ShadePaths {
    /// The directory everything else lies in.
    pub root: String,
    /// The registry of projects.
    pub config: String,
    /// Per-project bookkeeping.
    pub metadata: String,
    /// The shared repository, one directory per project.
    pub projects: String,
}

/// Asks `dirs::home_dir` for the user's home directory. The answer depends
/// on who runs the program and how the machine is set up, so nothing is
/// promised about it.
#[verifier::external_body]
fn home_directory() -> (home: Option<String>) {
    dirs::home_dir().map(|home| home.to_string_lossy().into_owned())
}

impl ShadePaths {
    /// The layout below the home directory `home`.
    pub open spec fn laid_out_under(self, home: Seq<char>) -> bool {
        &&& self.root@ == joined(home, ".local/git-shade"@)
        &&& self.config@ == joined(self.root@, "config.toml"@)
        &&& self.metadata@ == joined(self.root@, "metadata"@)
        &&& self.projects@ == joined(self.root@, "projects"@)
    }

    /// The layout below some home directory.
    pub open spec fn laid_out(self) -> bool {
        exists|home: Seq<char>| #[trigger] self.laid_out_under(home)
    }

    /// The paths for the current user, or a failure when the user has no
    /// home directory.
    pub fn new() -> (paths: Result<ShadePaths, ShadeError>)
        ensures
            paths matches Ok(p) ==> p.laid_out(),
            paths matches Err(e) ==> e matches ShadeError::Other(text) && text@
                == "Could not find home directory"@,
    {
        match home_directory() {
            Some(home) => {
                let paths = Self::from_home(home.as_str());
                assert(paths.laid_out_under(home@));
                Ok(paths)
            },
            None => Err(ShadeError::Other(String::from_str("Could not find home directory"))),
        }
    }

    /// The paths for a user whose home directory is `home`.
    pub fn from_home(home: &str) -> (paths: ShadePaths)
        ensures
            paths.laid_out_under(home@),
    {
        let root = join(home, ".local/git-shade");
        let config = join(root.as_str(), "config.toml");
        let metadata = join(root.as_str(), "metadata");
        let projects = join(root.as_str(), "projects");
        ShadePaths { root, config, metadata, projects }
    }

    /// Where the bookkeeping of `project_name` is kept.
    pub fn project_metadata_dir(&self, project_name: &str) -> (dir: String)
        ensures
            dir@ == joined(self.metadata@, project_name@),
    {
        join(self.metadata.as_str(), project_name)
    }

    /// Where the shared copies of `project_name` are kept.
    pub fn project_shade_dir(&self, project_name: &str) -> (dir: String)
        ensures
            dir@ == joined(self.projects@, project_name@),
    {
        join(self.projects.as_str(), project_name)
    }

    /// The file that records when `project_name` was last pulled and
    /// pushed.
    pub fn shade_sync_file(&self, project_name: &str) -> (file: String)
        ensures
            file@ == joined(joined(self.metadata@, project_name@), ".shade-sync"@),
    {
        let dir = self.project_metadata_dir(project_name);
        join(dir.as_str(), ".shade-sync")
    }
}

} // verus!
