//! The failures the sync commands report.

use vstd::prelude::*;
use vstd::string::*;

verus! {

/// Why a command could not do its work. Each variant carries what the user
/// needs to act on it.
#[derive(Debug, Clone, PartialEq, Eq)]
pub enum ShadeError {
    /// The command was not run inside a git repository.
    NotGitRepo { path: String },
    /// The project was never registered.
    NotInitialized { project_name: String },
    /// The project is registered already.
    AlreadyInitialized(String),
    /// The shared repository does not exist yet.
    ShadeRepoNotFound,
    /// A path that was to be tracked does not exist.
    FileNotFound(String),
    /// The project tracks no files.
    NoFilesTracked,
    /// Both copies of these files changed since the last pull.
    ConflictDetected { files: Vec<String> },
    /// A git command failed; the text says which, and what git printed.
    GitError(String),
    /// The file system refused an operation.
    Io(String),
    /// Anything else, described in words.
    Other(String),
}

/// What is said of a directory that is no git repository.
pub open spec fn not_git_repo_text(path: Seq<char>) -> Seq<char> {
    "Not a git repository: "@ + path
        + "\n\ngit-shade expects to be run from inside a git repository (your project).\n\nCurrent directory: "@
        + path + "\n\nIf this is your project directory, initialize git first:\n  cd "@ + path
        + "\n  git init\n\nThen try git-shade again:\n  git-shade init"@
}

/// What is said of a project that was never registered.
pub open spec fn not_initialized_text(project_name: Seq<char>) -> Seq<char> {
    "Project not initialized: "@ + project_name
        + "\n\nYou need to initialize git-shade for this project first.\n\nRun:\n  git-shade init\n\nThis will:\n  - Register your project in ~/.local/git-shade/config.toml\n  - Create metadata directory\n  - Set up sync tracking"@
}

/// What is said of a project that is registered already.
pub open spec fn already_initialized_text(project_name: Seq<char>) -> Seq<char> {
    "Project already initialized: "@ + project_name
        + "\n\nThis project is already set up with git-shade.\n\nYou can:\n  - Add files: git-shade add <files>\n  - Check status: git-shade status\n  - Push changes: git-shade push\n  - Pull changes: git-shade pull"@
}

/// What is said when the shared repository does not exist.
pub open spec fn shade_repo_not_found_text() -> Seq<char> {
    "Shade repository not found\n\ngit-shade requires a unified shade repository at:\n  ~/.local/git-shade/projects/\n\nThis repository doesn't exist yet. You need to set it up first.\n\nFIRST TIME SETUP:\n\nOption 1 - Clone existing shade repo (if you have one):\n  git clone git@github.com:yourusername/my-shade-files.git ~/.local/git-shade/projects\n\nOption 2 - Create new shade repo:\n  mkdir -p ~/.local/git-shade/projects\n  cd ~/.local/git-shade/projects\n  git init\n  git remote add origin git@github.com:yourusername/my-shade-files.git\n\nThen try git-shade init again."@
}

/// What is said of a path that does not exist.
pub open spec fn file_not_found_text(path: Seq<char>) -> Seq<char> {
    "File not found: "@ + path
        + "\n\nThe file or directory you're trying to add doesn't exist.\n\nMake sure the path is correct and the file exists in your project."@
}

/// What is said of a project without patterns.
pub open spec fn no_files_text() -> Seq<char> {
    "No files tracked\n\nThis project has no files being tracked by git-shade.\n\nAdd files first:\n  git-shade add <files>\n\nExamples:\n  git-shade add config.local\n  git-shade add secrets/\n  git-shade add .env.local database.yml"@
}

impl ShadeError {
    /// The words the user is shown for this failure.
    pub open spec fn message_text(self) -> Seq<char> {
        match self {
            ShadeError::NotGitRepo { path } => not_git_repo_text(path@),
            ShadeError::NotInitialized { project_name } => not_initialized_text(project_name@),
            ShadeError::AlreadyInitialized(project_name) => already_initialized_text(
                project_name@,
            ),
            ShadeError::ShadeRepoNotFound => shade_repo_not_found_text(),
            ShadeError::FileNotFound(path) => file_not_found_text(path@),
            ShadeError::NoFilesTracked => no_files_text(),
            ShadeError::ConflictDetected { files } =>
                "Conflicts detected. Manual resolution required."@,
            ShadeError::GitError(said) => "Git command failed: "@ + said@,
            ShadeError::Io(said) => said@,
            ShadeError::Other(said) => said@,
        }
    }

    /// The words the user is shown for this failure.
    pub fn message(&self) -> (text: String)
        ensures
            text@ == self.message_text(),
    {
        match self {
            ShadeError::NotGitRepo { path } => {
                let mut text = String::from_str("Not a git repository: ");
                text.append(path.as_str());
                text.append(
                    "\n\ngit-shade expects to be run from inside a git repository (your project).\n\nCurrent directory: ",
                );
                text.append(path.as_str());
                text.append(
                    "\n\nIf this is your project directory, initialize git first:\n  cd ",
                );
                text.append(path.as_str());
                text.append("\n  git init\n\nThen try git-shade again:\n  git-shade init");
                text
            },
            ShadeError::NotInitialized { project_name } => {
                let mut text = String::from_str("Project not initialized: ");
                text.append(project_name.as_str());
                text.append(
                    "\n\nYou need to initialize git-shade for this project first.\n\nRun:\n  git-shade init\n\nThis will:\n  - Register your project in ~/.local/git-shade/config.toml\n  - Create metadata directory\n  - Set up sync tracking",
                );
                text
            },
            ShadeError::AlreadyInitialized(project_name) => {
                let mut text = String::from_str("Project already initialized: ");
                text.append(project_name.as_str());
                text.append(
                    "\n\nThis project is already set up with git-shade.\n\nYou can:\n  - Add files: git-shade add <files>\n  - Check status: git-shade status\n  - Push changes: git-shade push\n  - Pull changes: git-shade pull",
                );
                text
            },
            ShadeError::ShadeRepoNotFound => String::from_str(
                "Shade repository not found\n\ngit-shade requires a unified shade repository at:\n  ~/.local/git-shade/projects/\n\nThis repository doesn't exist yet. You need to set it up first.\n\nFIRST TIME SETUP:\n\nOption 1 - Clone existing shade repo (if you have one):\n  git clone git@github.com:yourusername/my-shade-files.git ~/.local/git-shade/projects\n\nOption 2 - Create new shade repo:\n  mkdir -p ~/.local/git-shade/projects\n  cd ~/.local/git-shade/projects\n  git init\n  git remote add origin git@github.com:yourusername/my-shade-files.git\n\nThen try git-shade init again.",
            ),
            ShadeError::FileNotFound(path) => {
                let mut text = String::from_str("File not found: ");
                text.append(path.as_str());
                text.append(
                    "\n\nThe file or directory you're trying to add doesn't exist.\n\nMake sure the path is correct and the file exists in your project.",
                );
                text
            },
            ShadeError::NoFilesTracked => String::from_str(
                "No files tracked\n\nThis project has no files being tracked by git-shade.\n\nAdd files first:\n  git-shade add <files>\n\nExamples:\n  git-shade add config.local\n  git-shade add secrets/\n  git-shade add .env.local database.yml",
            ),
            ShadeError::ConflictDetected { files } => String::from_str(
                "Conflicts detected. Manual resolution required.",
            ),
            ShadeError::GitError(said) => {
                let mut text = String::from_str("Git command failed: ");
                text.append(said.as_str());
                text
            },
            ShadeError::Io(said) => said.clone(),
            ShadeError::Other(said) => said.clone(),
        }
    }

    /// The failure is of the catch-all kind and says `text`.
    pub open spec fn is_other(self, text: Seq<char>) -> bool {
        self matches ShadeError::Other(said) && said@ == text
    }

    /// The failure is a git command's and says `text`.
    pub open spec fn is_git_error(self, text: Seq<char>) -> bool {
        self matches ShadeError::GitError(said) && said@ == text
    }
}

} // verus!
