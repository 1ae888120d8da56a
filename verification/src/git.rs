//! What to ask of git during a pull and a push, in which order, and what
//! to make of its answers. Running git is left to the caller: it hands
//! back what git said, and is told what comes next.

use vstd::prelude::*;
use vstd::string::*;
use crate::error::ShadeError;
use crate::text::{contains_text, first_line, occurs_in, second_word, second_word_of_first_line};
use crate::time::Timestamp;

verus! {

/// What a git command left behind.
#[derive(Debug, Clone, PartialEq, Eq)]
pub struct GitOutput {
    /// The command exited with success.
    pub success: bool,
    pub stdout: String,
    pub stderr: String,
}

/// A git command, to be run inside the shared repository.
#[derive(Debug, Clone, PartialEq, Eq)]
pub enum GitCommand {
    /// Bring the shared repository up to date.
    Pull,
    /// Stage one project's directory.
    Add { path: String },
    /// Commit what is staged.
    Commit { message: String },
    /// List the configured remotes.
    Remotes,
    /// Publish the commits.
    Push,
}

/// The git steps of a push, in the order they are taken.
#[derive(Debug, Clone, Copy, PartialEq, Eq, Structural)]
pub enum PushStage {
    Stage,
    Commit,
    ListRemotes,
    Push,
}

/// What follows a git step that did not fail.
#[derive(Debug, Clone, Copy, PartialEq, Eq, Structural)]
pub enum PushNext {
    /// Another git step.
    Continue(PushStage),
    /// The push is through: record it. `published` is unset when no
    /// remote is configured, so that the changes stay on this machine.
    Finish { published: bool },
}

/// The name under which a failure of the stage's command is reported.
pub open spec fn stage_command(stage: PushStage) -> Seq<char> {
    match stage {
        PushStage::Stage => "git add"@,
        PushStage::Commit => "git commit"@,
        PushStage::ListRemotes => "git remote"@,
        PushStage::Push => "git push"@,
    }
}

/// The message of a failed git command: which one, and git's own words
/// unchanged.
pub open spec fn failure_text(command: Seq<char>, stderr: Seq<char>) -> Seq<char> {
    command + " failed: "@ + stderr
}

/// Git declined to commit because there was nothing to commit.
pub open spec fn nothing_to_commit(stderr: Seq<char>) -> bool {
    occurs_in(stderr, "nothing to commit"@) || occurs_in(stderr, "no changes added"@)
}

/// What follows `stage` once git answered, or `None` when the answer is
/// a failure. A commit with nothing to commit is no failure; without a
/// remote there is nothing to publish, and the push is through.
pub open spec fn next_after(stage: PushStage, output: GitOutput) -> Option<PushNext> {
    match stage {
        PushStage::Stage => if output.success {
            Some(PushNext::Continue(PushStage::Commit))
        } else {
            None
        },
        PushStage::Commit => if output.success || nothing_to_commit(output.stderr@) {
            Some(PushNext::Continue(PushStage::ListRemotes))
        } else {
            None
        },
        PushStage::ListRemotes => if output.stdout@.len() == 0 {
            Some(PushNext::Finish { published: false })
        } else {
            Some(PushNext::Continue(PushStage::Push))
        },
        PushStage::Push => if output.success {
            Some(PushNext::Finish { published: true })
        } else {
            None
        },
    }
}

/// The commit message of a push: the caller's own words behind the
/// project's name, or a note of which machine pushed and when.
pub open spec fn commit_text(
    project_name: Seq<char>,
    message: Option<Seq<char>>,
    host: Option<Seq<char>>,
    at: Timestamp,
) -> Seq<char> {
    match message {
        Some(words) => "["@ + project_name + "] "@ + words,
        None => "["@ + project_name + "] Update from "@ + (match host {
            Some(name) => name,
            None => "unknown"@,
        }) + " - "@ + at.text(),
    }
}

/// Asks `hostname::get` for this machine's name; `None` when the system
/// gives none or the name is not text. The answer is the machine's, so
/// nothing is promised about it.
#[verifier::external_body]
fn host_name() -> (name: Option<String>) {
    hostname::get().ok().and_then(|name| name.into_string().ok())
}

/// The failure of a git command, with what git printed.
pub fn git_failure(command: &str, stderr: &str) -> (error: ShadeError)
    ensures
        error.is_git_error(failure_text(command@, stderr@)),
{
    let mut text = String::from_str(command);
    text.append(" failed: ");
    text.append(stderr);
    ShadeError::GitError(text)
}

/// The address of the first remote in what `git remote -v` printed: the
/// second word of the first line. `None` when nothing was printed, or
/// less than two words.
pub fn remote_url(listing: &str) -> (url: Option<String>)
    ensures
        match url {
            Some(found) => second_word(first_line(listing@)) == Some(found@),
            None => second_word(first_line(listing@)) is None,
        },
{
    second_word_of_first_line(listing)
}

/// What to make of `git pull`'s answer: a failure is reported with what
/// git printed.
pub fn after_pull(output: &GitOutput) -> (outcome: Result<(), ShadeError>)
    ensures
        outcome is Ok <==> output.success,
        outcome matches Err(e) ==> e.is_git_error(failure_text("git pull"@, output.stderr@)),
{
    if output.success {
        Ok(())
    } else {
        Err(git_failure("git pull", output.stderr.as_str()))
    }
}

impl PushStage {
    /// The step a push begins with.
    pub fn first() -> (stage: PushStage)
        ensures
            stage == PushStage::Stage,
    {
        PushStage::Stage
    }

    /// The command of this step: staging takes the project's directory
    /// only, the commit takes `message`.
    pub fn command(self, project_name: &str, message: &str) -> (command: GitCommand)
        ensures
            match self {
                PushStage::Stage => command matches GitCommand::Add { path } && path@
                    == project_name@ + "/"@,
                PushStage::Commit => command matches GitCommand::Commit { message: words }
                    && words@ == message@,
                PushStage::ListRemotes => command == GitCommand::Remotes,
                PushStage::Push => command == GitCommand::Push,
            },
    {
        match self {
            PushStage::Stage => {
                let mut path = String::from_str(project_name);
                path.append("/");
                GitCommand::Add { path }
            },
            PushStage::Commit => GitCommand::Commit { message: String::from_str(message) },
            PushStage::ListRemotes => GitCommand::Remotes,
            PushStage::Push => GitCommand::Push,
        }
    }

    /// What follows this step, given git's answer to its command.
    pub fn after(self, output: &GitOutput) -> (next: Result<PushNext, ShadeError>)
        ensures
            match next {
                Ok(step) => next_after(self, *output) == Some(step),
                Err(e) => next_after(self, *output) is None && e.is_git_error(
                    failure_text(stage_command(self), output.stderr@),
                ),
            },
    {
        match self {
            PushStage::Stage => if output.success {
                Ok(PushNext::Continue(PushStage::Commit))
            } else {
                Err(git_failure("git add", output.stderr.as_str()))
            },
            PushStage::Commit => {
                if output.success || contains_text(output.stderr.as_str(), "nothing to commit")
                    || contains_text(output.stderr.as_str(), "no changes added") {
                    Ok(PushNext::Continue(PushStage::ListRemotes))
                } else {
                    Err(git_failure("git commit", output.stderr.as_str()))
                }
            },
            PushStage::ListRemotes => if output.stdout.as_str().unicode_len() == 0 {
                Ok(PushNext::Finish { published: false })
            } else {
                Ok(PushNext::Continue(PushStage::Push))
            },
            PushStage::Push => if output.success {
                Ok(PushNext::Finish { published: true })
            } else {
                Err(git_failure("git push", output.stderr.as_str()))
            },
        }
    }
}

impl GitCommand {
    /// What a pull asks of git before it looks at any file: to bring the
    /// shared repository up to date, unless the pull is a dry run.
    pub fn for_pull(dry_run: bool) -> (command: Option<GitCommand>)
        ensures
            dry_run ==> command is None,
            !dry_run ==> command == Some(GitCommand::Pull),
    {
        if dry_run {
            None
        } else {
            Some(GitCommand::Pull)
        }
    }

    /// The words to hand to git.
    pub fn arguments(&self) -> (words: Vec<String>)
        ensures
            match *self {
                GitCommand::Pull => words@.len() == 1 && words@[0]@ == "pull"@,
                GitCommand::Add { path } => words@.len() == 2 && words@[0]@ == "add"@
                    && words@[1]@ == path@,
                GitCommand::Commit { message } => words@.len() == 3 && words@[0]@ == "commit"@
                    && words@[1]@ == "-m"@ && words@[2]@ == message@,
                GitCommand::Remotes => words@.len() == 2 && words@[0]@ == "remote"@
                    && words@[1]@ == "-v"@,
                GitCommand::Push => words@.len() == 1 && words@[0]@ == "push"@,
            },
    {
        let mut words: Vec<String> = Vec::new();
        match self {
            GitCommand::Pull => {
                words.push(String::from_str("pull"));
            },
            GitCommand::Add { path } => {
                words.push(String::from_str("add"));
                words.push(path.clone());
            },
            GitCommand::Commit { message } => {
                words.push(String::from_str("commit"));
                words.push(String::from_str("-m"));
                words.push(message.clone());
            },
            GitCommand::Remotes => {
                words.push(String::from_str("remote"));
                words.push(String::from_str("-v"));
            },
            GitCommand::Push => {
                words.push(String::from_str("push"));
            },
        }
        words
    }
}

/// The commit message of a push by the machine named `host`, at `at`.
pub fn commit_message(
    project_name: &str,
    message: Option<&str>,
    host: Option<&str>,
    at: Timestamp,
) -> (text: String)
    ensures
        text@ == commit_text(
            project_name@,
            match message {
                Some(words) => Some(words@),
                None => None,
            },
            match host {
                Some(name) => Some(name@),
                None => None,
            },
            at,
        ),
{
    let mut text = String::from_str("[");
    text.append(project_name);
    match message {
        Some(words) => {
            text.append("] ");
            text.append(words);
        },
        None => {
            let when = at.format();
            text.append("] Update from ");
            match host {
                Some(name) => {
                    text.append(name);
                },
                None => {
                    text.append("unknown");
                },
            }
            text.append(" - ");
            text.append(when.as_str());
        },
    }
    text
}

/// The commit message of a push by this machine: the caller's words, or a
/// note that names this machine as far as it has a name.
pub fn push_commit_message(project_name: &str, message: Option<&str>, at: Timestamp) -> (text:
    String)
    ensures
        message matches Some(words) ==> text@ == commit_text(
            project_name@,
            Some(words@),
            None,
            at,
        ),
        message is None ==> exists|host: Option<Seq<char>>|
            text@ == #[trigger] commit_text(project_name@, None, host, at),
{
    match message {
        Some(words) => commit_message(project_name, message, None, at),
        None => {
            let host = host_name();
            let text = match &host {
                Some(name) => {
                    let text = commit_message(project_name, None, Some(name.as_str()), at);
                    assert(text@ == commit_text(project_name@, None, Some(name@), at));
                    text
                },
                None => {
                    let text = commit_message(project_name, None, None, at);
                    assert(text@ == commit_text(project_name@, None, None, at));
                    text
                },
            };
            text
        },
    }
}

/// A push is recorded only after staging and committing went through,
/// and after publishing went through or proved needless: no answer to
/// staging or committing ends the push.
pub proof fn lemma_push_finishes_last(stage: PushStage, output: GitOutput)
    ensures
        next_after(stage, output) matches Some(PushNext::Finish { published }) ==> (stage
            == PushStage::Push && published && output.success) || (stage == PushStage::ListRemotes
            && !published && output.stdout@.len() == 0),
        next_after(stage, output) matches Some(PushNext::Continue(next)) ==> (stage
            == PushStage::Stage && next == PushStage::Commit) || (stage == PushStage::Commit && next
            == PushStage::ListRemotes) || (stage == PushStage::ListRemotes && next
            == PushStage::Push),
{
}

/// A commit that found nothing to commit does not fail the push.
pub proof fn lemma_empty_commit_is_no_failure(output: GitOutput)
    requires
        nothing_to_commit(output.stderr@),
    ensures
        next_after(PushStage::Commit, output) == Some(PushNext::Continue(PushStage::ListRemotes)),
{
}

} // verus!
