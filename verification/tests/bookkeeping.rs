use git_shade::config::Config;
use git_shade::error::ShadeError;
use git_shade::project::{detect_project_name, git_dir, verify_git_repo};
use git_shade::status::{hints, state_description, state_symbol, summarize, Hint, StatusSummary};
use git_shade::sync::SyncState;
use git_shade::time::Timestamp;
use git_shade::tracker::Tracker;

const T0: i64 = 1_700_000_000;

fn at(secs: i64) -> Timestamp {
    Timestamp::new(secs, 0).unwrap()
}

#[test]
fn test_config_save_and_load() {
    let mut config = Config { version: "1.0".to_string(), projects: Vec::new() };

    config.add_project("myapp".to_string(), "/home/user/projects/myapp".to_string()).unwrap();

    assert_eq!(config.projects.len(), 1);
    assert_eq!(config.projects[0].name, "myapp");
}

#[test]
fn a_new_tracker_has_no_watermarks() {
    let tracker = Tracker::new();
    assert_eq!(tracker.last_pull, None);
    assert_eq!(tracker.last_push, None);
}

#[test]
fn watermarks_are_set_and_never_move_backward() {
    let mut tracker = Tracker::new();
    tracker.record_pull(at(T0));
    assert_eq!(tracker, Tracker { last_pull: Some(at(T0)), last_push: None });
    tracker.record_pull(at(T0 + 10));
    assert_eq!(tracker.last_pull, Some(at(T0 + 10)));
    tracker.record_pull(at(T0 + 5));
    assert_eq!(tracker.last_pull, Some(at(T0 + 10)));
    tracker.record_push(at(T0 - 1));
    assert_eq!(tracker, Tracker { last_pull: Some(at(T0 + 10)), last_push: Some(at(T0 - 1)) });
    tracker.record_push(at(T0 - 2));
    assert_eq!(tracker.last_push, Some(at(T0 - 1)));
    tracker.record_push(Timestamp::new(T0 - 1, 1).unwrap());
    assert_eq!(tracker.last_push, Some(Timestamp::new(T0 - 1, 1).unwrap()));
}

#[test]
fn updating_sets_the_watermark_to_the_present() {
    let mut tracker = Tracker::new();
    tracker.update_pull();
    assert!(tracker.last_pull.unwrap().is_after(&at(T0)));
    assert_eq!(tracker.last_push, None);
    let pulled = tracker.last_pull;
    tracker.update_push();
    assert!(tracker.last_push.unwrap().is_after(&at(T0)));
    assert_eq!(tracker.last_pull, pulled);
    let far = at(T0 + 10_000_000_000);
    tracker.record_pull(far);
    tracker.update_pull();
    assert_eq!(tracker.last_pull, Some(far));
}

#[test]
fn commands_need_a_registered_project() {
    let mut config = Config::new();
    assert_eq!(
        config.require_project("myapp").err(),
        Some(ShadeError::NotInitialized { project_name: "myapp".to_string() })
    );
    config.add_project("myapp".to_string(), "/a".to_string()).unwrap();
    assert_eq!(config.require_project("myapp").unwrap().local_path, "/a");
}

#[test]
fn a_project_is_registered_once_and_only_with_a_shared_repository() {
    let mut config = Config::new();
    assert_eq!(config.check_new_project(false, "myapp"), Err(ShadeError::ShadeRepoNotFound));
    assert_eq!(config.check_new_project(true, "myapp"), Ok(()));
    config.add_project("myapp".to_string(), "/a".to_string()).unwrap();
    assert_eq!(
        config.check_new_project(true, "myapp"),
        Err(ShadeError::AlreadyInitialized("myapp".to_string()))
    );
    assert_eq!(config.check_new_project(false, "myapp"), Err(ShadeError::ShadeRepoNotFound));
    assert_eq!(config.check_new_project(true, "other"), Ok(()));
}

#[test]
fn the_project_is_named_after_its_directory_unless_told_otherwise() {
    assert_eq!(detect_project_name(Some("custom".to_string()), "/home/u/myapp"), Ok("custom".to_string()));
    assert_eq!(detect_project_name(None, "/home/u/myapp"), Ok("myapp".to_string()));
    assert_eq!(detect_project_name(None, "/home/u/myapp/"), Ok("myapp".to_string()));
    assert_eq!(
        detect_project_name(None, "/"),
        Err(ShadeError::Other("Could not determine project name".to_string()))
    );
    assert_eq!(
        detect_project_name(None, "/home/u/.."),
        Err(ShadeError::Other("Could not determine project name".to_string()))
    );
    assert_eq!(detect_project_name(Some("x".to_string()), "/"), Ok("x".to_string()));
}

#[test]
fn a_project_has_to_be_a_git_repository() {
    assert_eq!(git_dir("/home/u/myapp"), "/home/u/myapp/.git");
    assert_eq!(verify_git_repo("/home/u/myapp", true), Ok("/home/u/myapp".to_string()));
    assert_eq!(
        verify_git_repo("/home/u/myapp", false),
        Err(ShadeError::NotGitRepo { path: "/home/u/myapp".to_string() })
    );
}

#[test]
fn every_state_has_its_sign_and_words() {
    let shown: Vec<(&str, &str)> = [
        SyncState::InSync,
        SyncState::LocalAhead,
        SyncState::RemoteAhead,
        SyncState::Conflict,
        SyncState::LocalOnly,
        SyncState::RemoteOnly,
    ]
    .iter()
    .map(|s| (state_symbol(*s), state_description(*s)))
    .collect();
    assert_eq!(
        shown,
        vec![
            ("✓", "in sync"),
            ("↑", "local ahead - modified locally, ready to push"),
            ("↓", "remote ahead - modified in shade, safe to pull"),
            ("⚠", "conflict - modified both locally and remotely"),
            ("?", "local only, not in shade"),
            ("←", "remote only, deleted locally"),
        ]
    );
}

#[test]
fn the_summary_says_what_the_states_call_for() {
    let quiet = StatusSummary { has_conflicts: false, needs_push: false, needs_pull: false };
    assert_eq!(summarize(&vec![]), quiet);
    assert_eq!(summarize(&vec![SyncState::InSync, SyncState::LocalOnly]), quiet);
    assert_eq!(
        summarize(&vec![SyncState::InSync, SyncState::RemoteOnly]),
        StatusSummary { has_conflicts: false, needs_push: false, needs_pull: true }
    );
    assert_eq!(
        summarize(&vec![SyncState::LocalAhead, SyncState::RemoteAhead, SyncState::Conflict]),
        StatusSummary { has_conflicts: true, needs_push: true, needs_pull: true }
    );
    assert_eq!(
        summarize(&vec![SyncState::LocalAhead]),
        StatusSummary { has_conflicts: false, needs_push: true, needs_pull: false }
    );
}

#[test]
fn conflicts_come_before_pulling_and_pushing_is_always_mentioned() {
    let s = |c, push, pull| StatusSummary { has_conflicts: c, needs_push: push, needs_pull: pull };
    assert_eq!(hints(s(false, false, false)), vec![]);
    assert_eq!(hints(s(true, false, true)), vec![Hint::ResolveConflicts]);
    assert_eq!(hints(s(false, false, true)), vec![Hint::Pull]);
    assert_eq!(hints(s(false, true, true)), vec![Hint::Pull, Hint::Push]);
    assert_eq!(hints(s(true, true, false)), vec![Hint::ResolveConflicts, Hint::Push]);
    assert_eq!(hints(s(false, true, false)), vec![Hint::Push]);
}

#[test]
fn failures_read_as_the_user_is_to_see_them() {
    assert_eq!(
        ShadeError::NotGitRepo { path: "/w".to_string() }.message(),
        "Not a git repository: /w\n\ngit-shade expects to be run from inside a git repository (your project).\n\nCurrent directory: /w\n\nIf this is your project directory, initialize git first:\n  cd /w\n  git init\n\nThen try git-shade again:\n  git-shade init"
    );
    assert_eq!(
        ShadeError::NotInitialized { project_name: "myapp".to_string() }.message(),
        "Project not initialized: myapp\n\nYou need to initialize git-shade for this project first.\n\nRun:\n  git-shade init\n\nThis will:\n  - Register your project in ~/.local/git-shade/config.toml\n  - Create metadata directory\n  - Set up sync tracking"
    );
    assert_eq!(
        ShadeError::AlreadyInitialized("myapp".to_string()).message(),
        "Project already initialized: myapp\n\nThis project is already set up with git-shade.\n\nYou can:\n  - Add files: git-shade add <files>\n  - Check status: git-shade status\n  - Push changes: git-shade push\n  - Pull changes: git-shade pull"
    );
    assert!(ShadeError::ShadeRepoNotFound.message().starts_with(
        "Shade repository not found\n\ngit-shade requires a unified shade repository at:\n  ~/.local/git-shade/projects/\n\n"
    ));
    assert!(ShadeError::ShadeRepoNotFound.message().ends_with(
        "  git remote add origin git@github.com:yourusername/my-shade-files.git\n\nThen try git-shade init again."
    ));
    assert_eq!(
        ShadeError::FileNotFound("x.env".to_string()).message(),
        "File not found: x.env\n\nThe file or directory you're trying to add doesn't exist.\n\nMake sure the path is correct and the file exists in your project."
    );
    assert_eq!(
        ShadeError::NoFilesTracked.message(),
        "No files tracked\n\nThis project has no files being tracked by git-shade.\n\nAdd files first:\n  git-shade add <files>\n\nExamples:\n  git-shade add config.local\n  git-shade add secrets/\n  git-shade add .env.local database.yml"
    );
    assert_eq!(
        ShadeError::ConflictDetected { files: vec!["b".to_string()] }.message(),
        "Conflicts detected. Manual resolution required."
    );
    assert_eq!(
        ShadeError::GitError("git push failed: no".to_string()).message(),
        "Git command failed: git push failed: no"
    );
    assert_eq!(ShadeError::Io("permission denied".to_string()).message(), "permission denied");
    assert_eq!(ShadeError::Other("anything".to_string()).message(), "anything");
}
