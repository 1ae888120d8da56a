use git_shade::conflict::ConflictInfo;
use git_shade::copy::CopyStep;
use git_shade::error::ShadeError;
use git_shade::pull::{
    conflict_error, decide_pull, pull_work, FileObservation, PlannedCopy, PullDecision,
    PullPlan, PullWork, SyncAction,
};
use git_shade::sync::{detect_sync_state, FileMetadata, SyncState};
use git_shade::time::Timestamp;
use git_shade::tracker::Tracker;

const T0: i64 = 1_700_000_000;

fn at(secs: i64) -> Timestamp {
    Timestamp::new(secs, 0).unwrap()
}

fn meta(path: &str, secs: i64, size: u64) -> Option<FileMetadata> {
    Some(FileMetadata { path: path.to_string(), modified: at(secs), size })
}

fn seen(path: &str, local: Option<(i64, u64)>, remote: Option<(i64, u64)>) -> FileObservation {
    FileObservation {
        path: path.to_string(),
        local: local.and_then(|(secs, size)| meta(&format!("/project/{}", path), secs, size)),
        remote: remote.and_then(|(secs, size)| meta(&format!("/shade/p/{}", path), secs, size)),
    }
}

fn proceed(decision: PullDecision) -> PullPlan {
    match decision {
        PullDecision::Proceed { plan } => plan,
        PullDecision::Abort { .. } => panic!("the pull was given up"),
    }
}

fn abort(decision: PullDecision) -> Vec<ConflictInfo> {
    match decision {
        PullDecision::Abort { conflicts } => conflicts,
        PullDecision::Proceed { .. } => panic!("the pull went ahead"),
    }
}

fn copied(path: &str) -> PlannedCopy {
    PlannedCopy { path: path.to_string(), action: SyncAction::Copied }
}

#[test]
fn pull_copies_a_file_that_is_newer_remotely_and_moves_the_watermark() {
    let files = vec![seen("a", Some((T0 - 5, 5)), Some((T0 + 5, 6)))];
    assert_eq!(
        detect_sync_state(files[0].local.as_ref(), files[0].remote.as_ref(), Some(at(T0))),
        SyncState::RemoteAhead
    );
    let known = vec!["a".to_string()];
    let plan = proceed(decide_pull(&files, Some(at(T0)), &known, false, false));
    assert_eq!(plan.copies, vec![copied("a")]);
    assert!(plan.untracked.is_empty());
    assert!(!plan.dry_run);

    let started = at(T0 + 100);
    let work = pull_work(&plan, "/shade/p", "/project", started).unwrap();
    assert_eq!(
        work.steps,
        vec![CopyStep {
            source: "/shade/p/a".to_string(),
            destination: "/project/a".to_string(),
            directory: Some("/project".to_string()),
        }]
    );
    assert!(work.track.is_empty());
    assert_eq!(work.watermark, Some(started));

    let mut tracker = Tracker { last_pull: Some(at(T0)), last_push: None };
    tracker.record_pull(work.watermark.unwrap());
    assert!(!started.is_after(&tracker.last_pull.unwrap()));
    assert_eq!(tracker.last_pull, Some(started));
}

#[test]
fn pull_with_a_conflict_changes_nothing_and_names_the_file() {
    let files = vec![
        seen("a", Some((T0 - 5, 5)), Some((T0 + 5, 6))),
        seen("b", Some((T0 + 3, 5)), Some((T0 + 7, 6))),
    ];
    assert_eq!(
        detect_sync_state(files[1].local.as_ref(), files[1].remote.as_ref(), Some(at(T0))),
        SyncState::Conflict
    );
    let conflicts = abort(decide_pull(&files, Some(at(T0)), &vec![], false, false));
    assert_eq!(conflicts.len(), 1);
    assert_eq!(conflicts[0].file, "b");
    assert_eq!(conflicts[0].local_modified, at(T0 + 3));
    assert_eq!(conflicts[0].remote_modified, at(T0 + 7));
    assert_eq!(conflicts[0].last_pull, at(T0));
    assert_eq!(
        conflict_error(&conflicts),
        ShadeError::ConflictDetected { files: vec!["b".to_string()] }
    );
}

#[test]
fn dry_run_names_the_file_but_changes_nothing() {
    let files = vec![seen("a", Some((T0 - 5, 5)), Some((T0 + 5, 6)))];
    let plan = proceed(decide_pull(&files, Some(at(T0)), &vec![], false, true));
    assert_eq!(plan.copies, vec![copied("a")]);
    assert_eq!(plan.untracked, vec!["a".to_string()]);
    assert!(plan.dry_run);
    let work = pull_work(&plan, "/shade/p", "/project", at(T0 + 100)).unwrap();
    assert_eq!(work, PullWork { steps: vec![], track: vec![], watermark: None });
}

#[test]
fn dry_run_with_a_conflict_is_given_up_all_the_same() {
    let files = vec![seen("b", Some((T0 + 3, 5)), Some((T0 + 7, 6)))];
    let conflicts = abort(decide_pull(&files, Some(at(T0)), &vec![], false, true));
    assert_eq!(conflicts.len(), 1);
}

#[test]
fn force_lets_the_remote_copy_win_a_conflict() {
    let files = vec![
        seen("a", Some((T0 - 5, 5)), Some((T0 + 5, 6))),
        seen("b", Some((T0 + 3, 5)), Some((T0 + 7, 6))),
    ];
    let known = vec!["a".to_string()];
    let plan = proceed(decide_pull(&files, Some(at(T0)), &known, true, false));
    assert_eq!(
        plan.copies,
        vec![copied("a"), PlannedCopy { path: "b".to_string(), action: SyncAction::Overwritten }]
    );
    assert_eq!(plan.untracked, vec!["b".to_string()]);
}

#[test]
fn every_state_is_partitioned_as_the_policy_says() {
    let files = vec![
        seen("in_sync", Some((T0 + 9, 4)), Some((T0 + 9, 4))),
        seen("stale_both", Some((T0 - 9, 4)), Some((T0 - 8, 5))),
        seen("local_ahead", Some((T0 + 1, 4)), Some((T0 - 1, 5))),
        seen("remote_ahead", Some((T0 - 1, 4)), Some((T0 + 1, 5))),
        seen("local_only", Some((T0 + 1, 4)), None),
        seen("remote_only", None, Some((T0 - 50, 5))),
        seen("gone", None, None),
    ];
    let known = vec!["remote_ahead".to_string()];
    let plan = proceed(decide_pull(&files, Some(at(T0)), &known, false, false));
    assert_eq!(plan.copies, vec![copied("remote_ahead"), copied("remote_only")]);
    assert_eq!(plan.untracked, vec!["remote_only".to_string()]);
    let forced = proceed(decide_pull(&files, Some(at(T0)), &known, true, false));
    assert_eq!(forced.copies, plan.copies);
}

#[test]
fn first_pull_takes_every_differing_remote_copy() {
    let files = vec![
        seen("b", Some((T0 + 3, 5)), Some((T0 + 7, 6))),
        seen("c", Some((T0 + 3, 5)), Some((T0 + 3, 5))),
        seen("d", None, Some((T0, 1))),
    ];
    let plan = proceed(decide_pull(&files, None, &vec![], false, false));
    assert_eq!(plan.copies, vec![copied("b"), copied("d")]);
    assert_eq!(plan.untracked, vec!["b".to_string(), "d".to_string()]);
}

#[test]
fn conflicts_are_reported_in_the_order_seen() {
    let files = vec![
        seen("z", Some((T0 + 3, 5)), Some((T0 + 7, 6))),
        seen("ok", Some((T0 - 3, 5)), Some((T0 + 7, 6))),
        seen("a", Some((T0 + 30, 5)), Some((T0 + 70, 6))),
    ];
    let conflicts = abort(decide_pull(&files, Some(at(T0)), &vec![], false, false));
    let names: Vec<&str> = conflicts.iter().map(|c| c.file.as_str()).collect();
    assert_eq!(names, vec!["z", "a"]);
    assert_eq!(
        conflict_error(&conflicts),
        ShadeError::ConflictDetected { files: vec!["z".to_string(), "a".to_string()] }
    );
    assert_eq!(conflict_error(&vec![]), ShadeError::ConflictDetected { files: vec![] });
}

#[test]
fn a_pull_with_nothing_to_copy_still_moves_the_watermark() {
    let files = vec![seen("same", Some((T0, 5)), Some((T0, 5)))];
    let plan = proceed(decide_pull(&files, Some(at(T0)), &vec![], false, false));
    assert!(plan.copies.is_empty());
    let work = pull_work(&plan, "/shade/p", "/project", at(T0 + 1)).unwrap();
    assert_eq!(work, PullWork { steps: vec![], track: vec![], watermark: Some(at(T0 + 1)) });
    let empty = proceed(decide_pull(&vec![], None, &vec![], false, false));
    assert!(empty.copies.is_empty() && empty.untracked.is_empty());
}

#[test]
fn pull_work_keeps_nested_paths_and_hands_on_new_patterns() {
    let plan = PullPlan {
        copies: vec![copied("config/db.yml"), copied("top.env")],
        untracked: vec!["config/db.yml".to_string()],
        dry_run: false,
    };
    let work = pull_work(&plan, "/shade/p", "/project", at(T0)).unwrap();
    assert_eq!(work.steps.len(), 2);
    assert_eq!(work.steps[0].source, "/shade/p/config/db.yml");
    assert_eq!(work.steps[0].destination, "/project/config/db.yml");
    assert_eq!(work.steps[0].directory, Some("/project/config".to_string()));
    assert_eq!(work.steps[1].destination, "/project/top.env");
    assert_eq!(work.track, vec!["config/db.yml".to_string()]);
}

#[test]
fn pull_work_refuses_a_path_that_leaves_the_shared_directory() {
    let plan = PullPlan {
        copies: vec![copied("ok"), copied("/etc/passwd")],
        untracked: vec![],
        dry_run: false,
    };
    assert_eq!(
        pull_work(&plan, "/shade/p", "/project", at(T0)),
        Err(ShadeError::Other("Failed to calculate relative path".to_string()))
    );
}
