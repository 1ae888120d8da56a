//! The pull policy: bring over what is newer in the shared repository,
//! and refuse the whole pull when a file changed on both sides.

use vstd::prelude::*;
use crate::conflict::ConflictInfo;
use crate::copy::{plan_file_copy, step_model, step_models, outside_base_text, CopyStep, CopyStepModel};
use crate::error::ShadeError;
use crate::exclude::{absent_from, has_line};
use crate::path::{join, joined};
use crate::sync::{classify, detect_sync_state, lemma_conflict_means_both_changed, FileMetadata, SyncState};
use crate::text::texts;
use crate::time::Timestamp;

verus! {

/// What is seen of one file of the shared repository: its path relative
/// to the project, and both copies, `None` for one that does not exist.
#[derive(Debug, Clone)]
pub struct FileObservation {
    pub path: String,
    pub local: Option<FileMetadata>,
    pub remote: Option<FileMetadata>,
}

/// Why a file is copied from the shared repository.
#[derive(Debug, Clone, Copy, PartialEq, Eq, Structural)]
pub enum SyncAction {
    /// The shared copy is newer, or the only one.
    Copied,
    /// Both copies changed and the caller let the shared one win.
    Overwritten,
}

/// A file the pull copies, with the reason.
#[derive(Debug, Clone, PartialEq, Eq)]
pub struct PlannedCopy {
    pub path: String,
    pub action: SyncAction,
}

/// What a pull that may go ahead will do.
#[derive(Debug, Clone, PartialEq, Eq)]
pub struct PullPlan {
    /// The files to copy from the shared repository, in the order seen.
    pub copies: Vec<PlannedCopy>,
    /// Those of them that the project does not track yet.
    pub untracked: Vec<String>,
    /// The plan is only to be shown, not carried out.
    pub dry_run: bool,
}

/// The outcome of weighing every file: go ahead, or give up before
/// anything is touched.
#[derive(Debug, Clone)]
pub enum PullDecision {
    /// Files changed on both sides and the caller did not ask to
    /// overwrite: nothing is to be copied, nothing to be recorded.
    Abort { conflicts: Vec<ConflictInfo> },
    /// No conflict stands in the way.
    Proceed { plan: PullPlan },
}

/// The changes a pull makes, to be carried out in this order: the copies,
/// then the new patterns, then the watermark.
#[derive(Debug, Clone, PartialEq, Eq)]
pub struct PullWork {
    /// The copies to make.
    pub steps: Vec<CopyStep>,
    /// The patterns to add to those the project tracks.
    pub track: Vec<String>,
    /// The start of the pull, to be recorded as the last pull.
    pub watermark: Option<Timestamp>,
}

/// The sync state of an observed file.
pub open spec fn state_of(observation: FileObservation, last_pull: Option<Timestamp>) -> SyncState {
    classify(observation.local, observation.remote, last_pull)
}

/// Whether, and why, a pull copies the observed file: it does when the
/// shared copy is ahead or the only one, and, if `force` is set, when the
/// two copies conflict.
pub open spec fn copy_action(
    observation: FileObservation,
    last_pull: Option<Timestamp>,
    force: bool,
) -> Option<SyncAction> {
    match state_of(observation, last_pull) {
        SyncState::RemoteAhead | SyncState::RemoteOnly => Some(SyncAction::Copied),
        SyncState::Conflict => if force {
            Some(SyncAction::Overwritten)
        } else {
            None
        },
        _ => None,
    }
}

/// The files in conflict, as a predicate on observations.
pub open spec fn in_conflict(last_pull: Option<Timestamp>) -> spec_fn(FileObservation) -> bool {
    |observation: FileObservation| state_of(observation, last_pull) == SyncState::Conflict
}

/// The files a pull copies, as a predicate on observations.
pub open spec fn to_copy(last_pull: Option<Timestamp>, force: bool) -> spec_fn(
    FileObservation,
) -> bool {
    |observation: FileObservation| copy_action(observation, last_pull, force) is Some
}

/// The paths of the observed files.
pub open spec fn paths_of(observations: Seq<FileObservation>) -> Seq<Seq<char>> {
    observations.map_values(|observation: FileObservation| observation.path@)
}

/// The files that `conflicts` speaks of.
pub open spec fn conflict_files(conflicts: Seq<ConflictInfo>) -> Seq<Seq<char>> {
    conflicts.map_values(|conflict: ConflictInfo| conflict.file@)
}

/// `conflicts` reports exactly the files `found`, each with the
/// modification times of its two copies and the last pull.
pub open spec fn reports(
    conflicts: Seq<ConflictInfo>,
    found: Seq<FileObservation>,
    last_pull: Option<Timestamp>,
) -> bool {
    &&& conflicts.len() == found.len()
    &&& forall|k: int|
        0 <= k < conflicts.len() ==> {
            &&& (#[trigger] conflicts[k]).file@ == found[k].path@
            &&& Some(conflicts[k].local_modified) == modified_of(found[k].local)
            &&& Some(conflicts[k].remote_modified) == modified_of(found[k].remote)
            &&& Some(conflicts[k].last_pull) == last_pull
        }
}

/// When a copy that may not exist was modified.
pub open spec fn modified_of(file: Option<FileMetadata>) -> Option<Timestamp> {
    match file {
        Some(metadata) => Some(metadata.modified),
        None => None,
    }
}

/// `copies` names exactly the files `wanted`, each with the reason it is
/// copied.
pub open spec fn copies_match(
    copies: Seq<PlannedCopy>,
    wanted: Seq<FileObservation>,
    last_pull: Option<Timestamp>,
    force: bool,
) -> bool {
    &&& copies.len() == wanted.len()
    &&& forall|k: int|
        0 <= k < copies.len() ==> {
            &&& (#[trigger] copies[k]).path@ == wanted[k].path@
            &&& Some(copies[k].action) == copy_action(wanted[k], last_pull, force)
        }
}

/// The copy steps for `copies`: each file is taken from below `shade_dir`
/// to the same place below `project_dir`. `None` when the path of one of
/// them leads out of `shade_dir`.
pub open spec fn copy_models(
    copies: Seq<PlannedCopy>,
    shade_dir: Seq<char>,
    project_dir: Seq<char>,
) -> Option<Seq<CopyStepModel>>
    decreases copies.len(),
{
    if copies.len() == 0 {
        Some(Seq::empty())
    } else {
        match copy_models(copies.drop_last(), shade_dir, project_dir) {
            None => None,
            Some(earlier) => match step_model(
                joined(shade_dir, copies.last().path@),
                shade_dir,
                project_dir,
            ) {
                Some(step) => Some(earlier.push(step)),
                None => None,
            },
        }
    }
}

/// Weighs every observed file against the last pull and decides the pull.
///
/// With a conflict among the files and `force` unset, the pull is given
/// up and every conflict reported. Otherwise the plan names the files to
/// copy: those whose shared copy is ahead or the only one and, under
/// `force`, those in conflict; and among them those that `known` does
/// not hold yet.
pub fn decide_pull(
    observations: &Vec<FileObservation>,
    last_pull: Option<Timestamp>,
    known: &Vec<String>,
    force: bool,
    dry_run: bool,
) -> (decision: PullDecision)
    ensures
        decision is Abort <==> !force && observations@.filter(in_conflict(last_pull)).len() > 0,
        decision matches PullDecision::Abort { conflicts } ==> reports(
            conflicts@,
            observations@.filter(in_conflict(last_pull)),
            last_pull,
        ),
        decision matches PullDecision::Proceed { plan } ==> {
            &&& copies_match(
                plan.copies@,
                observations@.filter(to_copy(last_pull, force)),
                last_pull,
                force,
            )
            &&& texts(plan.untracked@) == paths_of(
                observations@.filter(to_copy(last_pull, force)),
            ).filter(absent_from(texts(known@)))
            &&& plan.dry_run == dry_run
        },
{
    let mut conflicts: Vec<ConflictInfo> = Vec::new();
    let mut copies: Vec<PlannedCopy> = Vec::new();
    let mut untracked: Vec<String> = Vec::new();
    let mut i: usize = 0;
    proof {
        reveal(Seq::filter);
        assert(observations@.take(0) =~= Seq::empty());
        assert(paths_of(Seq::<FileObservation>::empty()) =~= Seq::empty());
        assert(texts(untracked@) =~= Seq::empty());
    }
    while i < observations.len()
        invariant
            i <= observations@.len(),
            force ==> conflicts@.len() == 0,
            !force ==> reports(
                conflicts@,
                observations@.take(i as int).filter(in_conflict(last_pull)),
                last_pull,
            ),
            copies_match(
                copies@,
                observations@.take(i as int).filter(to_copy(last_pull, force)),
                last_pull,
                force,
            ),
            texts(untracked@) == paths_of(
                observations@.take(i as int).filter(to_copy(last_pull, force)),
            ).filter(absent_from(texts(known@))),
        decreases observations@.len() - i,
    {
        let observation = &observations[i];
        let ghost seen = observations@.take(i as int);
        let ghost wanted = seen.filter(to_copy(last_pull, force));
        let ghost clashing = seen.filter(in_conflict(last_pull));
        let ghost listed = texts(untracked@);
        proof {
            assert(observations@.take(i + 1) =~= seen.push(*observation));
            seen.lemma_filter_push(*observation, to_copy(last_pull, force));
            seen.lemma_filter_push(*observation, in_conflict(last_pull));
            assert(paths_of(wanted.push(*observation)) =~= paths_of(wanted).push(
                observation.path@,
            ));
            paths_of(wanted).lemma_filter_push(observation.path@, absent_from(texts(known@)));
        }
        let state = detect_sync_state(
            observation.local.as_ref(),
            observation.remote.as_ref(),
            last_pull,
        );
        assert(state == state_of(*observation, last_pull));
        let action = match state {
            SyncState::RemoteAhead | SyncState::RemoteOnly => Some(SyncAction::Copied),
            SyncState::Conflict => if force {
                Some(SyncAction::Overwritten)
            } else {
                None
            },
            _ => None,
        };
        if state == SyncState::Conflict && !force {
            proof {
                lemma_conflict_means_both_changed(observation.local, observation.remote, last_pull);
            }
            let conflict = ConflictInfo::new(
                observation.path.clone(),
                observation.local.as_ref().unwrap().modified,
                observation.remote.as_ref().unwrap().modified,
                last_pull.unwrap(),
            );
            conflicts.push(conflict);
        }
        if let Some(action) = action {
            copies.push(PlannedCopy { path: observation.path.clone(), action });
            if !has_line(known, &observation.path) {
                untracked.push(observation.path.clone());
                assert(texts(untracked@) =~= listed.push(observation.path@));
            }
        }
        i += 1;
    }
    proof {
        assert(observations@.take(i as int) =~= observations@);
    }
    if conflicts.len() > 0 {
        PullDecision::Abort { conflicts }
    } else {
        PullDecision::Proceed { plan: PullPlan { copies, untracked, dry_run } }
    }
}

/// The failure a pull ends in when it is given up: it names every file in
/// conflict, in the order reported.
pub fn conflict_error(conflicts: &Vec<ConflictInfo>) -> (error: ShadeError)
    ensures
        error matches ShadeError::ConflictDetected { files } && texts(files@)
            == conflict_files(conflicts@),
{
    let mut files: Vec<String> = Vec::new();
    let mut i: usize = 0;
    while i < conflicts.len()
        invariant
            i <= conflicts@.len(),
            files@.len() == i,
            forall|k: int| 0 <= k < i ==> (#[trigger] files@[k])@ == conflicts@[k].file@,
        decreases conflicts@.len() - i,
    {
        files.push(conflicts[i].file.clone());
        i += 1;
    }
    assert(texts(files@) =~= conflict_files(conflicts@));
    ShadeError::ConflictDetected { files }
}

/// Turns a plan into the changes to make. A dry run makes none. Otherwise
/// every planned file is copied from below `shade_dir` to the same place
/// below `project_dir`, the untracked files get tracked, and `started`,
/// the instant the pull began, becomes the last pull. Fails, with nothing
/// to carry out, when a planned path leads out of `shade_dir`.
pub fn pull_work(plan: &PullPlan, shade_dir: &str, project_dir: &str, started: Timestamp) -> (work:
    Result<PullWork, ShadeError>)
    ensures
        plan.dry_run ==> (work matches Ok(w) && w.steps@.len() == 0 && w.track@.len() == 0
            && w.watermark is None),
        !plan.dry_run ==> match work {
            Ok(w) => {
                &&& copy_models(plan.copies@, shade_dir@, project_dir@) == Some(
                    step_models(w.steps@),
                )
                &&& texts(w.track@) == texts(plan.untracked@)
                &&& w.watermark == Some(started)
            },
            Err(e) => copy_models(plan.copies@, shade_dir@, project_dir@) is None && e.is_other(
                outside_base_text(),
            ),
        },
{
    if plan.dry_run {
        return Ok(PullWork { steps: Vec::new(), track: Vec::new(), watermark: None });
    }
    let mut steps: Vec<CopyStep> = Vec::new();
    let mut i: usize = 0;
    proof {
        assert(plan.copies@.take(0) =~= Seq::empty());
        assert(step_models(steps@) =~= Seq::empty());
    }
    while i < plan.copies.len()
        invariant
            !plan.dry_run,
            i <= plan.copies@.len(),
            copy_models(plan.copies@.take(i as int), shade_dir@, project_dir@) == Some(
                step_models(steps@),
            ),
        decreases plan.copies@.len() - i,
    {
        proof {
            assert(plan.copies@.take(i + 1).drop_last() =~= plan.copies@.take(i as int));
            assert(plan.copies@.take(i + 1).last() == plan.copies@[i as int]);
        }
        let source = join(shade_dir, plan.copies[i].path.as_str());
        match plan_file_copy(source.as_str(), shade_dir, project_dir) {
            Ok(step) => {
                let ghost earlier = step_models(steps@);
                steps.push(step);
                assert(step_models(steps@) =~= earlier.push(step@));
            },
            Err(e) => {
                proof {
                    lemma_copy_failure_stays(plan.copies@, i + 1, shade_dir@, project_dir@);
                }
                return Err(e);
            },
        }
        i += 1;
    }
    proof {
        assert(plan.copies@.take(i as int) =~= plan.copies@);
    }
    let track = copy_texts(&plan.untracked);
    Ok(PullWork { steps, track, watermark: Some(started) })
}

/// A copy of a list of strings.
fn copy_texts(strings: &Vec<String>) -> (copy: Vec<String>)
    ensures
        texts(copy@) == texts(strings@),
{
    let mut copy: Vec<String> = Vec::new();
    let mut i: usize = 0;
    while i < strings.len()
        invariant
            i <= strings@.len(),
            copy@.len() == i,
            forall|k: int| 0 <= k < i ==> (#[trigger] copy@[k])@ == strings@[k]@,
        decreases strings@.len() - i,
    {
        copy.push(strings[i].clone());
        i += 1;
    }
    assert(texts(copy@) =~= texts(strings@));
    copy
}

/// If the first `upto` planned copies cannot all be worked out, then
/// neither can the whole plan.
pub proof fn lemma_copy_failure_stays(
    copies: Seq<PlannedCopy>,
    upto: int,
    shade_dir: Seq<char>,
    project_dir: Seq<char>,
)
    requires
        0 <= upto <= copies.len(),
        copy_models(copies.take(upto), shade_dir, project_dir) is None,
    ensures
        copy_models(copies, shade_dir, project_dir) is None,
    decreases copies.len() - upto,
{
    if upto < copies.len() {
        assert(copies.take(upto + 1).drop_last() =~= copies.take(upto));
        lemma_copy_failure_stays(copies, upto + 1, shade_dir, project_dir);
    } else {
        assert(copies.take(upto) =~= copies);
    }
}

/// The work of a plan has one copy step per planned file, in the plan's
/// order, each taking the file from below the shared directory.
pub proof fn lemma_one_step_per_copy(
    copies: Seq<PlannedCopy>,
    shade_dir: Seq<char>,
    project_dir: Seq<char>,
)
    requires
        copy_models(copies, shade_dir, project_dir) is Some,
    ensures
        ({
            let steps = copy_models(copies, shade_dir, project_dir)->0;
            &&& steps.len() == copies.len()
            &&& forall|k: int|
                0 <= k < steps.len() ==> Some(#[trigger] steps[k]) == step_model(
                    joined(shade_dir, copies[k].path@),
                    shade_dir,
                    project_dir,
                )
        }),
    decreases copies.len(),
{
    if copies.len() > 0 {
        lemma_one_step_per_copy(copies.drop_last(), shade_dir, project_dir);
    }
}

/// Without `force`, a pull copies a file only if its shared copy is ahead
/// or the only one: never a file that is in sync, ahead locally, local
/// only or in conflict.
pub proof fn lemma_unforced_pull_spares_local_changes(
    observation: FileObservation,
    last_pull: Option<Timestamp>,
)
    ensures
        copy_action(observation, last_pull, false) is Some <==> (state_of(observation, last_pull)
            == SyncState::RemoteAhead || state_of(observation, last_pull)
            == SyncState::RemoteOnly),
        copy_action(observation, last_pull, true) is Some <==> (copy_action(
            observation,
            last_pull,
            false,
        ) is Some || state_of(observation, last_pull) == SyncState::Conflict),
{
}

/// A project that was never pulled cannot be in conflict: the first pull
/// always goes ahead.
pub proof fn lemma_first_pull_has_no_conflict(observations: Seq<FileObservation>)
    ensures
        observations.filter(in_conflict(None)).len() == 0,
{
    assert forall|i: int| 0 <= i < observations.len() implies !(in_conflict(None))(
        #[trigger] observations[i],
    ) by {}
    observations.lemma_all_neg_filter_empty(in_conflict(None));
}

} // verus!
