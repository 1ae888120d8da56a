//! The push policy: every pattern the project keeps out of version
//! control is copied into the shared repository if it exists locally, and
//! passed over if it does not. A push never looks at what the shared
//! repository holds.

use vstd::prelude::*;
use vstd::string::*;
use crate::copy::{
    dir_models,
    outside_base_text,
    plan_dir_copy,
    plan_file_copy,
    step_model,
    step_models,
    CopyStep,
    CopyStepModel,
    WalkEntry,
};
use crate::error::ShadeError;
use crate::path::{join, joined};
use crate::text::{strip_trailing_slashes, without_trailing_slashes};

verus! {

/// What a pattern points at in the project.
#[derive(Debug, Clone, PartialEq, Eq)]
pub enum Found {
    /// Nothing: the path does not exist.
    Missing,
    /// A file.
    File,
    /// A directory, with everything a walk of it came across.
    Directory { entries: Vec<WalkEntry> },
}

/// A pattern as the exclude file has it, and what it points at.
#[derive(Debug, Clone, PartialEq, Eq)]
pub struct PushSource {
    pub pattern: String,
    pub found: Found,
}

/// What became of a pattern: copied, or passed over because nothing was
/// there. The pattern is given without trailing slashes.
#[derive(Debug, Clone, PartialEq, Eq)]
pub struct PushLine {
    pub pattern: String,
    pub copied: bool,
}

/// The copies of a push, and one line per pattern to tell the user.
#[derive(Debug, Clone, PartialEq, Eq)]
pub struct PushPlan {
    pub steps: Vec<CopyStep>,
    pub report: Vec<PushLine>,
}

/// Where a pattern points: its path below the project, trailing slashes
/// dropped.
pub open spec fn pattern_path(project_dir: Seq<char>, pattern: Seq<char>) -> Seq<char> {
    joined(project_dir, without_trailing_slashes(pattern))
}

/// The copy steps for one pattern: none when nothing is there, one for a
/// file, one per file inside for a directory. `None` when a path leads
/// out of the project.
pub open spec fn source_models(
    source: PushSource,
    project_dir: Seq<char>,
    shade_dir: Seq<char>,
) -> Option<Seq<CopyStepModel>> {
    match source.found {
        Found::Missing => Some(Seq::empty()),
        Found::File => match step_model(
            pattern_path(project_dir, source.pattern@),
            project_dir,
            shade_dir,
        ) {
            Some(step) => Some(seq![step]),
            None => None,
        },
        Found::Directory { entries } => dir_models(entries@, project_dir, shade_dir),
    }
}

/// The copy steps for all patterns, in their order.
pub open spec fn push_models(
    sources: Seq<PushSource>,
    project_dir: Seq<char>,
    shade_dir: Seq<char>,
) -> Option<Seq<CopyStepModel>>
    decreases sources.len(),
{
    if sources.len() == 0 {
        Some(Seq::empty())
    } else {
        match push_models(sources.drop_last(), project_dir, shade_dir) {
            None => None,
            Some(earlier) => match source_models(sources.last(), project_dir, shade_dir) {
                Some(steps) => Some(earlier + steps),
                None => None,
            },
        }
    }
}

/// `report` has one line per source, in order: the pattern without its
/// trailing slashes, and whether anything was there to copy.
pub open spec fn reports_on(report: Seq<PushLine>, sources: Seq<PushSource>) -> bool {
    &&& report.len() == sources.len()
    &&& forall|k: int|
        0 <= k < report.len() ==> {
            &&& (#[trigger] report[k]).pattern@ == without_trailing_slashes(sources[k].pattern@)
            &&& report[k].copied == !(sources[k].found is Missing)
        }
}

/// The path a pattern points at, for the caller to look at.
pub fn source_path(project_dir: &str, pattern: &str) -> (path: String)
    ensures
        path@ == pattern_path(project_dir@, pattern@),
{
    let clean = strip_trailing_slashes(pattern);
    join(project_dir, clean.as_str())
}

/// Works out a push from the patterns and what each points at. Without
/// any pattern there is nothing to push, which is a failure of its own.
/// A pattern that points at nothing is passed over; every other one is
/// copied from below `project_dir` to the same place below `shade_dir`.
pub fn plan_push(sources: &Vec<PushSource>, project_dir: &str, shade_dir: &str) -> (planned:
    Result<PushPlan, ShadeError>)
    ensures
        sources@.len() == 0 ==> planned == Err::<PushPlan, ShadeError>(ShadeError::NoFilesTracked),
        sources@.len() > 0 ==> match planned {
            Ok(plan) => {
                &&& push_models(sources@, project_dir@, shade_dir@) == Some(
                    step_models(plan.steps@),
                )
                &&& reports_on(plan.report@, sources@)
            },
            Err(e) => push_models(sources@, project_dir@, shade_dir@) is None && e.is_other(
                outside_base_text(),
            ),
        },
{
    if sources.len() == 0 {
        return Err(ShadeError::NoFilesTracked);
    }
    let mut steps: Vec<CopyStep> = Vec::new();
    let mut report: Vec<PushLine> = Vec::new();
    let mut i: usize = 0;
    proof {
        assert(sources@.take(0) =~= Seq::empty());
        assert(step_models(steps@) =~= Seq::empty());
    }
    while i < sources.len()
        invariant
            sources@.len() > 0,
            i <= sources@.len(),
            push_models(sources@.take(i as int), project_dir@, shade_dir@) == Some(
                step_models(steps@),
            ),
            reports_on(report@, sources@.take(i as int)),
        decreases sources@.len() - i,
    {
        let source = &sources[i];
        let ghost earlier = step_models(steps@);
        proof {
            assert(sources@.take(i + 1).drop_last() =~= sources@.take(i as int));
            assert(sources@.take(i + 1).last() == sources@[i as int]);
        }
        let clean = strip_trailing_slashes(source.pattern.as_str());
        let mut copied = true;
        match &source.found {
            Found::Missing => {
                copied = false;
                assert(step_models(steps@) =~= earlier + Seq::<CopyStepModel>::empty());
            },
            Found::File => {
                let path = join(project_dir, clean.as_str());
                match plan_file_copy(path.as_str(), project_dir, shade_dir) {
                    Ok(step) => {
                        steps.push(step);
                        assert(step_models(steps@) =~= earlier + seq![step@]);
                    },
                    Err(e) => {
                        proof {
                            lemma_push_failure_stays(sources@, i + 1, project_dir@, shade_dir@);
                        }
                        return Err(e);
                    },
                }
            },
            Found::Directory { entries } => {
                match plan_dir_copy(entries, project_dir, shade_dir) {
                    Ok(mut inside) => {
                        let ghost added = step_models(inside@);
                        steps.append(&mut inside);
                        assert(step_models(steps@) =~= earlier + added);
                    },
                    Err(e) => {
                        proof {
                            lemma_push_failure_stays(sources@, i + 1, project_dir@, shade_dir@);
                        }
                        return Err(e);
                    },
                }
            },
        }
        report.push(PushLine { pattern: clean, copied });
        i += 1;
    }
    proof {
        assert(sources@.take(i as int) =~= sources@);
    }
    Ok(PushPlan { steps, report })
}

/// If the copies for the first `upto` patterns cannot all be worked out,
/// then neither can those for all of them.
pub proof fn lemma_push_failure_stays(
    sources: Seq<PushSource>,
    upto: int,
    project_dir: Seq<char>,
    shade_dir: Seq<char>,
)
    requires
        0 <= upto <= sources.len(),
        push_models(sources.take(upto), project_dir, shade_dir) is None,
    ensures
        push_models(sources, project_dir, shade_dir) is None,
    decreases sources.len() - upto,
{
    if upto < sources.len() {
        assert(sources.take(upto + 1).drop_last() =~= sources.take(upto));
        lemma_push_failure_stays(sources, upto + 1, project_dir, shade_dir);
    } else {
        assert(sources.take(upto) =~= sources);
    }
}

/// A pattern that points at nothing adds no copy and takes none away:
/// the push goes on with the others.
pub proof fn lemma_missing_pattern_is_passed_over(
    sources: Seq<PushSource>,
    missing: PushSource,
    project_dir: Seq<char>,
    shade_dir: Seq<char>,
)
    requires
        missing.found is Missing,
    ensures
        push_models(sources.push(missing), project_dir, shade_dir) == push_models(
            sources,
            project_dir,
            shade_dir,
        ),
{
    assert(sources.push(missing).drop_last() =~= sources);
    match push_models(sources, project_dir, shade_dir) {
        Some(earlier) => {
            assert(earlier + Seq::<CopyStepModel>::empty() =~= earlier);
        },
        None => {},
    }
}

} // verus!
