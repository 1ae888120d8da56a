//! Putting files under the tool's care: each becomes a pattern to keep
//! out of version control, and is copied into the shared repository.

use vstd::prelude::*;
use vstd::string::*;
use crate::copy::{
    dir_models,
    outside_base_text,
    plan_dir_copy,
    plan_file_copy,
    step_model,
    step_models,
    CopyStep,
    CopyStepModel,
};
use crate::error::ShadeError;
use crate::path::{join, joined, relative_to, strip_prefix};
use crate::push::Found;
use crate::text::texts;

verus! {

/// A path as the user gave it, and what is found there once it is taken
/// relative to the project.
#[derive(Debug, Clone, PartialEq, Eq)]
pub struct AddSource {
    pub path: String,
    pub found: Found,
}

/// The patterns to keep out of version control and the copies to make.
#[derive(Debug, Clone, PartialEq, Eq)]
pub struct AddPlan {
    pub patterns: Vec<String>,
    pub steps: Vec<CopyStep>,
}

/// An `AddPlan` as plain text.
pub struct AddPlanModel {
    pub patterns: Seq<Seq<char>>,
    pub steps: Seq<CopyStepModel>,
}

/// Why files could not be added.
pub enum AddFailure {
    /// Nothing exists at the path given.
    NotFound(Seq<char>),
    /// The path given leads out of the project.
    OutsideProject,
    /// A file found inside a directory does not lie below the project.
    OutsideBase,
}

impl View for AddPlan {
    type V = AddPlanModel;

    open spec fn view(&self) -> AddPlanModel {
        AddPlanModel { patterns: texts(self.patterns@), steps: step_models(self.steps@) }
    }
}

/// The message for a path that leads out of the project.
pub open spec fn outside_project_text() -> Seq<char> {
    "File is not inside project directory"@
}

/// `error` tells of `failure`.
pub open spec fn tells_of(error: ShadeError, failure: AddFailure) -> bool {
    match failure {
        AddFailure::NotFound(path) => error matches ShadeError::FileNotFound(said) && said@ == path,
        AddFailure::OutsideProject => error.is_other(outside_project_text()),
        AddFailure::OutsideBase => error.is_other(outside_base_text()),
    }
}

/// What one source adds to a plan: its pattern, which for a directory
/// ends in a slash, and its copies.
pub open spec fn source_outcome(
    source: AddSource,
    project_dir: Seq<char>,
    shade_dir: Seq<char>,
) -> Result<AddPlanModel, AddFailure> {
    let full = joined(project_dir, source.path@);
    match source.found {
        Found::Missing => Err(AddFailure::NotFound(source.path@)),
        Found::File => match relative_to(full, project_dir) {
            None => Err(AddFailure::OutsideProject),
            Some(relative) => match step_model(full, project_dir, shade_dir) {
                Some(step) => Ok(AddPlanModel { patterns: seq![relative], steps: seq![step] }),
                None => Err(AddFailure::OutsideBase),
            },
        },
        Found::Directory { entries } => match relative_to(full, project_dir) {
            None => Err(AddFailure::OutsideProject),
            Some(relative) => match dir_models(entries@, project_dir, shade_dir) {
                Some(steps) => Ok(AddPlanModel { patterns: seq![relative + "/"@], steps }),
                None => Err(AddFailure::OutsideBase),
            },
        },
    }
}

/// What all sources add up to, or the first failure among them.
pub open spec fn add_outcome(
    sources: Seq<AddSource>,
    project_dir: Seq<char>,
    shade_dir: Seq<char>,
) -> Result<AddPlanModel, AddFailure>
    decreases sources.len(),
{
    if sources.len() == 0 {
        Ok(AddPlanModel { patterns: Seq::empty(), steps: Seq::empty() })
    } else {
        match add_outcome(sources.drop_last(), project_dir, shade_dir) {
            Err(failure) => Err(failure),
            Ok(earlier) => match source_outcome(sources.last(), project_dir, shade_dir) {
                Err(failure) => Err(failure),
                Ok(this) => Ok(
                    AddPlanModel {
                        patterns: earlier.patterns + this.patterns,
                        steps: earlier.steps + this.steps,
                    },
                ),
            },
        }
    }
}

/// Works out what adding `sources` takes. Every path must exist and lie
/// inside the project; the first that does not fails the whole request,
/// before anything is copied.
pub fn plan_add(sources: &Vec<AddSource>, project_dir: &str, shade_dir: &str) -> (planned: Result<
    AddPlan,
    ShadeError,
>)
    ensures
        match planned {
            Ok(plan) => add_outcome(sources@, project_dir@, shade_dir@) == Ok::<
                AddPlanModel,
                AddFailure,
            >(plan@),
            Err(e) => add_outcome(sources@, project_dir@, shade_dir@) matches Err(failure)
                && tells_of(e, failure),
        },
{
    let mut patterns: Vec<String> = Vec::new();
    let mut steps: Vec<CopyStep> = Vec::new();
    let mut i: usize = 0;
    proof {
        assert(sources@.take(0) =~= Seq::empty());
        assert(texts(patterns@) =~= Seq::empty());
        assert(step_models(steps@) =~= Seq::empty());
    }
    while i < sources.len()
        invariant
            i <= sources@.len(),
            add_outcome(sources@.take(i as int), project_dir@, shade_dir@) == Ok::<
                AddPlanModel,
                AddFailure,
            >(AddPlanModel { patterns: texts(patterns@), steps: step_models(steps@) }),
        decreases sources@.len() - i,
    {
        let source = &sources[i];
        let ghost earlier_patterns = texts(patterns@);
        let ghost earlier_steps = step_models(steps@);
        proof {
            assert(sources@.take(i + 1).drop_last() =~= sources@.take(i as int));
            assert(sources@.take(i + 1).last() == sources@[i as int]);
            lemma_add_failure_stays(sources@, i + 1, project_dir@, shade_dir@);
        }
        let full = join(project_dir, source.path.as_str());
        match &source.found {
            Found::Missing => {
                return Err(ShadeError::FileNotFound(source.path.clone()));
            },
            Found::File => {
                let relative = match strip_prefix(full.as_str(), project_dir) {
                    Some(relative) => relative,
                    None => {
                        return Err(
                            ShadeError::Other(
                                String::from_str("File is not inside project directory"),
                            ),
                        );
                    },
                };
                let step = match plan_file_copy(full.as_str(), project_dir, shade_dir) {
                    Ok(step) => step,
                    Err(e) => {
                        return Err(e);
                    },
                };
                patterns.push(relative);
                steps.push(step);
                assert(texts(patterns@) =~= earlier_patterns + seq![relative@]);
                assert(step_models(steps@) =~= earlier_steps + seq![step@]);
            },
            Found::Directory { entries } => {
                let relative = match strip_prefix(full.as_str(), project_dir) {
                    Some(relative) => relative,
                    None => {
                        return Err(
                            ShadeError::Other(
                                String::from_str("File is not inside project directory"),
                            ),
                        );
                    },
                };
                let mut inside = match plan_dir_copy(entries, project_dir, shade_dir) {
                    Ok(inside) => inside,
                    Err(e) => {
                        return Err(e);
                    },
                };
                let ghost added = step_models(inside@);
                let mut pattern = relative;
                pattern.append("/");
                patterns.push(pattern);
                steps.append(&mut inside);
                assert(texts(patterns@) =~= earlier_patterns + seq![pattern@]);
                assert(step_models(steps@) =~= earlier_steps + added);
            },
        }
        i += 1;
    }
    proof {
        assert(sources@.take(i as int) =~= sources@);
    }
    Ok(AddPlan { patterns, steps })
}

/// A failure among the first `upto` sources is the failure of all of
/// them.
pub proof fn lemma_add_failure_stays(
    sources: Seq<AddSource>,
    upto: int,
    project_dir: Seq<char>,
    shade_dir: Seq<char>,
)
    requires
        0 <= upto <= sources.len(),
    ensures
        add_outcome(sources.take(upto), project_dir, shade_dir) is Err ==> add_outcome(
            sources,
            project_dir,
            shade_dir,
        ) == add_outcome(sources.take(upto), project_dir, shade_dir),
    decreases sources.len() - upto,
{
    if upto < sources.len() {
        assert(sources.take(upto + 1).drop_last() =~= sources.take(upto));
        lemma_add_failure_stays(sources, upto + 1, project_dir, shade_dir);
    } else {
        assert(sources.take(upto) =~= sources);
    }
}

} // verus!
