//! Copying between two trees so that a file keeps its place: a file at
//! `x/y` below the source base lands at `x/y` below the destination base.
//! The functions here work out what is to be copied where; carrying the
//! steps out is left to the caller.

use vstd::prelude::*;
use vstd::string::*;
use crate::error::ShadeError;
use crate::path::{join, joined, parent, parent_of, relative_to, strip_prefix, text_of};
use crate::text::texts;

verus! {

/// One file to copy: from where, to where, and the directory that has to
/// exist before the copy is made, if the destination lies in one.
#[derive(Debug, Clone, PartialEq, Eq)]
pub struct CopyStep {
    pub source: String,
    pub destination: String,
    pub directory: Option<String>,
}

/// A `CopyStep` as plain text.
pub struct CopyStepModel {
    pub source: Seq<char>,
    pub destination: Seq<char>,
    pub directory: Option<Seq<char>>,
}

impl View for CopyStep {
    type V = CopyStepModel;

    open spec fn view(&self) -> CopyStepModel {
        CopyStepModel {
            source: self.source@,
            destination: self.destination@,
            directory: text_of(self.directory),
        }
    }
}

/// What a walk of a directory tree came across: a path, and whether it is
/// a regular file.
#[derive(Debug, Clone, PartialEq, Eq)]
pub struct WalkEntry {
    pub path: String,
    pub is_file: bool,
}

/// The message for a source that does not lie below the source base.
pub open spec fn outside_base_text() -> Seq<char> {
    "Failed to calculate relative path"@
}

/// The step that copies `source`, or `None` when `source` does not lie
/// below `source_base`.
pub open spec fn step_model(
    source: Seq<char>,
    source_base: Seq<char>,
    dest_base: Seq<char>,
) -> Option<CopyStepModel> {
    match relative_to(source, source_base) {
        Some(relative) => {
            let destination = joined(dest_base, relative);
            Some(CopyStepModel { source, destination, directory: parent_of(destination) })
        },
        None => None,
    }
}

/// The steps in `steps`, as plain text.
pub open spec fn step_models(steps: Seq<CopyStep>) -> Seq<CopyStepModel> {
    steps.map_values(|step: CopyStep| step@)
}

/// The steps that copy the files among `entries`, one per file and in
/// their order, or `None` when one of the files does not lie below
/// `source_base`.
pub open spec fn dir_models(
    entries: Seq<WalkEntry>,
    source_base: Seq<char>,
    dest_base: Seq<char>,
) -> Option<Seq<CopyStepModel>>
    decreases entries.len(),
{
    if entries.len() == 0 {
        Some(Seq::empty())
    } else {
        match dir_models(entries.drop_last(), source_base, dest_base) {
            None => None,
            Some(earlier) => if !entries.last().is_file {
                Some(earlier)
            } else {
                match step_model(entries.last().path@, source_base, dest_base) {
                    Some(step) => Some(earlier.push(step)),
                    None => None,
                }
            },
        }
    }
}

/// The regular files, as a predicate on entries.
pub open spec fn regular_files() -> spec_fn(WalkEntry) -> bool {
    |entry: WalkEntry| entry.is_file
}

/// An entry's path relative to `base` if the entry is a file below
/// `base`, as a partial function on entries.
pub open spec fn file_below(base: Seq<char>) -> spec_fn(WalkEntry) -> Option<Seq<char>> {
    |entry: WalkEntry|
        if entry.is_file {
            relative_to(entry.path@, base)
        } else {
            None
        }
}

/// Works out the copy of `src` from the tree at `src_base` into the tree
/// at `dest_base`. Fails when `src` does not lie below `src_base`.
pub fn plan_file_copy(src: &str, src_base: &str, dest_base: &str) -> (planned: Result<
    CopyStep,
    ShadeError,
>)
    ensures
        match planned {
            Ok(step) => step_model(src@, src_base@, dest_base@) == Some(step@),
            Err(e) => step_model(src@, src_base@, dest_base@) is None && e.is_other(
                outside_base_text(),
            ),
        },
{
    match strip_prefix(src, src_base) {
        Some(relative) => {
            let destination = join(dest_base, relative.as_str());
            let directory = parent(destination.as_str());
            Ok(CopyStep { source: String::from_str(src), destination, directory })
        },
        None => Err(ShadeError::Other(String::from_str("Failed to calculate relative path"))),
    }
}

/// Works out the copies for a walked directory: one step for every
/// regular file among `entries`, none for directories and other entries.
/// Fails when a file does not lie below `src_base`.
pub fn plan_dir_copy(entries: &Vec<WalkEntry>, src_base: &str, dest_base: &str) -> (planned:
    Result<Vec<CopyStep>, ShadeError>)
    ensures
        match planned {
            Ok(steps) => dir_models(entries@, src_base@, dest_base@) == Some(step_models(steps@)),
            Err(e) => dir_models(entries@, src_base@, dest_base@) is None && e.is_other(
                outside_base_text(),
            ),
        },
{
    let mut steps: Vec<CopyStep> = Vec::new();
    let mut i: usize = 0;
    proof {
        assert(entries@.take(0) =~= Seq::empty());
        assert(step_models(steps@) =~= Seq::empty());
    }
    while i < entries.len()
        invariant
            i <= entries@.len(),
            dir_models(entries@.take(i as int), src_base@, dest_base@) == Some(
                step_models(steps@),
            ),
        decreases entries@.len() - i,
    {
        proof {
            assert(entries@.take(i + 1).drop_last() =~= entries@.take(i as int));
            assert(entries@.take(i + 1).last() == entries@[i as int]);
        }
        if entries[i].is_file {
            match plan_file_copy(entries[i].path.as_str(), src_base, dest_base) {
                Ok(step) => {
                    let ghost earlier = step_models(steps@);
                    steps.push(step);
                    assert(step_models(steps@) =~= earlier.push(step@));
                },
                Err(e) => {
                    proof {
                        lemma_failure_stays(entries@, i + 1, src_base@, dest_base@);
                    }
                    return Err(e);
                },
            }
        }
        i += 1;
    }
    proof {
        assert(entries@.take(i as int) =~= entries@);
    }
    Ok(steps)
}

/// The paths, relative to `base`, of the regular files among `entries`
/// that lie below `base`, in their order.
pub fn relative_files(entries: &Vec<WalkEntry>, base: &str) -> (files: Vec<String>)
    ensures
        texts(files@) == entries@.filter_map(file_below(base@)),
{
    let mut files: Vec<String> = Vec::new();
    let mut i: usize = 0;
    proof {
        assert(entries@.take(0) =~= Seq::empty());
        assert(texts(files@) =~= Seq::empty());
    }
    while i < entries.len()
        invariant
            i <= entries@.len(),
            texts(files@) == entries@.take(i as int).filter_map(file_below(base@)),
        decreases entries@.len() - i,
    {
        proof {
            entries@.lemma_filter_map_take_succ(file_below(base@), i as int);
        }
        if entries[i].is_file {
            match strip_prefix(entries[i].path.as_str(), base) {
                Some(relative) => {
                    let ghost earlier = texts(files@);
                    files.push(relative);
                    assert(texts(files@) =~= earlier + seq![relative@]);
                },
                None => {},
            }
        }
        i += 1;
    }
    proof {
        assert(entries@.take(i as int) =~= entries@);
    }
    files
}

/// If the files among the first `upto` entries cannot all be copied, then
/// neither can those among all entries.
pub proof fn lemma_failure_stays(
    entries: Seq<WalkEntry>,
    upto: int,
    source_base: Seq<char>,
    dest_base: Seq<char>,
)
    requires
        0 <= upto <= entries.len(),
        dir_models(entries.take(upto), source_base, dest_base) is None,
    ensures
        dir_models(entries, source_base, dest_base) is None,
    decreases entries.len() - upto,
{
    if upto < entries.len() {
        assert(entries.take(upto + 1).drop_last() =~= entries.take(upto));
        lemma_failure_stays(entries, upto + 1, source_base, dest_base);
    } else {
        assert(entries.take(upto) =~= entries);
    }
}

/// A directory copy has exactly one step per regular file, in the order
/// of the walk, each with that file as its source: directories and other
/// entries get none.
pub proof fn lemma_one_step_per_file(
    entries: Seq<WalkEntry>,
    source_base: Seq<char>,
    dest_base: Seq<char>,
)
    requires
        dir_models(entries, source_base, dest_base) is Some,
    ensures
        ({
            let steps = dir_models(entries, source_base, dest_base)->0;
            let files = entries.filter(regular_files());
            &&& steps.len() == files.len()
            &&& forall|k: int|
                0 <= k < steps.len() ==> Some(#[trigger] steps[k]) == step_model(
                    files[k].path@,
                    source_base,
                    dest_base,
                )
        }),
    decreases entries.len(),
{
    reveal(Seq::filter);
    if entries.len() > 0 {
        let earlier = entries.drop_last();
        lemma_one_step_per_file(earlier, source_base, dest_base);
    }
}

/// A directory copy fails exactly when some regular file walked does not
/// lie below the source base.
pub proof fn lemma_dir_copy_fails_on_outsider(
    entries: Seq<WalkEntry>,
    source_base: Seq<char>,
    dest_base: Seq<char>,
)
    ensures
        dir_models(entries, source_base, dest_base) is None <==> exists|i: int|
            0 <= i < entries.len() && (#[trigger] entries[i]).is_file && relative_to(
                entries[i].path@,
                source_base,
            ) is None,
    decreases entries.len(),
{
    if entries.len() > 0 {
        let earlier = entries.drop_last();
        lemma_dir_copy_fails_on_outsider(earlier, source_base, dest_base);
        let last = entries.len() - 1;
        if dir_models(earlier, source_base, dest_base) is None {
            let i = choose|i: int|
                0 <= i < earlier.len() && (#[trigger] earlier[i]).is_file && relative_to(
                    earlier[i].path@,
                    source_base,
                ) is None;
            assert(entries[i] == earlier[i]);
        } else if entries[last].is_file && relative_to(entries[last].path@, source_base) is None {
        } else {
            assert forall|i: int|
                0 <= i < entries.len() && (#[trigger] entries[i]).is_file implies relative_to(
                entries[i].path@,
                source_base,
            ) is Some by {
                if i < last {
                    assert(earlier[i] == entries[i]);
                }
            }
        }
    }
}

} // verus!
