//! The list of patterns a project keeps out of version control: which
//! lines of the exclude file are patterns, and which patterns are new to
//! it.

use vstd::prelude::*;
use vstd::string::*;
use crate::text::{is_whitespace, texts, white_space};

verus! {

/// A line that holds a pattern: its first character that is not white
/// space exists and does not open a comment.
pub open spec fn is_pattern_line(line: Seq<char>) -> bool {
    exists|i: int|
        0 <= i < line.len() && !white_space(#[trigger] line[i]) && line[i] != '#' && forall|k: int|
            0 <= k < i ==> white_space(#[trigger] line[k])
}

/// The lines that hold patterns, as a predicate on lines.
pub open spec fn pattern_lines() -> spec_fn(Seq<char>) -> bool {
    |line: Seq<char>| is_pattern_line(line)
}

/// The patterns that are not among `existing`, as a predicate.
pub open spec fn absent_from(existing: Seq<Seq<char>>) -> spec_fn(Seq<char>) -> bool {
    |pattern: Seq<char>| !existing.contains(pattern)
}

/// Whether `line` holds a pattern: blank lines and comments do not.
pub fn holds_pattern(line: &str) -> (holds: bool)
    ensures
        holds == is_pattern_line(line@),
{
    let len = line.unicode_len();
    let mut i: usize = 0;
    while i < len
        invariant
            len == line@.len(),
            i <= len,
            forall|k: int| 0 <= k < i ==> white_space(#[trigger] line@[k]),
        decreases len - i,
    {
        let c = line.get_char(i);
        if !is_whitespace(c) {
            proof {
                if c == '#' {
                    assert forall|w: int|
                        0 <= w < line@.len() && !white_space(#[trigger] line@[w]) && line@[w]
                            != '#' implies !(forall|k: int|
                        0 <= k < w ==> white_space(#[trigger] line@[k])) by {
                        if w > i {
                            assert(!white_space(line@[i as int]));
                        }
                    }
                }
            }
            return c != '#';
        }
        i += 1;
    }
    false
}

/// Whether `wanted` is one of `lines`.
pub fn has_line(lines: &Vec<String>, wanted: &String) -> (found: bool)
    ensures
        found == texts(lines@).contains(wanted@),
{
    let mut i: usize = 0;
    while i < lines.len()
        invariant
            i <= lines@.len(),
            forall|k: int| 0 <= k < i ==> #[trigger] texts(lines@)[k] != wanted@,
        decreases lines@.len() - i,
    {
        if lines[i] == *wanted {
            assert(texts(lines@)[i as int] == wanted@);
            return true;
        }
        i += 1;
    }
    false
}

/// The patterns an exclude file holds, given its lines: every line but the
/// blank ones and the comments, unchanged and in order.
pub fn read_exclude(lines: &Vec<String>) -> (patterns: Vec<String>)
    ensures
        texts(patterns@) == texts(lines@).filter(pattern_lines()),
{
    let mut patterns: Vec<String> = Vec::new();
    let mut i: usize = 0;
    proof {
        reveal(Seq::filter);
        assert(texts(lines@).take(0) =~= Seq::empty());
        assert(texts(patterns@) =~= Seq::empty());
    }
    while i < lines.len()
        invariant
            i <= lines@.len(),
            texts(patterns@) == texts(lines@).take(i as int).filter(pattern_lines()),
        decreases lines@.len() - i,
    {
        let ghost before = texts(patterns@);
        proof {
            let all = texts(lines@);
            assert(all.take(i + 1) =~= all.take(i as int).push(lines@[i as int]@));
            all.take(i as int).lemma_filter_push(lines@[i as int]@, pattern_lines());
        }
        if holds_pattern(lines[i].as_str()) {
            patterns.push(lines[i].clone());
            assert(texts(patterns@) =~= before.push(lines@[i as int]@));
        }
        i += 1;
    }
    proof {
        assert(texts(lines@).take(i as int) =~= texts(lines@));
    }
    patterns
}

/// The lines to append to a file whose lines are `existing` so that it
/// holds `patterns`: each pattern that no existing line spells out, once,
/// where it is first asked for.
pub open spec fn missing_lines(existing: Seq<Seq<char>>, patterns: Seq<Seq<char>>) -> Seq<
    Seq<char>,
>
    decreases patterns.len(),
{
    if patterns.len() == 0 {
        Seq::empty()
    } else {
        let earlier = missing_lines(existing, patterns.drop_last());
        let asked = patterns.last();
        if existing.contains(asked) || patterns.drop_last().contains(asked) {
            earlier
        } else {
            earlier.push(asked)
        }
    }
}

/// The lines to append to an exclude file whose lines are `existing` so
/// that it holds `patterns`: those of `patterns` that no existing line
/// spells out, in the order asked for, and each once however often it is
/// asked for.
pub fn add_to_exclude(existing: &Vec<String>, patterns: &Vec<String>) -> (missing: Vec<String>)
    ensures
        texts(missing@) == missing_lines(texts(existing@), texts(patterns@)),
{
    let mut missing: Vec<String> = Vec::new();
    let mut i: usize = 0;
    proof {
        assert(texts(patterns@).take(0) =~= Seq::empty());
        assert(texts(missing@) =~= Seq::empty());
    }
    while i < patterns.len()
        invariant
            i <= patterns@.len(),
            texts(missing@) == missing_lines(texts(existing@), texts(patterns@).take(i as int)),
        decreases patterns@.len() - i,
    {
        let ghost before = texts(missing@);
        proof {
            let all = texts(patterns@);
            assert(all.take(i + 1).drop_last() =~= all.take(i as int));
            assert(all.take(i + 1).last() == patterns@[i as int]@);
            lemma_missing_lines_members(texts(existing@), all.take(i as int), patterns@[i as int]@);
        }
        if !has_line(existing, &patterns[i]) && !has_line(&missing, &patterns[i]) {
            missing.push(patterns[i].clone());
            assert(texts(missing@) =~= before.push(patterns@[i as int]@));
        }
        i += 1;
    }
    proof {
        assert(texts(patterns@).take(i as int) =~= texts(patterns@));
    }
    missing
}

/// A line is appended exactly if it is asked for and no existing line
/// spells it out.
pub proof fn lemma_missing_lines_members(
    existing: Seq<Seq<char>>,
    patterns: Seq<Seq<char>>,
    line: Seq<char>,
)
    ensures
        missing_lines(existing, patterns).contains(line) <==> patterns.contains(line)
            && !existing.contains(line),
    decreases patterns.len(),
{
    let missing = missing_lines(existing, patterns);
    if patterns.len() > 0 {
        let earlier_patterns = patterns.drop_last();
        let earlier = missing_lines(existing, earlier_patterns);
        let asked = patterns.last();
        lemma_missing_lines_members(existing, earlier_patterns, line);
        if patterns.contains(line) && line != asked {
            let at = choose|at: int| 0 <= at < patterns.len() && patterns[at] == line;
            assert(earlier_patterns[at] == line);
        }
        if earlier_patterns.contains(line) {
            let at = choose|at: int| 0 <= at < earlier_patterns.len() && earlier_patterns[at] == line;
            assert(patterns[at] == line);
        }
        if line == asked {
            assert(patterns[patterns.len() - 1] == line);
        }
        if missing == earlier.push(asked) {
            if earlier.contains(line) {
                let at = choose|at: int| 0 <= at < earlier.len() && earlier[at] == line;
                assert(missing[at] == line);
            }
            if line == asked {
                assert(missing[earlier.len() as int] == line);
            }
            if missing.contains(line) {
                let at = choose|at: int| 0 <= at < missing.len() && missing[at] == line;
                if at < earlier.len() {
                    assert(earlier[at] == line);
                }
            }
        }
    }
}

/// No line is appended twice, however often it is asked for.
pub proof fn lemma_missing_lines_distinct(existing: Seq<Seq<char>>, patterns: Seq<Seq<char>>)
    ensures
        missing_lines(existing, patterns).no_duplicates(),
    decreases patterns.len(),
{
    if patterns.len() > 0 {
        lemma_missing_lines_distinct(existing, patterns.drop_last());
        lemma_missing_lines_members(existing, patterns.drop_last(), patterns.last());
    }
}

/// Once the missing lines are appended, nothing is missing any more.
pub proof fn lemma_adding_twice_adds_nothing(existing: Seq<Seq<char>>, patterns: Seq<Seq<char>>)
    ensures
        missing_lines(existing + missing_lines(existing, patterns), patterns).len() == 0,
{
    let added = missing_lines(existing, patterns);
    let after = existing + added;
    let again = missing_lines(after, patterns);
    if again.len() > 0 {
        let line = again[0];
        assert(again.contains(line));
        lemma_missing_lines_members(after, patterns, line);
        lemma_missing_lines_members(existing, patterns, line);
        if existing.contains(line) {
            let at = choose|at: int| 0 <= at < existing.len() && existing[at] == line;
            assert(after[at] == line);
        } else {
            let at = choose|at: int| 0 <= at < added.len() && added[at] == line;
            assert(after[existing.len() + at] == line);
        }
    }
}

/// Choosing among lines that are all different leaves lines that are all
/// different.
proof fn lemma_choice_stays_distinct(lines: Seq<Seq<char>>, chosen: spec_fn(Seq<char>) -> bool)
    requires
        lines.no_duplicates(),
    ensures
        lines.filter(chosen).no_duplicates(),
    decreases lines.len(),
{
    reveal(Seq::filter);
    if lines.len() > 0 {
        let earlier = lines.drop_last();
        lemma_choice_stays_distinct(earlier, chosen);
        if chosen(lines.last()) {
            if earlier.filter(chosen).contains(lines.last()) {
                earlier.lemma_filter_contains_rev(chosen, lines.last());
                let at = choose|at: int| 0 <= at < earlier.len() && earlier[at] == lines.last();
                assert(lines[at] == lines[lines.len() - 1]);
            }
        }
    }
}

/// The patterns stay a set: when the file holds no pattern twice, it
/// holds none twice after the missing lines are appended, whatever was
/// asked for and however often; and it then holds every pattern asked
/// for.
pub proof fn lemma_adding_keeps_patterns_distinct(
    existing: Seq<Seq<char>>,
    patterns: Seq<Seq<char>>,
)
    requires
        existing.filter(pattern_lines()).no_duplicates(),
    ensures
        (existing + missing_lines(existing, patterns)).filter(pattern_lines()).no_duplicates(),
        forall|i: int|
            0 <= i < patterns.len() && is_pattern_line(#[trigger] patterns[i]) ==> (existing
                + missing_lines(existing, patterns)).filter(pattern_lines()).contains(patterns[i]),
{
    let added = missing_lines(existing, patterns);
    let after = existing + added;
    let held = existing.filter(pattern_lines());
    let new = added.filter(pattern_lines());
    Seq::filter_distributes_over_add(existing, added, pattern_lines());
    assert(after.filter(pattern_lines()) == held + new);
    lemma_missing_lines_distinct(existing, patterns);
    lemma_choice_stays_distinct(added, pattern_lines());
    assert forall|i: int, j: int| 0 <= i < held.len() && 0 <= j < new.len() implies held[i]
        != new[j] by {
        assert(held.contains(held[i]));
        assert(new.contains(new[j]));
        existing.lemma_filter_contains_rev(pattern_lines(), held[i]);
        added.lemma_filter_contains_rev(pattern_lines(), new[j]);
        lemma_missing_lines_members(existing, patterns, new[j]);
    }
    vstd::seq_lib::lemma_no_dup_in_concat(held, new);
    assert forall|i: int| 0 <= i < patterns.len() && is_pattern_line(
        #[trigger] patterns[i],
    ) implies after.filter(pattern_lines()).contains(patterns[i]) by {
        let line = patterns[i];
        assert(patterns.contains(line));
        lemma_missing_lines_members(existing, patterns, line);
        if existing.contains(line) {
            let at = choose|at: int| 0 <= at < existing.len() && existing[at] == line;
            assert(after[at] == line);
            after.lemma_filter_contains(pattern_lines(), at);
        } else {
            let at = choose|at: int| 0 <= at < added.len() && added[at] == line;
            assert(after[existing.len() + at] == line);
            after.lemma_filter_contains(pattern_lines(), existing.len() + at);
        }
    }
}

} // verus!
