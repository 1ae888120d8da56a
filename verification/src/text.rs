//! Small operations on text that the rules on patterns and on git's
//! answers need.

use vstd::prelude::*;
use vstd::string::*;

verus! {

/// Whether `c` is white space: one of the characters to which Unicode
/// gives the property `White_Space`. They are the controls from tab to
/// carriage return, the space, the next-line control, the no-break
/// space, the Ogham space mark, the spaces from en quad to hair space, the
/// line and the paragraph separator, the narrow no-break space, the
/// medium mathematical space and the ideographic space.
pub open spec fn white_space(c: char) -> bool {
    let code = c as u32;
    ||| 0x09 <= code <= 0x0D
    ||| code == 0x20
    ||| code == 0x85
    ||| code == 0xA0
    ||| code == 0x1680
    ||| 0x2000 <= code <= 0x200A
    ||| code == 0x2028
    ||| code == 0x2029
    ||| code == 0x202F
    ||| code == 0x205F
    ||| code == 0x3000
}

/// `char::is_whitespace`, which is true of the characters with Unicode's
/// property `White_Space` and of no other: those that `white_space`
/// lists.
#[verifier::external_body]
pub(crate) fn is_whitespace(c: char) -> (white: bool)
    ensures
        white == white_space(c),
{
    c.is_whitespace()
}

/// The texts of a list of strings.
pub open spec fn texts(strings: Seq<String>) -> Seq<Seq<char>> {
    strings.map_values(|s: String| s@)
}

/// `text` without the slashes it ends in.
pub open spec fn without_trailing_slashes(text: Seq<char>) -> Seq<char>
    decreases text.len(),
{
    if text.len() > 0 && text.last() == '/' {
        without_trailing_slashes(text.drop_last())
    } else {
        text
    }
}

/// `needle` stands in `text` at position `at`.
pub open spec fn occurs_at(text: Seq<char>, needle: Seq<char>, at: int) -> bool {
    0 <= at && at + needle.len() <= text.len() && text.subrange(at, at + needle.len()) == needle
}

/// `needle` stands somewhere in `text`.
pub open spec fn occurs_in(text: Seq<char>, needle: Seq<char>) -> bool {
    exists|at: int| occurs_at(text, needle, at)
}

/// Where the run that starts at `from` ends: the first position from there
/// on whose character is white space if `blank` is unset, or is not if it
/// is set; the length of `line` when there is none.
pub open spec fn run_end(line: Seq<char>, from: int, blank: bool) -> int
    decreases line.len() - from,
{
    if 0 <= from < line.len() && white_space(line[from]) == blank {
        run_end(line, from + 1, blank)
    } else {
        from
    }
}

/// The second of the words that white space parts `line` into, if it has
/// two.
pub open spec fn second_word(line: Seq<char>) -> Option<Seq<char>> {
    let first_start = run_end(line, 0, true);
    let first_end = run_end(line, first_start, false);
    let start = run_end(line, first_end, true);
    let end = run_end(line, start, false);
    if start < end {
        Some(line.subrange(start, end))
    } else {
        None
    }
}

/// The first line of `text`: what stands before its first line feed.
pub open spec fn first_line(text: Seq<char>) -> Seq<char> {
    text.take(line_end(text, 0))
}

/// The position of the first line feed in `text` at or after `from`, or
/// the length of `text`.
pub open spec fn line_end(text: Seq<char>, from: int) -> int
    decreases text.len() - from,
{
    if 0 <= from < text.len() && text[from] != '\n' {
        line_end(text, from + 1)
    } else {
        from
    }
}

/// What is left of a text when every trailing slash is dropped ends in no
/// slash, and is a beginning of the text followed by slashes only.
pub proof fn lemma_without_trailing_slashes(text: Seq<char>)
    ensures
        ({
            let kept = without_trailing_slashes(text);
            &&& kept.len() <= text.len()
            &&& kept == text.take(kept.len() as int)
            &&& kept.len() > 0 ==> kept.last() != '/'
            &&& forall|i: int| kept.len() <= i < text.len() ==> text[i] == '/'
        }),
    decreases text.len(),
{
    if text.len() > 0 && text.last() == '/' {
        let shorter = text.drop_last();
        lemma_without_trailing_slashes(shorter);
        let kept = without_trailing_slashes(text);
        assert(kept == without_trailing_slashes(shorter));
        assert(shorter.take(kept.len() as int) =~= text.take(kept.len() as int));
        assert forall|i: int| kept.len() <= i < text.len() implies text[i] == '/' by {
            if i < shorter.len() {
                assert(shorter[i] == text[i]);
            }
        }
    } else {
        assert(text =~= text.take(text.len() as int));
    }
}

/// `text` without the slashes it ends in: `secrets/` becomes `secrets`.
pub fn strip_trailing_slashes(text: &str) -> (kept: String)
    ensures
        kept@ == without_trailing_slashes(text@),
{
    let mut end: usize = text.unicode_len();
    proof {
        assert(text@.take(end as int) =~= text@);
    }
    while end > 0 && text.get_char(end - 1) == '/'
        invariant
            end <= text@.len(),
            without_trailing_slashes(text@) == without_trailing_slashes(text@.take(end as int)),
        decreases end,
    {
        proof {
            assert(text@.take(end as int).drop_last() =~= text@.take(end - 1));
        }
        end -= 1;
    }
    String::from_str(text.substring_char(0, end))
}

/// Where the run of `text`'s first `limit` characters that starts at
/// `from` ends.
fn skip_run(text: &str, limit: usize, from: usize, blank: bool) -> (end: usize)
    requires
        from <= limit <= text@.len(),
    ensures
        end == run_end(text@.take(limit as int), from as int, blank),
        from <= end <= limit,
{
    let mut at = from;
    while at < limit && is_whitespace(text.get_char(at)) == blank
        invariant
            from <= at <= limit <= text@.len(),
            run_end(text@.take(limit as int), from as int, blank) == run_end(
                text@.take(limit as int),
                at as int,
                blank,
            ),
        decreases limit - at,
    {
        at += 1;
    }
    at
}

/// The second word of the first line of `text`, if that line has two.
pub fn second_word_of_first_line(text: &str) -> (word: Option<String>)
    ensures
        match word {
            Some(found) => second_word(first_line(text@)) == Some(found@),
            None => second_word(first_line(text@)) is None,
        },
{
    let len = text.unicode_len();
    let mut limit: usize = 0;
    while limit < len && text.get_char(limit) != '\n'
        invariant
            limit <= len == text@.len(),
            line_end(text@, 0) == line_end(text@, limit as int),
        decreases len - limit,
    {
        limit += 1;
    }
    let first_start = skip_run(text, limit, 0, true);
    let first_end = skip_run(text, limit, first_start, false);
    let start = skip_run(text, limit, first_end, true);
    let end = skip_run(text, limit, start, false);
    if start < end {
        proof {
            assert(text@.subrange(start as int, end as int) =~= text@.take(limit as int).subrange(
                start as int,
                end as int,
            ));
        }
        Some(String::from_str(text.substring_char(start, end)))
    } else {
        None
    }
}

/// Whether `needle` stands in `text` at `at`.
fn matches_at(text: &str, text_len: usize, needle: &str, needle_len: usize, at: usize) -> (found: bool)
    requires
        text_len == text@.len(),
        needle_len == needle@.len(),
        at + needle_len <= text_len,
    ensures
        found == occurs_at(text@, needle@, at as int),
{
    let mut j: usize = 0;
    while j < needle_len
        invariant
            j <= needle_len,
            text_len == text@.len(),
            needle_len == needle@.len(),
            at + needle_len <= text_len,
            forall|k: int| 0 <= k < j ==> text@[at + k] == needle@[k],
        decreases needle_len - j,
    {
        if text.get_char(at + j) != needle.get_char(j) {
            proof {
                assert(text@.subrange(at as int, at + needle_len)[j as int] == text@[at + j]);
            }
            return false;
        }
        j += 1;
    }
    proof {
        assert(text@.subrange(at as int, at + needle_len) =~= needle@);
    }
    true
}

/// Whether `needle` stands somewhere in `text`.
pub fn contains_text(text: &str, needle: &str) -> (found: bool)
    ensures
        found == occurs_in(text@, needle@),
{
    let text_len = text.unicode_len();
    let needle_len = needle.unicode_len();
    if needle_len > text_len {
        return false;
    }
    let last = text_len - needle_len;
    let mut at: usize = 0;
    loop
        invariant
            text_len == text@.len(),
            needle_len == needle@.len(),
            last == text_len - needle_len,
            at <= last,
            forall|k: int| 0 <= k < at ==> !occurs_at(text@, needle@, k),
        decreases last - at,
    {
        if matches_at(text, text_len, needle, needle_len, at) {
            return true;
        }
        if at == last {
            return false;
        }
        at += 1;
    }
}

} // verus!
