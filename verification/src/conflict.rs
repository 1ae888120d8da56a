//! The report shown when a pull finds files changed on both sides.

use vstd::prelude::*;
use vstd::string::*;
use crate::text::{occurs_at, occurs_in};
use crate::time::Timestamp;

verus! {

/// One file whose two copies both changed since the last pull, with the
/// instants that show it.
#[derive(Debug, Clone)]
pub struct ConflictInfo {
    /// The file, relative to the project.
    pub file: String,
    pub local_modified: Timestamp,
    pub remote_modified: Timestamp,
    /// The last pull both modifications were compared against.
    pub last_pull: Timestamp,
}

/// The decorated pieces of a report. How they look depends on whether the
/// terminal takes colours; the report's wording does not.
#[derive(Debug, Clone)]
pub struct ReportMarks {
    /// The sign in front of the title.
    pub title: String,
    /// The sign in front of each file.
    pub entry: String,
    /// The command that overrides the conflict check.
    pub force_command: String,
}

/// The escape sequence that ends a decoration.
pub open spec fn closing_sequence() -> Seq<char> {
    "\x1B[0m"@
}

/// `painted` is `text` as a terminal is to show it in the style that
/// `opening` switches on: the text itself where colours are off, the text
/// between the opening and the closing sequence where they are on, and
/// the text before the closing sequence alone where they were switched
/// off while the text was being written.
pub open spec fn decorated(painted: Seq<char>, text: Seq<char>, opening: Seq<char>) -> bool {
    ||| painted == text
    ||| painted == opening + text + closing_sequence()
    ||| painted == text + closing_sequence()
}

/// `colored`'s red and bold rendering of `text`, through `Colorize::red`,
/// `Colorize::bold` and the `Display` of the result. Whether colours are
/// on is the terminal's and the user's affair and may change at any
/// moment, so the claim is only this: a text that holds no closing
/// sequence of its own comes back bare, or between `ESC[1;31m` and the
/// closing sequence, or before the closing sequence alone.
#[verifier::external_body]
fn red_bold(text: &str) -> (painted: String)
    ensures
        !occurs_in(text@, closing_sequence()) ==> decorated(painted@, text@, "\x1B[1;31m"@),
{
    colored::Colorize::bold(colored::Colorize::red(text)).to_string()
}

/// `colored`'s yellow rendering of `text`, through `Colorize::yellow` and
/// the `Display` of the result: a text that holds no closing sequence of
/// its own comes back bare, or between `ESC[33m` and the closing
/// sequence, or before the closing sequence alone.
#[verifier::external_body]
fn yellow(text: &str) -> (painted: String)
    ensures
        !occurs_in(text@, closing_sequence()) ==> decorated(painted@, text@, "\x1B[33m"@),
{
    colored::Colorize::yellow(text).to_string()
}

/// `colored`'s bold rendering of `text`, through `Colorize::bold` and the
/// `Display` of the result: a text that holds no closing sequence of its
/// own comes back bare, or between `ESC[1m` and the closing sequence, or
/// before the closing sequence alone.
#[verifier::external_body]
fn bold(text: &str) -> (painted: String)
    ensures
        !occurs_in(text@, closing_sequence()) ==> decorated(painted@, text@, "\x1B[1m"@),
{
    colored::Colorize::bold(text).to_string()
}

/// A text without an escape character holds no closing sequence.
proof fn lemma_plain_text_holds_no_closing_sequence(text: Seq<char>)
    requires
        forall|i: int| 0 <= i < text.len() ==> text[i] != '\x1B',
    ensures
        !occurs_in(text, closing_sequence()),
{
    reveal_strlit("\x1B[0m");
    assert forall|at: int| !occurs_at(text, closing_sequence(), at) by {
        if occurs_at(text, closing_sequence(), at) {
            assert(text.subrange(at, at + 4)[0] == text[at]);
        }
    }
}

/// The lines of the report that speak of one conflict.
pub open spec fn entry_text(conflict: ConflictInfo, mark: Seq<char>) -> Seq<char> {
    "  "@ + mark + " "@ + conflict.file@ + "\n"@ + "    Local:  modified "@
        + conflict.local_modified.text() + " (after last pull at "@ + conflict.last_pull.text()
        + ")\n"@ + "    Remote: modified "@ + conflict.remote_modified.text()
        + " (after last pull at "@ + conflict.last_pull.text() + ")\n"@ + "\n"@
}

/// The lines for all conflicts, in their order.
pub open spec fn entries_text(conflicts: Seq<ConflictInfo>, mark: Seq<char>) -> Seq<char>
    decreases conflicts.len(),
{
    if conflicts.len() == 0 {
        Seq::empty()
    } else {
        entries_text(conflicts.drop_last(), mark) + entry_text(conflicts.last(), mark)
    }
}

/// What stands above the conflicts.
pub open spec fn heading_text(title_mark: Seq<char>) -> Seq<char> {
    title_mark + " CONFLICTS DETECTED\n\n"@
        + "The following files were modified both locally and remotely since last pull:\n\n"@
}

/// What stands below the conflicts: how to resolve them by hand.
pub open spec fn remedy_text(shade_dir: Seq<char>, force_command: Seq<char>) -> Seq<char> {
    "Manual resolution required:\n"@ + "  1. Go to "@ + shade_dir + "\n"@
        + "  2. Review the remote versions\n"@
        + "  3. Choose which version to keep, OR manually merge\n"@
        + "  4. Copy resolved files to your project\n"@ + "  5. OR use "@ + force_command
        + " to overwrite local with remote\n"@ + "\n"@ + "Aborted. No files were modified."@
}

/// The whole report.
pub open spec fn report_text(
    conflicts: Seq<ConflictInfo>,
    shade_dir: Seq<char>,
    marks: ReportMarks,
) -> Seq<char> {
    heading_text(marks.title@) + entries_text(conflicts, marks.entry@) + remedy_text(
        shade_dir,
        marks.force_command@,
    )
}

impl ConflictInfo {
    /// A conflict on `file`, with the instants that show it.
    pub fn new(
        file: String,
        local_modified: Timestamp,
        remote_modified: Timestamp,
        last_pull: Timestamp,
    ) -> (conflict: ConflictInfo)
        ensures
            conflict == (ConflictInfo { file, local_modified, remote_modified, last_pull }),
    {
        ConflictInfo { file, local_modified, remote_modified, last_pull }
    }

    /// The report's lines for this conflict.
    pub fn describe(&self, mark: &str) -> (lines: String)
        ensures
            lines@ == entry_text(*self, mark@),
    {
        let local = self.local_modified.format();
        let remote = self.remote_modified.format();
        let pulled = self.last_pull.format();
        let mut lines = String::from_str("  ");
        lines.append(mark);
        lines.append(" ");
        lines.append(self.file.as_str());
        lines.append("\n");
        lines.append("    Local:  modified ");
        lines.append(local.as_str());
        lines.append(" (after last pull at ");
        lines.append(pulled.as_str());
        lines.append(")\n");
        lines.append("    Remote: modified ");
        lines.append(remote.as_str());
        lines.append(" (after last pull at ");
        lines.append(pulled.as_str());
        lines.append(")\n");
        lines.append("\n");
        lines
    }
}

impl ReportMarks {
    /// The marks are the report's signs as a terminal is to show them:
    /// the warning sign in red and bold before the title, the warning
    /// sign in yellow before each file, the overriding command in bold.
    pub open spec fn shown_on_terminal(self) -> bool {
        &&& decorated(self.title@, "⚠"@, "\x1B[1;31m"@)
        &&& decorated(self.entry@, "⚠"@, "\x1B[33m"@)
        &&& decorated(self.force_command@, "git-shade pull --force"@, "\x1B[1m"@)
    }

    /// The marks as the terminal at hand shows them: each sign bare where
    /// colours are off, and between its escape sequences where they are
    /// on.
    pub fn for_terminal() -> (marks: ReportMarks)
        ensures
            marks.shown_on_terminal(),
    {
        proof {
            reveal_strlit("⚠");
            reveal_strlit("git-shade pull --force");
            lemma_plain_text_holds_no_closing_sequence("⚠"@);
            lemma_plain_text_holds_no_closing_sequence("git-shade pull --force"@);
        }
        ReportMarks {
            title: red_bold("⚠"),
            entry: yellow("⚠"),
            force_command: bold("git-shade pull --force"),
        }
    }

    /// The marks without any decoration.
    pub fn plain() -> (marks: ReportMarks)
        ensures
            marks.title@ == "⚠"@,
            marks.entry@ == "⚠"@,
            marks.force_command@ == "git-shade pull --force"@,
    {
        ReportMarks {
            title: String::from_str("⚠"),
            entry: String::from_str("⚠"),
            force_command: String::from_str("git-shade pull --force"),
        }
    }
}

/// Writes the report on `conflicts` with the given marks: each file with
/// both modification times and the last pull they were held against, then
/// the way out. `shade_dir` is where the shared copies lie.
pub fn render_conflict_message(
    conflicts: &[ConflictInfo],
    shade_dir: &str,
    marks: &ReportMarks,
) -> (message: String)
    ensures
        message@ == report_text(conflicts@, shade_dir@, *marks),
{
    let mut message = String::new();
    message.append(marks.title.as_str());
    message.append(" CONFLICTS DETECTED\n\n");
    message.append(
        "The following files were modified both locally and remotely since last pull:\n\n",
    );
    assert(message@ =~= heading_text(marks.title@));
    let mut i: usize = 0;
    assert(conflicts@.take(0) =~= Seq::empty());
    while i < conflicts.len()
        invariant
            i <= conflicts@.len(),
            message@ == heading_text(marks.title@) + entries_text(
                conflicts@.take(i as int),
                marks.entry@,
            ),
        decreases conflicts@.len() - i,
    {
        let lines = conflicts[i].describe(marks.entry.as_str());
        proof {
            let before = conflicts@.take(i as int);
            let with = conflicts@.take(i + 1);
            assert(with.drop_last() =~= before);
            assert(with.last() == conflicts@[i as int]);
            assert((heading_text(marks.title@) + entries_text(before, marks.entry@)) + lines@
                =~= heading_text(marks.title@) + entries_text(with, marks.entry@));
        }
        message.append(lines.as_str());
        i += 1;
    }
    assert(conflicts@.take(i as int) =~= conflicts@);
    let ghost listed = message@;
    message.append("Manual resolution required:\n");
    message.append("  1. Go to ");
    message.append(shade_dir);
    message.append("\n");
    message.append("  2. Review the remote versions\n");
    message.append("  3. Choose which version to keep, OR manually merge\n");
    message.append("  4. Copy resolved files to your project\n");
    message.append("  5. OR use ");
    message.append(marks.force_command.as_str());
    message.append(" to overwrite local with remote\n");
    message.append("\n");
    message.append("Aborted. No files were modified.");
    assert(message@ =~= listed + remedy_text(shade_dir@, marks.force_command@));
    message
}

/// Writes the report on `conflicts` as the terminal at hand shows it: the
/// wording is fixed, and the marks are the report's own signs, bare or
/// between their escape sequences as the terminal has it.
pub fn format_conflict_message(conflicts: &[ConflictInfo], shade_dir: &str) -> (message: String)
    ensures
        exists|marks: ReportMarks|
            marks.shown_on_terminal() && message@ == #[trigger] report_text(
                conflicts@,
                shade_dir@,
                marks,
            ),
{
    let marks = ReportMarks::for_terminal();
    let message = render_conflict_message(conflicts, shade_dir, &marks);
    assert(marks.shown_on_terminal() && message@ == report_text(conflicts@, shade_dir@, marks));
    message
}

} // verus!
