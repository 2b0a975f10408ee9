//! The line that reports one repository: its name, its status and the
//! remark, each in a colour of its own and in a column of its own.

use crate::status::{lemma_labels, OutcomeView, PullStatus, SyncOutcome};
use crate::sync::SyncReport;
use crate::text::{append_chars, chars_of, concatenate, concatenated, push_char, texts};
use vstd::prelude::*;

verus! {

/// The width of the column that holds the name.
pub const NAME_WIDTH: usize = 16;

/// The width of the column that holds the status.
pub const STATUS_WIDTH: usize = 10;

/// Where the remark starts in every line.
pub const REMARK_START: usize = 58;

/// `n` spaces.
pub open spec fn spaces(n: nat) -> Seq<char> {
    Seq::new(n, |i: int| ' ')
}

/// A text filled up with spaces at its end to `width` characters; a text
/// that is longer stays as it is.
pub open spec fn padded(s: Seq<char>, width: nat) -> Seq<char> {
    if s.len() >= width {
        s
    } else {
        s + spaces((width - s.len()) as nat)
    }
}

/// A text brought to `width` characters exactly: filled up with spaces at
/// its end, or cut off after `width` characters.
pub open spec fn fitted(s: Seq<char>, width: nat) -> Seq<char> {
    if s.len() > width {
        s.take(width as int)
    } else {
        padded(s, width)
    }
}

/// The line that reports a repository: in pink the name, in a column of
/// `NAME_WIDTH` characters; in cyan the label of the status, in a column of
/// `STATUS_WIDTH`; in white the remark; and the colours set back at the
/// end.
pub open spec fn status_line_text(name: Seq<char>, status: PullStatus, remark: Seq<char>) -> Seq<
    char,
> {
    "\x1b[38;5;198;1m"@ + fitted(name, NAME_WIDTH as nat) + " \x1b[1;36m"@ + padded(
        status.label(),
        STATUS_WIDTH as nat,
    ) + " \x1b[1;37m   "@ + remark + "\x1b[0m"@
}

fn append_spaces(text: &mut String, n: usize)
    ensures
        final(text)@ == old(text)@ + spaces(n as nat),
{
    let mut i: usize = 0;
    while i < n
        invariant
            i <= n,
            text@ == old(text)@ + spaces(i as nat),
        decreases n - i,
    {
        push_char(text, ' ');
        i += 1;
    }
}

fn append_padded(text: &mut String, s: &str, width: usize)
    ensures
        final(text)@ == old(text)@ + padded(s@, width as nat),
{
    let chars = chars_of(s);
    append_chars(text, &chars, 0, chars.len());
    if chars.len() < width {
        append_spaces(text, width - chars.len());
    }
}

fn append_fitted(text: &mut String, s: &str, width: usize)
    ensures
        final(text)@ == old(text)@ + fitted(s@, width as nat),
{
    let chars = chars_of(s);
    if chars.len() > width {
        append_chars(text, &chars, 0, width);
    } else {
        append_padded(text, s, width);
    }
}

/// Makes the line that reports the repository `name`.
pub fn status_line(name: &str, status: PullStatus, remark: &str) -> (line: String)
    ensures
        line@ == status_line_text(name@, status, remark@),
{
    let mut line = "\x1b[38;5;198;1m".to_owned();
    append_fitted(&mut line, name, NAME_WIDTH);
    line.append(" \x1b[1;36m");
    append_padded(&mut line, status.to_str(), STATUS_WIDTH);
    line.append(" \x1b[1;37m   ");
    line.append(remark);
    line.append("\x1b[0m");
    line
}

/// Makes the line that reports the outcome of the repository `name`.
pub fn outcome_line(name: &str, outcome: &SyncOutcome) -> (line: String)
    ensures
        line@ == status_line_text(name@, outcome.status, outcome.remark@),
{
    status_line(name, outcome.status, outcome.remark.as_str())
}

/// What is written to the terminal for one repository: the lines that
/// report what failed, as they are, then the line of the outcome, and a
/// line feed.
pub open spec fn sync_report_text(
    name: Seq<char>,
    diagnostics: Seq<Seq<char>>,
    outcome: OutcomeView,
) -> Seq<char> {
    concatenated(diagnostics) + status_line_text(name, outcome.status, outcome.remark).push('\n')
}

/// Makes the text that reports the synchronisation of one repository.
pub fn render_sync_report(report: &SyncReport) -> (text: String)
    ensures
        text@ == sync_report_text(report.name@, texts(report.diagnostics@), report.outcome@),
{
    let mut text = concatenate(&report.diagnostics);
    let line = outcome_line(report.name.as_str(), &report.outcome);
    text.append(line.as_str());
    push_char(&mut text, '\n');
    text
}

/// The columns stand at the same places in every line: the name fills the
/// `NAME_WIDTH` characters from place 13 on, the status the `STATUS_WIDTH`
/// from place 37 on, and the remark starts at `REMARK_START`, whatever the
/// name and the status are.
pub proof fn lemma_columns_are_aligned(name: Seq<char>, status: PullStatus, remark: Seq<char>)
    ensures
        status_line_text(name, status, remark).len() == REMARK_START + remark.len() + 4,
        status_line_text(name, status, remark).subrange(13, 13 + NAME_WIDTH) == fitted(
            name,
            NAME_WIDTH as nat,
        ),
        status_line_text(name, status, remark).subrange(37, 37 + STATUS_WIDTH) == padded(
            status.label(),
            STATUS_WIDTH as nat,
        ),
        status_line_text(name, status, remark).subrange(
            REMARK_START as int,
            REMARK_START + remark.len(),
        ) == remark,
{
    reveal_strlit("\x1b[38;5;198;1m");
    reveal_strlit(" \x1b[1;36m");
    reveal_strlit(" \x1b[1;37m   ");
    reveal_strlit("\x1b[0m");
    lemma_labels(status, status);
}

} // verus!
