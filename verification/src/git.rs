//! What the answers of git mean: each query has a command, fixed in
//! `command`, and a reading of what the command wrote.

use crate::process::{ProcessResult, ResultView};
use crate::text::{
    as_chars, ascii_lowercase, decode, decoded, escape_ascii, escaped, is_graphic, is_plain,
    lemma_decoded_ascii, lemma_escaped_plain, lemma_lower_ascii, lemma_trimmed_line,
    lower_bytes, lower_chars, lowercase, trim, trimmed,
};
use vstd::prelude::*;

verus! {

/// The hash that a reference query printed, with every byte shown: the
/// output is taken as it is, so a failed query gives the empty text.
pub open spec fn head_sha(result: ResultView) -> Seq<char> {
    escaped(result.stdout)
}

/// The branch name that a branch query printed, in lower case and without
/// the white space around it. It is empty where no branch is checked out.
pub open spec fn branch_name(result: ResultView) -> Seq<char> {
    trimmed(decoded(lower_bytes(result.stdout)))
}

/// Tells whether a branch query named the branch `target`. Case does not
/// tell two names apart: what was printed and `target` are both taken in
/// lower case, as far as their ASCII letters go.
pub open spec fn names_branch(result: ResultView, target: Seq<char>) -> bool {
    branch_name(result) == lower_chars(target)
}

/// The abbreviated hash that an abbreviation query printed, without the
/// white space around it.
pub open spec fn short_hash(result: ResultView) -> Seq<char> {
    trimmed(decoded(result.stdout))
}

/// Reads the commit hash off the result of a reference query.
pub fn get_head_sha(result: &ProcessResult) -> (sha: String)
    ensures
        sha@ == head_sha(result@),
{
    escape_ascii(result.stdout.as_slice())
}

/// Reads the name of the checked-out branch off the result of a branch
/// query.
pub fn get_current_branch(result: &ProcessResult) -> (branch: String)
    ensures
        branch@ == branch_name(result@),
{
    let lowered = ascii_lowercase(result.stdout.as_slice());
    let text = decode(lowered.as_slice());
    trim(text.as_str())
}

/// Tells whether the branch that a branch query found checked out is the
/// branch `target`.
pub fn is_on_branch(result: &ProcessResult, target: &str) -> (on: bool)
    ensures
        on == names_branch(result@, target@),
{
    let found = get_current_branch(result);
    let sought = lowercase(target);
    found == sought
}

/// Reads the abbreviated hash off the result of an abbreviation query.
pub fn get_short_hash(result: &ProcessResult) -> (short: String)
    ensures
        short@ == short_hash(result@),
{
    let text = decode(result.stdout.as_slice());
    trim(text.as_str())
}

/// A hash that is printed in plain bytes, as git prints it, is read as the
/// text of those bytes.
pub proof fn lemma_plain_hash(result: ResultView)
    requires
        forall|i: int| 0 <= i < result.stdout.len() ==> is_plain(#[trigger] result.stdout[i]),
    ensures
        head_sha(result) == as_chars(result.stdout),
{
    lemma_escaped_plain(result.stdout);
}

/// A line of graphic bytes that ends with a line feed, as git prints a
/// branch name or a short hash, is read as a short hash to the text of the
/// line, and as a branch name to that text in lower case.
pub proof fn lemma_plain_line(result: ResultView, line: Seq<u8>)
    requires
        result.stdout == line.push(0x0a),
        forall|i: int| 0 <= i < line.len() ==> is_graphic(#[trigger] line[i]),
    ensures
        short_hash(result) == as_chars(line),
        branch_name(result) == as_chars(lower_bytes(line)),
{
    let lowered = lower_bytes(line);
    assert(lower_bytes(result.stdout) =~= lowered.push(0x0a));
    lemma_decoded_ascii(result.stdout);
    lemma_decoded_ascii(lower_bytes(result.stdout));
    assert(as_chars(result.stdout) =~= as_chars(line).push('\n'));
    assert(as_chars(lowered.push(0x0a)) =~= as_chars(lowered).push('\n'));
    lemma_trimmed_line(as_chars(line));
    lemma_trimmed_line(as_chars(lowered));
}

/// A branch query that prints the tracked name, in whatever case, names the
/// tracked branch.
pub proof fn lemma_printed_name_names_branch(
    result: ResultView,
    line: Seq<u8>,
    target: Seq<char>,
)
    requires
        result.stdout == line.push(0x0a),
        forall|i: int| 0 <= i < line.len() ==> is_graphic(#[trigger] line[i]),
        lower_chars(target) == lower_chars(as_chars(line)),
    ensures
        names_branch(result, target),
{
    lemma_plain_line(result, line);
    lemma_lower_ascii(line);
}

} // verus!
