//! What running an external program gave back, and the record of it.

use crate::command::CommandSpec;
use crate::text::{decode, decoded};
use vstd::prelude::*;
use vstd::string::StringSliceAdditionalSpecFns;
use vstd::utf8::{encode_utf8_decode_utf8, encode_utf8_valid_utf8};

verus! {

/// The result of one subprocess: whether it ended well, and what it wrote.
/// A program that could not be started is reported in the same way, as a
/// failure.
#[derive(Debug, PartialEq, Eq)]
pub struct ProcessResult {
    pub success: bool,
    pub stdout: Vec<u8>,
    pub stderr: Vec<u8>,
}

/// A `ProcessResult` with its outputs as sequences of bytes.
pub struct ResultView {
    pub success: bool,
    pub stdout: Seq<u8>,
    pub stderr: Seq<u8>,
}

impl View for ProcessResult {
    type V = ResultView;

    open spec fn view(&self) -> ResultView {
        ResultView { success: self.success, stdout: self.stdout@, stderr: self.stderr@ }
    }
}

impl Clone for ProcessResult {
    fn clone(&self) -> (copy: Self)
        ensures
            copy@ == self@,
    {
        ProcessResult {
            success: self.success,
            stdout: self.stdout.clone(),
            stderr: self.stderr.clone(),
        }
    }
}

/// The line that reports a failed subprocess: the heading and then what the
/// subprocess wrote to its error stream. A subprocess that ended well is not
/// reported.
pub open spec fn failure_text(heading: Seq<char>, result: ResultView) -> Option<Seq<char>> {
    if result.success {
        None
    } else {
        Some(heading + decoded(result.stderr))
    }
}

/// The lines that report the failures among `results`, oldest first. The
/// result at place `i` is reported under the heading `headings(i)`.
pub open spec fn failure_lines(
    headings: spec_fn(int) -> Seq<char>,
    results: Seq<ResultView>,
) -> Seq<Seq<char>>
    decreases results.len(),
{
    if results.len() == 0 {
        Seq::empty()
    } else {
        let earlier = failure_lines(headings, results.drop_last());
        match failure_text(headings(results.len() - 1), results.last()) {
            Some(line) => earlier.push(line),
            None => earlier,
        }
    }
}

/// One more result adds its line, if it is a failure, after the lines of
/// the results before it.
pub proof fn lemma_failure_lines_push(
    headings: spec_fn(int) -> Seq<char>,
    results: Seq<ResultView>,
    result: ResultView,
)
    ensures
        failure_lines(headings, results.push(result)) == match failure_text(
            headings(results.len() as int),
            result,
        ) {
            Some(line) => failure_lines(headings, results).push(line),
            None => failure_lines(headings, results),
        },
{
    assert(results.push(result).drop_last() =~= results);
}

impl ProcessResult {
    /// The result that stands for a program that could not be started: a
    /// failure with nothing on its output and `reason` on its error stream,
    /// so that it is reported with `reason` as its detail.
    pub fn launch_failure(reason: &str) -> (result: ProcessResult)
        ensures
            !result.success,
            result.stdout@ == Seq::<u8>::empty(),
            result.stderr@ == reason.spec_bytes(),
            decoded(result.stderr@) == reason@,
    {
        proof {
            encode_utf8_valid_utf8(reason@);
            encode_utf8_decode_utf8(reason@);
        }
        ProcessResult { success: false, stdout: Vec::new(), stderr: reason.as_bytes_vec() }
    }

    /// The line that reports this result under `heading`, if it is a
    /// failure.
    pub fn diagnostic(&self, heading: &str) -> (line: Option<String>)
        ensures
            line is Some <==> !self.success,
            line matches Some(text) ==> Some(text@) == failure_text(heading@, self@),
    {
        if self.success {
            None
        } else {
            let mut text = heading.to_owned();
            let detail = decode(self.stderr.as_slice());
            text.append(detail.as_str());
            Some(text)
        }
    }
}

/// One call of the process gateway: the command, the directory it ran in,
/// and what came back.
#[derive(Debug, PartialEq, Eq)]
pub struct Exchange {
    pub command: CommandSpec,
    pub dir: String,
    pub result: ProcessResult,
}

/// The results of a list of exchanges, in their order.
pub open spec fn results_of(exchanges: Seq<Exchange>) -> Seq<ResultView> {
    Seq::new(exchanges.len(), |i: int| exchanges[i].result@)
}

} // verus!
