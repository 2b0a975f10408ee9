//! Running one command in every member repository.

use crate::command::CommandSpec;
use crate::process::{Exchange, ProcessResult, ResultView};
use crate::repo::{RepoRef, RepoView};
use crate::text::{decode, decoded, push_char};
use vstd::prelude::*;

verus! {

/// What is written to the terminal for a command that was run in a
/// repository: what it printed and a line feed where it ended well, and a
/// line that starts with `Failed to` and gives its error stream where it
/// did not.
pub open spec fn command_output(result: ResultView) -> Seq<char> {
    if result.success {
        decoded(result.stdout).push('\n')
    } else {
        "Failed to run the command in the submodule. Error: "@ + decoded(result.stderr)
    }
}

/// Makes the text that reports the result of a command.
pub fn render_output(result: &ProcessResult) -> (output: String)
    ensures
        output@ == command_output(result@),
{
    if result.success {
        let mut output = decode(result.stdout.as_slice());
        push_char(&mut output, '\n');
        output
    } else {
        let mut output = "Failed to run the command in the submodule. Error: ".to_owned();
        let detail = decode(result.stderr.as_slice());
        output.append(detail.as_str());
        output
    }
}

/// What running a command in one repository gave.
#[derive(Debug, PartialEq, Eq)]
pub struct CommandReport {
    /// The name of the repository.
    pub name: String,
    /// Whether the command ended well.
    pub success: bool,
    /// What is written to the terminal for it.
    pub output: String,
    /// The command as it was run, with its result.
    pub exchange: Exchange,
}

impl CommandReport {
    /// The report is that of `command`, run as it is and once, in the
    /// directory of `repo`.
    pub open spec fn is_report_of(&self, repo: RepoView, command: Seq<Seq<char>>) -> bool {
        &&& self.name@ == repo.name
        &&& self.exchange.command@ == command
        &&& self.exchange.dir@ == repo.path
        &&& self.success == self.exchange.result.success
        &&& self.output@ == command_output(self.exchange.result@)
    }
}

/// Runs `command` in the directory of `repo`, through `run`, and reports
/// what it gave. A command that fails is reported like any other.
pub fn run_command<G>(repo: &RepoRef, command: &CommandSpec, run: &G) -> (report:
    CommandReport) where G: Fn(&CommandSpec, &String) -> ProcessResult
    requires
        forall|command: &CommandSpec, dir: &String| call_requires(*run, (command, dir)),
    ensures
        report.is_report_of(repo@, command@),
        call_ensures(
            *run,
            (&report.exchange.command, &report.exchange.dir),
            report.exchange.result,
        ),
{
    let issued = command.clone();
    let dir = repo.path.clone();
    let result = run(&issued, &dir);
    let output = render_output(&result);
    CommandReport {
        name: repo.name.clone(),
        success: result.success,
        output,
        exchange: Exchange { command: issued, dir, result },
    }
}

/// Runs `command` in every repository of `repos`, in their order. Each
/// repository gets its run and its report, whatever the command did in the
/// others.
pub fn run_foreach<G>(repos: &Vec<RepoRef>, command: &CommandSpec, run: &G) -> (reports: Vec<
    CommandReport,
>) where G: Fn(&CommandSpec, &String) -> ProcessResult
    requires
        forall|command: &CommandSpec, dir: &String| call_requires(*run, (command, dir)),
    ensures
        reports@.len() == repos@.len(),
        forall|i: int|
            0 <= i < repos@.len() ==> {
                &&& (#[trigger] reports@[i]).is_report_of(repos@[i]@, command@)
                &&& call_ensures(
                    *run,
                    (&reports@[i].exchange.command, &reports@[i].exchange.dir),
                    reports@[i].exchange.result,
                )
            },
{
    let mut reports: Vec<CommandReport> = Vec::new();
    let mut i: usize = 0;
    while i < repos.len()
        invariant
            forall|command: &CommandSpec, dir: &String| call_requires(*run, (command, dir)),
            i <= repos.len(),
            reports@.len() == i,
            forall|j: int|
                0 <= j < i ==> {
                    &&& (#[trigger] reports@[j]).is_report_of(repos@[j]@, command@)
                    &&& call_ensures(
                        *run,
                        (&reports@[j].exchange.command, &reports@[j].exchange.dir),
                        reports@[j].exchange.result,
                    )
                },
        decreases repos.len() - i,
    {
        reports.push(run_command(&repos[i], command, run));
        i += 1;
    }
    reports
}

} // verus!
