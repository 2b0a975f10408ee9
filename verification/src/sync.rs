//! The synchronisation of one repository: record where `HEAD` is, fetch,
//! look at the checked-out branch, move it forward if it is the tracked one,
//! and classify what happened.
//!
//! The engine runs no program itself. A `SyncSession` says which command is
//! due, takes the result of that command, and says which is due next; its
//! whole state is the list of the results it has taken so far.
//! `pull_single_repo` drives a session through a gateway that the caller
//! hands in.

use crate::command::{
    current_branch_argv, fast_forward_argv, fetch_argv, is_merge, lemma_only_fast_forward_merges,
    resolve_ref_argv, short_hash_argv, CommandSpec,
};
use crate::git::{
    get_head_sha, get_short_hash, head_sha, is_on_branch, names_branch, short_hash,
};
use crate::process::{
    failure_lines, failure_text, lemma_failure_lines_push, results_of, Exchange, ProcessResult,
    ResultView,
};
use crate::repo::{RepoRef, RepoView};
use crate::status::{OutcomeView, PullStatus, SyncOutcome};
use crate::text::texts;
use vstd::prelude::*;

verus! {

/// The stages of a session. Every session goes from `Start` to `Fetched`
/// to `BranchChecked`, from there through `Skipped` or through
/// `ForwardAttempted`, and ends in `Classified`.
#[derive(Clone, Copy, Debug, PartialEq, Eq, Structural)]
pub enum SyncStage {
    /// The fetch has not come back yet.
    Start,
    /// The fetch has come back, well or not.
    Fetched,
    /// The branch query has come back. Where it named the tracked branch,
    /// the fast-forward is due.
    BranchChecked,
    /// Another branch than the tracked one was found checked out: nothing
    /// is moved. No command is due at this stage, so a session passes it
    /// and is classified with the result that brought it here.
    Skipped,
    /// The fast-forward has come back, well or not.
    ForwardAttempted,
    /// The outcome is known.
    Classified,
}

/// The remote that is fetched from where the caller names no other.
pub fn default_remote() -> (remote: &'static str)
    ensures
        remote@ == "origin"@,
{
    "origin"
}

/// The place of the first reference query in a session: it records where
/// `HEAD` is before anything is done.
pub const HEAD_BEFORE: usize = 0;

/// The place of the fetch.
pub const FETCH: usize = 1;

/// The place of the branch query.
pub const BRANCH_QUERY: usize = 2;

/// The place of the fast-forward.
pub const FAST_FORWARD: usize = 3;

/// The place of the second reference query: it records where `HEAD` is
/// after the fast-forward.
pub const HEAD_AFTER: usize = 4;

/// The place of the query that abbreviates the first hash.
pub const SHORT_BEFORE: usize = 5;

/// The place of the query that abbreviates the second hash.
pub const SHORT_AFTER: usize = 6;

/// The number of results that a session takes when it does not skip.
pub const FULL_RUN: usize = 7;

/// The heading under which a failure of the command at place `step` of a
/// session is reported. The branch query is reported as the fetch is.
pub open spec fn heading(step: int) -> Seq<char> {
    if step == HEAD_BEFORE || step == HEAD_AFTER {
        "Failed to resolve the given reference. Error: "@
    } else if step == FETCH || step == BRANCH_QUERY {
        "Failed to fetch the repo. Error: "@
    } else if step == FAST_FORWARD {
        "Failed to fast-forward the repo. Error: "@
    } else {
        "Failed to get a short hash for the given commit. Error: "@
    }
}

/// `heading` as a function of the place.
pub open spec fn headings() -> spec_fn(int) -> Seq<char> {
    |step: int| heading(step)
}

/// A branch and, in brackets, the short hash of the commit it is at.
pub open spec fn hash_remark(branch: Seq<char>, short: Seq<char>) -> Seq<char> {
    branch + "("@ + short + ")"@
}

/// The outcome of a repository that has another branch checked out than the
/// tracked one: nothing was moved.
pub open spec fn skipped_outcome(before: Seq<char>) -> OutcomeView {
    OutcomeView {
        status: PullStatus::Unchanged,
        before_hash: before,
        after_hash: before,
        remark: "not on tracked branch"@,
    }
}

/// The outcome of a repository whose tracked branch is checked out, from the
/// hashes of `HEAD` before and after the fast-forward and their
/// abbreviations.
pub open spec fn classify(
    branch: Seq<char>,
    before: Seq<char>,
    after: Seq<char>,
    short_before: Seq<char>,
    short_after: Seq<char>,
) -> OutcomeView {
    if before == after {
        OutcomeView {
            status: PullStatus::UpToDate,
            before_hash: before,
            after_hash: after,
            remark: hash_remark(branch, short_before),
        }
    } else {
        OutcomeView {
            status: PullStatus::Updated,
            before_hash: before,
            after_hash: after,
            remark: hash_remark(branch, short_before) + " -> "@ + hash_remark(branch, short_after),
        }
    }
}

/// The state of a session: the repository, the remote, and the results
/// taken so far, oldest first.
pub struct SessionView {
    pub repo: RepoView,
    pub remote: Seq<char>,
    pub history: Seq<ResultView>,
}

impl SessionView {
    /// The session that has taken no result yet.
    pub open spec fn initial(repo: RepoView, remote: Seq<char>) -> SessionView {
        SessionView { repo, remote, history: Seq::empty() }
    }

    /// The session as it was after its first `n` results.
    pub open spec fn at(self, n: int) -> SessionView {
        SessionView { repo: self.repo, remote: self.remote, history: self.history.take(n) }
    }

    /// The branch query has come back and named the tracked branch. Case
    /// does not tell the two names apart; the commands and the remark carry
    /// the tracked name as it was given.
    pub open spec fn on_tracked_branch(self) -> bool {
        &&& self.history.len() > BRANCH_QUERY
        &&& names_branch(self.history[BRANCH_QUERY as int], self.repo.branch)
    }

    /// The branch query has come back and named another branch.
    pub open spec fn skipped(self) -> bool {
        &&& self.history.len() > BRANCH_QUERY
        &&& !names_branch(self.history[BRANCH_QUERY as int], self.repo.branch)
    }

    /// No further command is due.
    pub open spec fn finished(self) -> bool {
        self.skipped() || self.history.len() >= FULL_RUN
    }

    /// What holds of every session: it takes no result once it has
    /// finished.
    pub open spec fn reachable(self) -> bool {
        &&& self.history.len() <= FULL_RUN
        &&& self.history.len() > FAST_FORWARD ==> self.on_tracked_branch()
    }

    /// The command that is due, none once the session has finished.
    pub open spec fn pending(self) -> Option<Seq<Seq<char>>> {
        let n = self.history.len();
        if self.finished() {
            None
        } else if n == HEAD_BEFORE || n == HEAD_AFTER {
            Some(resolve_ref_argv("HEAD"@))
        } else if n == FETCH {
            Some(fetch_argv(self.remote, self.repo.branch))
        } else if n == BRANCH_QUERY {
            Some(current_branch_argv())
        } else if n == FAST_FORWARD {
            Some(fast_forward_argv(self.remote, self.repo.branch))
        } else if n == SHORT_BEFORE {
            Some(short_hash_argv(head_sha(self.history[HEAD_BEFORE as int])))
        } else {
            Some(short_hash_argv(head_sha(self.history[HEAD_AFTER as int])))
        }
    }

    /// The session after it has taken `result` for the command that was due.
    /// A finished session takes nothing.
    pub open spec fn record(self, result: ResultView) -> SessionView {
        if self.finished() {
            self
        } else {
            SessionView {
                repo: self.repo,
                remote: self.remote,
                history: self.history.push(result),
            }
        }
    }

    /// The line that reports `result`, taken for the command that was due,
    /// if it is a failure.
    pub open spec fn diagnostic(self, result: ResultView) -> Option<Seq<char>> {
        if self.finished() {
            None
        } else {
            failure_text(heading(self.history.len() as int), result)
        }
    }

    /// The lines that report the failures among the results taken so far,
    /// oldest first.
    pub open spec fn diagnostics(self) -> Seq<Seq<char>> {
        failure_lines(headings(), self.history)
    }

    /// The outcome, known once the session has finished.
    pub open spec fn outcome(self) -> Option<OutcomeView> {
        if self.skipped() {
            Some(skipped_outcome(head_sha(self.history[HEAD_BEFORE as int])))
        } else if self.history.len() >= FULL_RUN {
            Some(
                classify(
                    self.repo.branch,
                    head_sha(self.history[HEAD_BEFORE as int]),
                    head_sha(self.history[HEAD_AFTER as int]),
                    short_hash(self.history[SHORT_BEFORE as int]),
                    short_hash(self.history[SHORT_AFTER as int]),
                ),
            )
        } else {
            None
        }
    }

    /// The stages that the session has entered so far, in their order.
    pub open spec fn stages(self) -> Seq<SyncStage> {
        let n = self.history.len();
        if n <= FETCH {
            seq![SyncStage::Start]
        } else if n == BRANCH_QUERY {
            seq![SyncStage::Start, SyncStage::Fetched]
        } else if self.skipped() {
            seq![
                SyncStage::Start,
                SyncStage::Fetched,
                SyncStage::BranchChecked,
                SyncStage::Skipped,
                SyncStage::Classified,
            ]
        } else if n == FAST_FORWARD {
            seq![SyncStage::Start, SyncStage::Fetched, SyncStage::BranchChecked]
        } else if n < FULL_RUN {
            seq![
                SyncStage::Start,
                SyncStage::Fetched,
                SyncStage::BranchChecked,
                SyncStage::ForwardAttempted,
            ]
        } else {
            seq![
                SyncStage::Start,
                SyncStage::Fetched,
                SyncStage::BranchChecked,
                SyncStage::ForwardAttempted,
                SyncStage::Classified,
            ]
        }
    }

    /// Where the session stands: the stage that it entered last.
    pub open spec fn stage(self) -> SyncStage {
        self.stages().last()
    }
}

/// Classifies a repository whose tracked branch is checked out.
pub fn classify_outcome(
    branch: &str,
    before: String,
    after: String,
    short_before: &str,
    short_after: &str,
) -> (outcome: SyncOutcome)
    ensures
        outcome@ == classify(branch@, before@, after@, short_before@, short_after@),
{
    let mut remark = branch.to_owned();
    remark.append("(");
    remark.append(short_before);
    remark.append(")");
    if before == after {
        SyncOutcome { status: PullStatus::UpToDate, before_hash: before, after_hash: after, remark }
    } else {
        remark.append(" -> ");
        remark.append(branch);
        remark.append("(");
        remark.append(short_after);
        remark.append(")");
        assert(remark@ =~= hash_remark(branch@, short_before@) + " -> "@ + hash_remark(
            branch@,
            short_after@,
        ));
        SyncOutcome { status: PullStatus::Updated, before_hash: before, after_hash: after, remark }
    }
}

/// The outcome of a repository that has another branch checked out.
pub fn unchanged_outcome(before: String) -> (outcome: SyncOutcome)
    ensures
        outcome@ == skipped_outcome(before@),
{
    let after = before.clone();
    SyncOutcome {
        status: PullStatus::Unchanged,
        before_hash: before,
        after_hash: after,
        remark: "not on tracked branch".to_owned(),
    }
}

fn heading_of(step: usize) -> (text: &'static str)
    ensures
        text@ == heading(step as int),
{
    if step == HEAD_BEFORE || step == HEAD_AFTER {
        "Failed to resolve the given reference. Error: "
    } else if step == FETCH || step == BRANCH_QUERY {
        "Failed to fetch the repo. Error: "
    } else if step == FAST_FORWARD {
        "Failed to fast-forward the repo. Error: "
    } else {
        "Failed to get a short hash for the given commit. Error: "
    }
}

/// The synchronisation of one repository, as far as it has come.
pub struct SyncSession {
    repo: RepoRef,
    remote: String,
    taken: usize,
    skipped: bool,
    before: String,
    after: String,
    short_before: String,
    short_after: String,
    history: Ghost<Seq<ResultView>>,
}

impl View for SyncSession {
    type V = SessionView;

    closed spec fn view(&self) -> SessionView {
        SessionView { repo: self.repo@, remote: self.remote@, history: self.history@ }
    }
}

/// What advancing a session by one result gives: the session after it, and
/// the line that reports the result if it was a failure.
pub struct SyncStep {
    pub session: SyncSession,
    pub diagnostic: Option<String>,
}

impl SyncSession {
    #[verifier::type_invariant]
    spec fn well_formed(self) -> bool {
        let history = self.history@;
        &&& self@.reachable()
        &&& self.taken == history.len()
        &&& self.skipped == self@.skipped()
        &&& history.len() > HEAD_BEFORE ==> self.before@ == head_sha(history[HEAD_BEFORE as int])
        &&& history.len() > HEAD_AFTER ==> self.after@ == head_sha(history[HEAD_AFTER as int])
        &&& history.len() > SHORT_BEFORE ==> self.short_before@ == short_hash(
            history[SHORT_BEFORE as int],
        )
        &&& history.len() > SHORT_AFTER ==> self.short_after@ == short_hash(
            history[SHORT_AFTER as int],
        )
    }

    /// The session for `repo` that has done nothing yet. `remote` names the
    /// remote that is fetched from.
    pub fn start(repo: RepoRef, remote: &str) -> (session: SyncSession)
        ensures
            session@ == SessionView::initial(repo@, remote@),
    {
        SyncSession {
            repo,
            remote: remote.to_owned(),
            taken: 0,
            skipped: false,
            before: String::new(),
            after: String::new(),
            short_before: String::new(),
            short_after: String::new(),
            history: Ghost(Seq::empty()),
        }
    }

    /// The repository that the session is about.
    pub fn repo(&self) -> (repo: &RepoRef)
        ensures
            repo@ == self@.repo,
    {
        &self.repo
    }

    /// Tells whether the outcome is known.
    pub fn is_finished(&self) -> (finished: bool)
        ensures
            finished == self@.finished(),
            self@.reachable(),
    {
        proof {
            use_type_invariant(self);
        }
        self.skipped || self.taken >= FULL_RUN
    }

    /// Tells whether the fast-forward was skipped because another branch
    /// than the tracked one is checked out.
    pub fn is_skipped(&self) -> (skipped: bool)
        ensures
            skipped == self@.skipped(),
    {
        proof {
            use_type_invariant(self);
        }
        self.skipped
    }

    /// The stages that the session has entered so far, in their order.
    pub fn stages(&self) -> (stages: Vec<SyncStage>)
        ensures
            stages@ == self@.stages(),
    {
        proof {
            use_type_invariant(self);
        }
        let mut stages: Vec<SyncStage> = Vec::new();
        stages.push(SyncStage::Start);
        if self.taken > FETCH {
            stages.push(SyncStage::Fetched);
        }
        if self.taken > BRANCH_QUERY {
            stages.push(SyncStage::BranchChecked);
        }
        if self.skipped {
            stages.push(SyncStage::Skipped);
            stages.push(SyncStage::Classified);
        } else {
            if self.taken > FAST_FORWARD {
                stages.push(SyncStage::ForwardAttempted);
            }
            if self.taken >= FULL_RUN {
                stages.push(SyncStage::Classified);
            }
        }
        stages
    }

    /// Where the session stands: the stage that it entered last.
    pub fn stage(&self) -> (stage: SyncStage)
        ensures
            stage == self@.stage(),
    {
        proof {
            use_type_invariant(self);
        }
        if self.skipped || self.taken >= FULL_RUN {
            SyncStage::Classified
        } else if self.taken <= FETCH {
            SyncStage::Start
        } else if self.taken == BRANCH_QUERY {
            SyncStage::Fetched
        } else if self.taken == FAST_FORWARD {
            SyncStage::BranchChecked
        } else {
            SyncStage::ForwardAttempted
        }
    }

    /// The command that is due, to be run in the repository's directory;
    /// none once the session has finished.
    pub fn pending(&self) -> (command: Option<CommandSpec>)
        ensures
            self@.reachable(),
            command is Some <==> !self@.finished(),
            command matches Some(c) ==> Some(c@) == self@.pending(),
    {
        proof {
            use_type_invariant(self);
        }
        if self.skipped || self.taken >= FULL_RUN {
            None
        } else if self.taken == HEAD_BEFORE || self.taken == HEAD_AFTER {
            Some(CommandSpec::resolve_ref("HEAD"))
        } else if self.taken == FETCH {
            Some(CommandSpec::fetch(self.remote.as_str(), self.repo.branch.as_str()))
        } else if self.taken == BRANCH_QUERY {
            Some(CommandSpec::current_branch())
        } else if self.taken == FAST_FORWARD {
            Some(CommandSpec::fast_forward(self.remote.as_str(), self.repo.branch.as_str()))
        } else if self.taken == SHORT_BEFORE {
            Some(CommandSpec::short_hash(self.before.as_str()))
        } else {
            Some(CommandSpec::short_hash(self.after.as_str()))
        }
    }

    /// Takes `result` as the result of the command that was due. A failure
    /// is reported and the session goes on all the same. A finished session
    /// takes nothing and stays as it is.
    pub fn record(self, result: &ProcessResult) -> (step: SyncStep)
        ensures
            step.session@ == self@.record(result@),
            step.session@.reachable(),
            step.diagnostic is Some <==> self@.diagnostic(result@) is Some,
            step.diagnostic matches Some(line) ==> Some(line@) == self@.diagnostic(result@),
    {
        proof {
            use_type_invariant(&self);
        }
        if self.skipped || self.taken >= FULL_RUN {
            return SyncStep { session: self, diagnostic: None };
        }
        let diagnostic = result.diagnostic(heading_of(self.taken));
        let ghost history = self.history@.push(result@);
        let taken: usize = self.taken;
        let history = Ghost(history);
        let next = if taken == HEAD_BEFORE {
            SyncSession { before: get_head_sha(result), taken: taken + 1, history, ..self }
        } else if taken == BRANCH_QUERY {
            let skipped = !is_on_branch(result, self.repo.branch.as_str());
            SyncSession { skipped, taken: taken + 1, history, ..self }
        } else if taken == HEAD_AFTER {
            SyncSession { after: get_head_sha(result), taken: taken + 1, history, ..self }
        } else if taken == SHORT_BEFORE {
            SyncSession { short_before: get_short_hash(result), taken: taken + 1, history, ..self }
        } else if taken == SHORT_AFTER {
            SyncSession { short_after: get_short_hash(result), taken: taken + 1, history, ..self }
        } else {
            SyncSession { taken: taken + 1, history, ..self }
        };
        SyncStep { session: next, diagnostic }
    }

    /// The outcome, once the session has finished.
    pub fn outcome(&self) -> (outcome: Option<SyncOutcome>)
        ensures
            outcome is Some <==> self@.finished(),
            outcome matches Some(o) ==> Some(o@) == self@.outcome(),
    {
        proof {
            use_type_invariant(self);
        }
        if self.skipped {
            Some(unchanged_outcome(self.before.clone()))
        } else if self.taken >= FULL_RUN {
            Some(
                classify_outcome(
                    self.repo.branch.as_str(),
                    self.before.clone(),
                    self.after.clone(),
                    self.short_before.as_str(),
                    self.short_after.as_str(),
                ),
            )
        } else {
            None
        }
    }
}

/// What the synchronisation of one repository did and found.
#[derive(Debug, PartialEq, Eq)]
pub struct SyncReport {
    /// The name of the repository.
    pub name: String,
    /// The outcome: there is exactly one, whatever failed on the way.
    pub outcome: SyncOutcome,
    /// The lines that report the commands that failed, in their order, to
    /// be written as they are: what a subprocess wrote to its error stream
    /// ends the line.
    pub diagnostics: Vec<String>,
    /// Every command that was run, with its result, in their order.
    pub exchanges: Vec<Exchange>,
}

impl SyncReport {
    /// The session that took the results of this report.
    pub open spec fn session(&self, repo: RepoView, remote: Seq<char>) -> SessionView {
        SessionView { repo, remote, history: results_of(self.exchanges@) }
    }

    /// The report is that of a whole run on `repo`: each command was the one
    /// that was due after the results before it, each ran in the
    /// repository's directory, the run went on until the session had
    /// finished and no further, and the outcome and the diagnostics are
    /// those of the session.
    pub open spec fn is_run_of(&self, repo: RepoView, remote: Seq<char>) -> bool {
        let session = self.session(repo, remote);
        &&& self.name@ == repo.name
        &&& session.reachable()
        &&& session.finished()
        &&& forall|i: int|
            0 <= i < self.exchanges@.len() ==> {
                &&& Some((#[trigger] self.exchanges@[i]).command@) == session.at(i).pending()
                &&& self.exchanges@[i].dir@ == repo.path
            }
        &&& Some(self.outcome@) == session.outcome()
        &&& texts(self.diagnostics@) == session.diagnostics()
    }
}

/// Fetches the latest commits of the branch that `repo` tracks and moves the
/// branch forward if, and only if, it is the one checked out. `run` is the
/// process gateway: it is called with each command and the repository's
/// directory, one command after the other, and whatever it reports, failure
/// or not, the run goes on to its end and gives one outcome.
pub fn pull_single_repo<G>(repo: &RepoRef, remote: &str, run: &G) -> (report: SyncReport) where
    G: Fn(&CommandSpec, &String) -> ProcessResult,

    requires
        forall|command: &CommandSpec, dir: &String| call_requires(*run, (command, dir)),
    ensures
        report.is_run_of(repo@, remote@),
        forall|i: int|
            0 <= i < report.exchanges@.len() ==> call_ensures(
                *run,
                (&report.exchanges@[i].command, &report.exchanges@[i].dir),
                (#[trigger] report.exchanges@[i]).result,
            ),
{
    let mut session = SyncSession::start(repo.clone(), remote);
    let mut diagnostics: Vec<String> = Vec::new();
    let mut exchanges: Vec<Exchange> = Vec::new();
    let mut due = session.pending();
    while due.is_some()
        invariant
            forall|command: &CommandSpec, dir: &String| call_requires(*run, (command, dir)),
            session@.repo == repo@,
            session@.remote == remote@,
            session@.reachable(),
            session@.history == results_of(exchanges@),
            due is Some <==> !session@.finished(),
            due matches Some(c) ==> Some(c@) == session@.pending(),
            texts(diagnostics@) == session@.diagnostics(),
            forall|i: int|
                0 <= i < exchanges@.len() ==> {
                    &&& Some((#[trigger] exchanges@[i]).command@) == session@.at(i).pending()
                    &&& exchanges@[i].dir@ == repo@.path
                },
            forall|i: int|
                0 <= i < exchanges@.len() ==> call_ensures(
                    *run,
                    (&exchanges@[i].command, &exchanges@[i].dir),
                    (#[trigger] exchanges@[i]).result,
                ),
        decreases FULL_RUN - session@.history.len(),
    {
        let command = due.unwrap();
        let dir = repo.path.clone();
        let result = run(&command, &dir);
        let ghost before = session@;
        let step = session.record(&result);
        session = step.session;
        proof {
            lemma_failure_lines_push(headings(), before.history, result@);
        }
        match step.diagnostic {
            Some(line) => {
                diagnostics.push(line);
            },
            None => {},
        }
        exchanges.push(Exchange { command, dir, result });
        due = session.pending();
        proof {
            assert forall|i: int| 0 <= i < exchanges@.len() implies {
                &&& Some((#[trigger] exchanges@[i]).command@) == session@.at(i).pending()
                &&& exchanges@[i].dir@ == repo@.path
            } by {}
        }
    }
    let outcome = session.outcome().unwrap();
    SyncReport { name: repo.name.clone(), outcome, diagnostics, exchanges }
}

/// Synchronises every repository of `repos`, in their order, through the
/// gateway `run`. There is one report for each repository, that of its own
/// whole run, however many commands failed in it or in the others: no run
/// reads what another found.
pub fn sync_all<G>(repos: &Vec<RepoRef>, remote: &str, run: &G) -> (reports: Vec<SyncReport>) where
    G: Fn(&CommandSpec, &String) -> ProcessResult,

    requires
        forall|command: &CommandSpec, dir: &String| call_requires(*run, (command, dir)),
    ensures
        reports@.len() == repos@.len(),
        forall|i: int|
            0 <= i < repos@.len() ==> (#[trigger] reports@[i]).is_run_of(repos@[i]@, remote@),
        forall|i: int, k: int|
            0 <= i < reports@.len() && 0 <= k < reports@[i].exchanges@.len() ==> call_ensures(
                *run,
                (&reports@[i].exchanges@[k].command, &reports@[i].exchanges@[k].dir),
                (#[trigger] reports@[i].exchanges@[k]).result,
            ),
{
    let mut reports: Vec<SyncReport> = Vec::new();
    let mut i: usize = 0;
    while i < repos.len()
        invariant
            forall|command: &CommandSpec, dir: &String| call_requires(*run, (command, dir)),
            i <= repos.len(),
            reports@.len() == i,
            forall|j: int| 0 <= j < i ==> (#[trigger] reports@[j]).is_run_of(repos@[j]@, remote@),
            forall|j: int, k: int|
                0 <= j < reports@.len() && 0 <= k < reports@[j].exchanges@.len() ==> call_ensures(
                    *run,
                    (&reports@[j].exchanges@[k].command, &reports@[j].exchanges@[k].dir),
                    (#[trigger] reports@[j].exchanges@[k]).result,
                ),
        decreases repos.len() - i,
    {
        reports.push(pull_single_repo(&repos[i], remote, run));
        i += 1;
        proof {
            assert forall|j: int, k: int|
                0 <= j < reports@.len() && 0 <= k < reports@[j].exchanges@.len()
                    implies call_ensures(
                *run,
                (&reports@[j].exchanges@[k].command, &reports@[j].exchanges@[k].dir),
                (#[trigger] reports@[j].exchanges@[k]).result,
            ) by {}
        }
    }
    reports
}

/// The steps from one stage to the next.
pub open spec fn may_follow(from: SyncStage, to: SyncStage) -> bool {
    match from {
        SyncStage::Start => to == SyncStage::Fetched,
        SyncStage::Fetched => to == SyncStage::BranchChecked,
        SyncStage::BranchChecked => to == SyncStage::Skipped || to == SyncStage::ForwardAttempted,
        SyncStage::Skipped => to == SyncStage::Classified,
        SyncStage::ForwardAttempted => to == SyncStage::Classified,
        SyncStage::Classified => false,
    }
}

/// A session starts at `Start` and enters its stages by the steps of
/// `may_follow` only. It passes `Skipped` exactly if it found another
/// branch than the tracked one, and it is at `Classified` exactly when its
/// outcome is known and no command is due.
pub proof fn lemma_stages_in_order(session: SessionView)
    requires
        session.reachable(),
    ensures
        session.stages().first() == SyncStage::Start,
        forall|i: int|
            0 < i < session.stages().len() ==> may_follow(
                session.stages()[i - 1],
                #[trigger] session.stages()[i],
            ),
        session.stages().contains(SyncStage::Skipped) <==> session.skipped(),
        session.outcome() is Some <==> session.stage() == SyncStage::Classified,
        session.pending() is None <==> session.stage() == SyncStage::Classified,
{
}

/// Whatever result a session takes, it stays a session and keeps the stages
/// that it has entered: it only enters further ones.
pub proof fn lemma_stages_only_grow(session: SessionView, result: ResultView)
    requires
        session.reachable(),
    ensures
        session.record(result).reachable(),
        session.stages().is_prefix_of(session.record(result).stages()),
{
}

/// The status says how the hashes compare: a repository whose tracked
/// branch is checked out is up to date exactly if `HEAD` names the same
/// commit before and after, and updated exactly if it does not; a
/// repository with another branch checked out is unchanged, whatever its
/// hashes are.
pub proof fn lemma_status_follows_hashes(session: SessionView)
    requires
        session.finished(),
    ensures
        session.outcome() matches Some(outcome) && {
            &&& outcome.before_hash == head_sha(session.history[HEAD_BEFORE as int])
            &&& session.skipped() <==> outcome.status == PullStatus::Unchanged
            &&& !session.skipped() ==> outcome.after_hash == head_sha(
                session.history[HEAD_AFTER as int],
            )
            &&& !session.skipped() ==> (outcome.before_hash == outcome.after_hash
                <==> outcome.status == PullStatus::UpToDate)
            &&& !session.skipped() ==> (outcome.before_hash != outcome.after_hash
                <==> outcome.status == PullStatus::Updated)
        },
{
}

/// Running again on a repository that is up to date repeats the hashes:
/// where a run found the tracked branch up to date, and the next run finds
/// `HEAD` where the first left it and nothing new to move it to, the next
/// run reports the same two hashes and the same status.
pub proof fn lemma_rerun_repeats_hashes(first: SessionView, second: SessionView)
    requires
        first.finished(),
        second.finished(),
        !first.skipped(),
        !second.skipped(),
        first.outcome()->0.status == PullStatus::UpToDate,
        second.history[HEAD_BEFORE as int].stdout == first.history[HEAD_AFTER as int].stdout,
        second.history[HEAD_AFTER as int].stdout == second.history[HEAD_BEFORE as int].stdout,
    ensures
        second.outcome()->0.status == PullStatus::UpToDate,
        second.outcome()->0.before_hash == first.outcome()->0.before_hash,
        second.outcome()->0.after_hash == first.outcome()->0.after_hash,
{
}

/// Every line that reports a failure of a session starts with `Failed to`.
pub proof fn lemma_diagnostics_start_alike(session: SessionView, result: ResultView)
    ensures
        session.diagnostic(result) matches Some(line) ==> "Failed to "@.is_prefix_of(line),
{
    reveal_strlit("Failed to ");
    reveal_strlit("Failed to resolve the given reference. Error: ");
    reveal_strlit("Failed to fetch the repo. Error: ");
    reveal_strlit("Failed to fast-forward the repo. Error: ");
    reveal_strlit("Failed to get a short hash for the given commit. Error: ");
}

/// A fast-forward is due only right after the branch query, and only if
/// that query named the tracked branch.
pub proof fn lemma_fast_forward_needs_tracked_branch(session: SessionView)
    requires
        session.pending() matches Some(argv) && is_merge(argv),
    ensures
        session.history.len() == FAST_FORWARD,
        names_branch(session.history[BRANCH_QUERY as int], session.repo.branch),
{
    lemma_only_fast_forward_merges(session.remote, session.repo.branch, "HEAD"@);
    if session.history.len() > HEAD_AFTER {
        lemma_only_fast_forward_merges(
            session.remote,
            session.repo.branch,
            head_sha(session.history[HEAD_BEFORE as int]),
        );
        lemma_only_fast_forward_merges(
            session.remote,
            session.repo.branch,
            head_sha(session.history[HEAD_AFTER as int]),
        );
    }
}

/// In a whole run no command asks for a merge unless the tracked branch was
/// found checked out, and then exactly the one at `FAST_FORWARD` does;
/// where another branch was found, the run ended before that place and no
/// command is a merge.
pub proof fn lemma_run_merges_only_on_tracked_branch(
    report: SyncReport,
    repo: RepoView,
    remote: Seq<char>,
)
    requires
        report.is_run_of(repo, remote),
    ensures
        report.session(repo, remote).skipped() ==> report.exchanges@.len() == FAST_FORWARD,
        !report.session(repo, remote).skipped() ==> report.exchanges@.len() == FULL_RUN,
        forall|i: int|
            0 <= i < report.exchanges@.len() ==> (is_merge(
                (#[trigger] report.exchanges@[i]).command@,
            ) <==> i == FAST_FORWARD),
        report.exchanges@.len() > FAST_FORWARD ==> names_branch(
            report.exchanges@[BRANCH_QUERY as int].result@,
            repo.branch,
        ),
{
    let session = report.session(repo, remote);
    assert forall|i: int| 0 <= i < report.exchanges@.len() implies (is_merge(
        (#[trigger] report.exchanges@[i]).command@,
    ) <==> i == FAST_FORWARD) by {
        let earlier = session.at(i);
        if is_merge(report.exchanges@[i].command@) {
            lemma_fast_forward_needs_tracked_branch(earlier);
        } else if i == FAST_FORWARD {
            lemma_only_fast_forward_merges(remote, repo.branch, "HEAD"@);
        }
    }
}

} // verus!
