//! Finding the member repositories. There are two ways, and exactly one of
//! them is taken: where the working directory is itself a repository, its
//! submodules are the members and nothing else is looked at; where it is
//! not, the directories below it are scanned for repositories.

use crate::command::{current_branch_argv, scan_argv, CommandSpec};
use crate::git::{branch_name, get_current_branch};
use crate::process::{
    failure_lines, lemma_failure_lines_push, results_of, Exchange, ProcessResult, ResultView,
};
use crate::repo::{join_path, joined, RepoRef, RepoView};
use crate::text::{
    decode, decoded, lines, lines_of, push_char, strip_suffix, texts, trim, trimmed,
    without_suffix,
};
use vstd::prelude::*;

verus! {

/// What the metadata of the super repository says of one submodule. A name
/// or a branch that is not text is absent, as one that is not configured.
#[derive(Debug, PartialEq, Eq)]
pub struct SubmoduleEntry {
    pub name: Option<String>,
    pub branch: Option<String>,
}

/// A `SubmoduleEntry` with its texts as sequences of characters.
pub struct EntryView {
    pub name: Option<Seq<char>>,
    pub branch: Option<Seq<char>>,
}

impl View for SubmoduleEntry {
    type V = EntryView;

    open spec fn view(&self) -> EntryView {
        EntryView {
            name: match self.name {
                Some(name) => Some(name@),
                None => None,
            },
            branch: match self.branch {
                Some(branch) => Some(branch@),
                None => None,
            },
        }
    }
}

/// What opening the working directory as a repository gave.
#[derive(Debug, PartialEq, Eq)]
pub enum Opened {
    /// It is a repository, and these are its submodules.
    Submodules(Vec<SubmoduleEntry>),
    /// It is a repository, but its submodules could not be listed; the text
    /// says why.
    ListingFailed(String),
    /// It is not a repository.
    NotARepository,
}

/// The way by which the members were found.
#[derive(Clone, Copy, Debug, PartialEq, Eq, Structural)]
pub enum Strategy {
    Submodules,
    Scan,
}

/// The member that a submodule stands for: it lies in the directory of its
/// name below the super repository and tracks its configured branch, or
/// `master` where none is configured. It is a member whether or not it is
/// checked out.
pub open spec fn submodule_repo(current_dir: Seq<char>, entry: EntryView) -> RepoView {
    let name = match entry.name {
        Some(name) => name,
        None => Seq::empty(),
    };
    RepoView {
        name,
        path: joined(current_dir, name),
        branch: match entry.branch {
            Some(branch) => branch,
            None => "master"@,
        },
    }
}

/// The branch that a submodule tracks where its metadata names none.
pub fn default_branch() -> (branch: &'static str)
    ensures
        branch@ == "master"@,
{
    "master"
}

/// Makes the member that a submodule stands for.
pub fn repo_of_submodule(current_dir: &str, entry: &SubmoduleEntry) -> (repo: RepoRef)
    ensures
        repo@ == submodule_repo(current_dir@, entry@),
{
    let name = match &entry.name {
        Some(name) => name.clone(),
        None => String::new(),
    };
    let branch = match &entry.branch {
        Some(branch) => branch.clone(),
        None => default_branch().to_owned(),
    };
    let path = join_path(current_dir, name.as_str());
    RepoRef { name, path, branch }
}

/// The repositories that a scan found: each line of what the scan printed
/// names a marker directory, and the repository is the directory that holds
/// it. A scan that failed found nothing.
pub open spec fn scanned_names(result: ResultView) -> Seq<Seq<char>> {
    if result.success {
        let found = lines_of(trimmed(decoded(result.stdout)));
        Seq::new(found.len(), |i: int| without_suffix(found[i], "/.git"@))
    } else {
        Seq::empty()
    }
}

/// Reads the repositories off the result of a scan.
pub fn get_git_repos(result: &ProcessResult) -> (names: Vec<String>)
    ensures
        texts(names@) == scanned_names(result@),
{
    let mut names: Vec<String> = Vec::new();
    if !result.success {
        return names;
    }
    let printed = decode(result.stdout.as_slice());
    let found = lines(trim(printed.as_str()).as_str());
    let mut i: usize = 0;
    while i < found.len()
        invariant
            i <= found.len(),
            result.success,
            texts(found@) == lines_of(trimmed(decoded(result.stdout@))),
            names@.len() == i,
            texts(names@) == scanned_names(result@).take(i as int),
        decreases found.len() - i,
    {
        let ghost before = names@;
        let name = strip_suffix(found[i].as_str(), "/.git");
        names.push(name);
        assert(texts(found@)[i as int] == found@[i as int]@);
        i += 1;
        assert forall|j: int| 0 <= j < i implies texts(names@)[j] == scanned_names(result@)[j] by {
            if j < i - 1 {
                assert(texts(before)[j] == scanned_names(result@).take(i - 1)[j]);
            }
        }
        assert(texts(names@) =~= scanned_names(result@).take(i as int));
    }
    names
}

/// The member that a scan found under `name`: it tracks the branch that it
/// has checked out, under the name that the branch query in its directory
/// is read to, which is in lower case.
pub open spec fn scanned_repo(
    current_dir: Seq<char>,
    name: Seq<char>,
    branch: ResultView,
) -> RepoView {
    RepoView { name, path: joined(current_dir, name), branch: branch_name(branch) }
}

/// The heading under which a failure of the command at place `step` of a
/// scan is reported: the scan itself comes first, the branch queries
/// follow, and these are reported as a fetch is.
pub open spec fn scan_heading(step: int) -> Seq<char> {
    if step == 0 {
        "Failed to discover all git repos. Error: "@
    } else {
        "Failed to fetch the repo. Error: "@
    }
}

/// `scan_heading` as a function of the place.
pub open spec fn scan_headings() -> spec_fn(int) -> Seq<char> {
    |step: int| scan_heading(step)
}

/// The members of a super repository, and how they were found.
#[derive(Debug, PartialEq, Eq)]
pub struct Resolution {
    pub strategy: Strategy,
    /// The members, in the order in which they were found.
    pub repos: Vec<RepoRef>,
    /// The lines that report what failed, in their order, to be written as
    /// they are.
    pub diagnostics: Vec<String>,
    /// Every command that was run, with its result, in their order.
    pub exchanges: Vec<Exchange>,
}

impl Resolution {
    /// The resolution is the one that `opened` calls for in the directory
    /// `current_dir`.
    ///
    /// Where the directory is a repository, no command was run and the
    /// members are its submodules, one each and in their order; where the
    /// submodules could not be listed there is no member, and one line,
    /// ended by a line feed, says so. Where the directory is not a
    /// repository, the scan was run in it, then one branch query in the
    /// directory of each repository that the scan found, and the members
    /// are these repositories.
    pub open spec fn is_resolution_of(&self, current_dir: Seq<char>, opened: Opened) -> bool {
        match opened {
            Opened::Submodules(entries) => {
                &&& self.strategy == Strategy::Submodules
                &&& self.exchanges@.len() == 0
                &&& self.diagnostics@.len() == 0
                &&& self.repos@.len() == entries@.len()
                &&& forall|i: int|
                    0 <= i < entries@.len() ==> (#[trigger] self.repos@[i])@ == submodule_repo(
                        current_dir,
                        entries@[i]@,
                    )
            },
            Opened::ListingFailed(reason) => {
                &&& self.strategy == Strategy::Submodules
                &&& self.exchanges@.len() == 0
                &&& self.repos@.len() == 0
                &&& texts(self.diagnostics@) == seq![
                    ("Failed to get submodules: "@ + reason@).push('\n'),
                ]
            },
            Opened::NotARepository => {
                &&& self.strategy == Strategy::Scan
                &&& self.exchanges@.len() >= 1
                &&& self.exchanges@[0].command@ == scan_argv()
                &&& self.exchanges@[0].dir@ == current_dir
                &&& self.exchanges@.len() == 1 + scanned_names(self.exchanges@[0].result@).len()
                &&& self.repos@.len() == scanned_names(self.exchanges@[0].result@).len()
                &&& forall|i: int|
                    0 <= i < self.repos@.len() ==> {
                        &&& (#[trigger] self.repos@[i])@ == scanned_repo(
                            current_dir,
                            scanned_names(self.exchanges@[0].result@)[i],
                            self.exchanges@[i + 1].result@,
                        )
                        &&& self.exchanges@[i + 1].command@ == current_branch_argv()
                        &&& self.exchanges@[i + 1].dir@ == self.repos@[i]@.path
                    }
                &&& texts(self.diagnostics@) == failure_lines(
                    scan_headings(),
                    results_of(self.exchanges@),
                )
            },
        }
    }
}

/// Finds the member repositories of the super repository in `current_dir`.
/// `opened` says what opening that directory as a repository gave, and
/// decides the way: the scan is run, through `run`, only where the
/// directory is not a repository.
pub fn resolve_repos<G>(current_dir: &String, opened: &Opened, run: &G) -> (resolution:
    Resolution) where G: Fn(&CommandSpec, &String) -> ProcessResult
    requires
        forall|command: &CommandSpec, dir: &String| call_requires(*run, (command, dir)),
    ensures
        resolution.is_resolution_of(current_dir@, *opened),
        forall|i: int|
            0 <= i < resolution.exchanges@.len() ==> call_ensures(
                *run,
                (&resolution.exchanges@[i].command, &resolution.exchanges@[i].dir),
                (#[trigger] resolution.exchanges@[i]).result,
            ),
{
    let mut repos: Vec<RepoRef> = Vec::new();
    let mut diagnostics: Vec<String> = Vec::new();
    let mut exchanges: Vec<Exchange> = Vec::new();
    match opened {
        Opened::Submodules(entries) => {
            let mut i: usize = 0;
            while i < entries.len()
                invariant
                    i <= entries.len(),
                    repos@.len() == i,
                    forall|j: int|
                        0 <= j < i ==> (#[trigger] repos@[j])@ == submodule_repo(
                            current_dir@,
                            entries@[j]@,
                        ),
                decreases entries.len() - i,
            {
                repos.push(repo_of_submodule(current_dir.as_str(), &entries[i]));
                i += 1;
            }
            Resolution { strategy: Strategy::Submodules, repos, diagnostics, exchanges }
        },
        Opened::ListingFailed(reason) => {
            let mut line = "Failed to get submodules: ".to_owned();
            line.append(reason.as_str());
            push_char(&mut line, '\n');
            diagnostics.push(line);
            assert(texts(diagnostics@) =~= seq![
                ("Failed to get submodules: "@ + reason@).push('\n'),
            ]);
            Resolution { strategy: Strategy::Submodules, repos, diagnostics, exchanges }
        },
        Opened::NotARepository => {
            let scan = CommandSpec::scan();
            let dir = current_dir.clone();
            let found = run(&scan, &dir);
            let names = get_git_repos(&found);
            proof {
                assert(results_of(exchanges@) =~= Seq::<ResultView>::empty());
                lemma_failure_lines_push(scan_headings(), results_of(exchanges@), found@);
            }
            match found.diagnostic("Failed to discover all git repos. Error: ") {
                Some(line) => {
                    diagnostics.push(line);
                    assert(texts(diagnostics@) =~= Seq::<Seq<char>>::empty().push(line@));
                },
                None => {},
            }
            exchanges.push(Exchange { command: scan, dir, result: found });
            assert(results_of(exchanges@) =~= Seq::<ResultView>::empty().push(
                exchanges@[0].result@,
            ));
            let mut i: usize = 0;
            while i < names.len()
                invariant
                    forall|command: &CommandSpec, dir: &String|
                        call_requires(*run, (command, dir)),
                    i <= names.len(),
                    exchanges@.len() == i + 1,
                    exchanges@[0].command@ == scan_argv(),
                    exchanges@[0].dir@ == current_dir@,
                    texts(names@) == scanned_names(exchanges@[0].result@),
                    repos@.len() == i,
                    forall|j: int|
                        0 <= j < i ==> {
                            &&& (#[trigger] repos@[j])@ == scanned_repo(
                                current_dir@,
                                scanned_names(exchanges@[0].result@)[j],
                                exchanges@[j + 1].result@,
                            )
                            &&& exchanges@[j + 1].command@ == current_branch_argv()
                            &&& exchanges@[j + 1].dir@ == repos@[j]@.path
                        },
                    texts(diagnostics@) == failure_lines(scan_headings(), results_of(exchanges@)),
                    forall|j: int|
                        0 <= j < exchanges@.len() ==> call_ensures(
                            *run,
                            (&exchanges@[j].command, &exchanges@[j].dir),
                            (#[trigger] exchanges@[j]).result,
                        ),
                decreases names.len() - i,
            {
                let ghost earlier = exchanges@;
                let ghost members = repos@;
                assert(texts(names@)[i as int] == names@[i as int]@);
                let path = join_path(current_dir.as_str(), names[i].as_str());
                let query = CommandSpec::current_branch();
                let answer = run(&query, &path);
                let branch = get_current_branch(&answer);
                proof {
                    lemma_failure_lines_push(scan_headings(), results_of(earlier), answer@);
                }
                match answer.diagnostic("Failed to fetch the repo. Error: ") {
                    Some(line) => {
                        diagnostics.push(line);
                    },
                    None => {},
                }
                repos.push(RepoRef { name: names[i].clone(), path: path.clone(), branch });
                exchanges.push(Exchange { command: query, dir: path, result: answer });
                i += 1;
                proof {
                    assert(results_of(exchanges@) =~= results_of(earlier).push(answer@));
                    assert forall|j: int| 0 <= j < i implies {
                        &&& (#[trigger] repos@[j])@ == scanned_repo(
                            current_dir@,
                            scanned_names(exchanges@[0].result@)[j],
                            exchanges@[j + 1].result@,
                        )
                        &&& exchanges@[j + 1].command@ == current_branch_argv()
                        &&& exchanges@[j + 1].dir@ == repos@[j]@.path
                    } by {
                        if j < i - 1 {
                            assert(repos@[j] == members[j]);
                        }
                    }
                }
            }
            Resolution { strategy: Strategy::Scan, repos, diagnostics, exchanges }
        },
    }
}

/// The two ways exclude each other. Where the working directory is a
/// repository, the members are taken from its metadata alone: no command is
/// run, so no directory below it is looked at, whatever lies there. Where
/// it is not, the scan is the first command that is run and the members are
/// those that the scan found.
pub proof fn lemma_one_strategy(resolution: Resolution, current_dir: Seq<char>, opened: Opened)
    requires
        resolution.is_resolution_of(current_dir, opened),
    ensures
        resolution.strategy == Strategy::Scan <==> opened is NotARepository,
        resolution.strategy == Strategy::Submodules <==> !(opened is NotARepository),
        resolution.strategy == Strategy::Submodules ==> resolution.exchanges@.len() == 0,
        opened matches Opened::Submodules(entries) ==> resolution.repos@.len() == entries@.len(),
        resolution.strategy == Strategy::Scan ==> {
            &&& resolution.exchanges@.len() >= 1
            &&& resolution.exchanges@[0].command@ == scan_argv()
            &&& resolution.repos@.len() == scanned_names(resolution.exchanges@[0].result@).len()
        },
{
}

} // verus!
