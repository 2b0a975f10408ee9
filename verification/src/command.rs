//! The commands that are handed to the process gateway: a program and its
//! arguments, passed on literally, never through a shell.

use crate::text::texts;
use vstd::prelude::*;

verus! {

/// `git fetch <remote> <branch>`.
pub open spec fn fetch_argv(remote: Seq<char>, branch: Seq<char>) -> Seq<Seq<char>> {
    seq!["git"@, "fetch"@, remote, branch]
}

/// `git merge --ff-only <remote> <branch>`: the merge fails rather than
/// create a merge commit.
pub open spec fn fast_forward_argv(remote: Seq<char>, branch: Seq<char>) -> Seq<Seq<char>> {
    seq!["git"@, "merge"@, "--ff-only"@, remote, branch]
}

/// `git branch --show-current`.
pub open spec fn current_branch_argv() -> Seq<Seq<char>> {
    seq!["git"@, "branch"@, "--show-current"@]
}

/// `git log -1 --format=format:%H <committish>`: the full hash of the most
/// recent entry of the reference.
pub open spec fn resolve_ref_argv(committish: Seq<char>) -> Seq<Seq<char>> {
    seq!["git"@, "log"@, "-1"@, "--format=format:%H"@, committish]
}

/// `git rev-parse --short <committish>`.
pub open spec fn short_hash_argv(committish: Seq<char>) -> Seq<Seq<char>> {
    seq!["git"@, "rev-parse"@, "--short"@, committish]
}

/// `find . -maxdepth 2 -name .git`: the marker directories at most two
/// levels below the working directory.
pub open spec fn scan_argv() -> Seq<Seq<char>> {
    seq!["find"@, "."@, "-maxdepth"@, "2"@, "-name"@, ".git"@]
}

/// `git init`.
pub open spec fn init_argv() -> Seq<Seq<char>> {
    seq!["git"@, "init"@]
}

/// `git submodule add <repository>`.
pub open spec fn submodule_add_argv(repository: Seq<char>) -> Seq<Seq<char>> {
    seq!["git"@, "submodule"@, "add"@, repository]
}

/// Tells whether a command asks git for a merge.
pub open spec fn is_merge(argv: Seq<Seq<char>>) -> bool {
    argv.len() >= 2 && argv[0] == "git"@ && argv[1] == "merge"@
}

/// A program and its arguments. The sequence is never empty: its first
/// element names the program.
#[derive(Debug, PartialEq, Eq)]
pub struct CommandSpec {
    argv: Vec<String>,
}

impl View for CommandSpec {
    type V = Seq<Seq<char>>;

    closed spec fn view(&self) -> Seq<Seq<char>> {
        texts(self.argv@)
    }
}

impl Clone for CommandSpec {
    fn clone(&self) -> (copy: Self)
        ensures
            copy@ == self@,
    {
        proof {
            use_type_invariant(self);
        }
        let mut argv: Vec<String> = Vec::new();
        let mut i: usize = 0;
        while i < self.argv.len()
            invariant
                i <= self.argv.len(),
                argv@.len() == i,
                texts(argv@) == texts(self.argv@).take(i as int),
            decreases self.argv.len() - i,
        {
            argv.push(self.argv[i].clone());
            i += 1;
        }
        CommandSpec { argv }
    }
}

impl CommandSpec {
    #[verifier::type_invariant]
    spec fn well_formed(self) -> bool {
        self.argv@.len() > 0
    }

    /// The command that runs `argv[0]` with the arguments after it; none
    /// where `argv` is empty.
    pub fn new(argv: Vec<String>) -> (command: Option<CommandSpec>)
        ensures
            command is Some <==> argv@.len() > 0,
            command matches Some(c) ==> c@ == texts(argv@),
    {
        if argv.len() == 0 {
            None
        } else {
            Some(CommandSpec { argv })
        }
    }

    /// The program and its arguments.
    pub fn argv(&self) -> (argv: &Vec<String>)
        ensures
            argv@.len() > 0,
            texts(argv@) == self@,
    {
        proof {
            use_type_invariant(self);
        }
        &self.argv
    }

    /// The program that the command runs.
    pub fn program(&self) -> (program: &String)
        ensures
            self@.len() > 0,
            program@ == self@[0],
    {
        proof {
            use_type_invariant(self);
        }
        &self.argv[0]
    }

    /// The command that fetches `branch` from `remote`.
    pub fn fetch(remote: &str, branch: &str) -> (command: CommandSpec)
        ensures
            command@ == fetch_argv(remote@, branch@),
    {
        let mut argv: Vec<String> = Vec::new();
        argv.push("git".to_owned());
        argv.push("fetch".to_owned());
        argv.push(remote.to_owned());
        argv.push(branch.to_owned());
        CommandSpec { argv }
    }

    /// The command that moves the checked-out branch forward to where
    /// `branch` is on `remote`, and fails where that takes a merge commit.
    pub fn fast_forward(remote: &str, branch: &str) -> (command: CommandSpec)
        ensures
            command@ == fast_forward_argv(remote@, branch@),
    {
        let mut argv: Vec<String> = Vec::new();
        argv.push("git".to_owned());
        argv.push("merge".to_owned());
        argv.push("--ff-only".to_owned());
        argv.push(remote.to_owned());
        argv.push(branch.to_owned());
        CommandSpec { argv }
    }

    /// The command that prints the name of the checked-out branch.
    pub fn current_branch() -> (command: CommandSpec)
        ensures
            command@ == current_branch_argv(),
    {
        let mut argv: Vec<String> = Vec::new();
        argv.push("git".to_owned());
        argv.push("branch".to_owned());
        argv.push("--show-current".to_owned());
        CommandSpec { argv }
    }

    /// The command that prints the full hash of the commit that
    /// `committish` names.
    pub fn resolve_ref(committish: &str) -> (command: CommandSpec)
        ensures
            command@ == resolve_ref_argv(committish@),
    {
        let mut argv: Vec<String> = Vec::new();
        argv.push("git".to_owned());
        argv.push("log".to_owned());
        argv.push("-1".to_owned());
        argv.push("--format=format:%H".to_owned());
        argv.push(committish.to_owned());
        CommandSpec { argv }
    }

    /// The command that prints the abbreviation of a hash, as git itself
    /// chooses it.
    pub fn short_hash(committish: &str) -> (command: CommandSpec)
        ensures
            command@ == short_hash_argv(committish@),
    {
        let mut argv: Vec<String> = Vec::new();
        argv.push("git".to_owned());
        argv.push("rev-parse".to_owned());
        argv.push("--short".to_owned());
        argv.push(committish.to_owned());
        CommandSpec { argv }
    }

    /// The command that lists the marker directories below the working
    /// directory.
    pub fn scan() -> (command: CommandSpec)
        ensures
            command@ == scan_argv(),
    {
        let mut argv: Vec<String> = Vec::new();
        argv.push("find".to_owned());
        argv.push(".".to_owned());
        argv.push("-maxdepth".to_owned());
        argv.push("2".to_owned());
        argv.push("-name".to_owned());
        argv.push(".git".to_owned());
        CommandSpec { argv }
    }

    /// The command that makes the working directory a repository.
    pub fn init() -> (command: CommandSpec)
        ensures
            command@ == init_argv(),
    {
        let mut argv: Vec<String> = Vec::new();
        argv.push("git".to_owned());
        argv.push("init".to_owned());
        CommandSpec { argv }
    }

    /// The command that adds `repository` as a submodule.
    pub fn submodule_add(repository: &str) -> (command: CommandSpec)
        ensures
            command@ == submodule_add_argv(repository@),
    {
        let mut argv: Vec<String> = Vec::new();
        argv.push("git".to_owned());
        argv.push("submodule".to_owned());
        argv.push("add".to_owned());
        argv.push(repository.to_owned());
        CommandSpec { argv }
    }
}

/// Of the fixed commands only the fast-forward asks for a merge.
pub proof fn lemma_only_fast_forward_merges(
    remote: Seq<char>,
    branch: Seq<char>,
    committish: Seq<char>,
)
    ensures
        is_merge(fast_forward_argv(remote, branch)),
        !is_merge(fetch_argv(remote, branch)),
        !is_merge(current_branch_argv()),
        !is_merge(resolve_ref_argv(committish)),
        !is_merge(short_hash_argv(committish)),
        !is_merge(scan_argv()),
{
    reveal_strlit("git");
    reveal_strlit("find");
    reveal_strlit("merge");
    reveal_strlit("fetch");
    reveal_strlit("branch");
    reveal_strlit("log");
    reveal_strlit("rev-parse");
    assert("merge"@[0] == 'm');
    assert("git"@[0] == 'g');
}

} // verus!
