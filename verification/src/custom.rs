//! The user's own commands: the executable files of one directory.

use crate::text::texts;
use vstd::prelude::*;

verus! {

/// What the file system says of one directory entry.
#[derive(Clone, Copy, Debug, PartialEq, Eq, Structural)]
pub enum EntryKind {
    /// The entry is a directory.
    Directory,
    /// The entry is not a directory; these are its permission bits.
    File(u32),
    /// Nothing could be learnt of the entry.
    Unknown,
}

/// One entry of the directory that holds the commands.
#[derive(Debug, PartialEq, Eq)]
pub struct CommandEntry {
    pub file_name: String,
    pub kind: EntryKind,
}

/// Whether an entry is a command, and if not, why.
#[derive(Clone, Copy, Debug, PartialEq, Eq, Structural)]
pub enum Verdict {
    Command,
    SkippedDirectory,
    SkippedNotExecutable,
    SkippedInvalidMetadata,
}

/// Tells whether the permission bits let anyone execute the file: the
/// owner, the group or the others.
pub open spec fn is_executable(mode: u32) -> bool {
    mode & 0o111 != 0
}

/// The verdict on an entry of the given kind: a command is a file that is
/// executable.
pub open spec fn verdict_of(kind: EntryKind) -> Verdict {
    match kind {
        EntryKind::Directory => Verdict::SkippedDirectory,
        EntryKind::File(mode) => if is_executable(mode) {
            Verdict::Command
        } else {
            Verdict::SkippedNotExecutable
        },
        EntryKind::Unknown => Verdict::SkippedInvalidMetadata,
    }
}

/// Judges one entry.
pub fn judge(kind: EntryKind) -> (verdict: Verdict)
    ensures
        verdict == verdict_of(kind),
{
    match kind {
        EntryKind::Directory => Verdict::SkippedDirectory,
        EntryKind::File(mode) => if mode & 0o111 != 0 {
            Verdict::Command
        } else {
            Verdict::SkippedNotExecutable
        },
        EntryKind::Unknown => Verdict::SkippedInvalidMetadata,
    }
}

/// The names of the commands among `entries`, in the order of the entries.
pub open spec fn commands_among(entries: Seq<CommandEntry>) -> Seq<Seq<char>>
    decreases entries.len(),
{
    if entries.len() == 0 {
        Seq::empty()
    } else {
        let earlier = commands_among(entries.drop_last());
        if verdict_of(entries.last().kind) == Verdict::Command {
            earlier.push(entries.last().file_name@)
        } else {
            earlier
        }
    }
}

/// Picks the commands among the entries of a directory.
pub fn get_commands(entries: &Vec<CommandEntry>) -> (commands: Vec<String>)
    ensures
        texts(commands@) == commands_among(entries@),
{
    let mut commands: Vec<String> = Vec::new();
    let mut i: usize = 0;
    while i < entries.len()
        invariant
            i <= entries.len(),
            texts(commands@) == commands_among(entries@.take(i as int)),
        decreases entries.len() - i,
    {
        assert(entries@.take(i as int + 1).drop_last() =~= entries@.take(i as int));
        match judge(entries[i].kind) {
            Verdict::Command => {
                commands.push(entries[i].file_name.clone());
            },
            _ => {},
        }
        i += 1;
    }
    assert(entries@.take(i as int) =~= entries@);
    commands
}

} // verus!
