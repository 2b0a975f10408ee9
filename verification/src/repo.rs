//! The member repositories of a super repository.

use crate::text::{chars_of, push_char};
use vstd::prelude::*;

verus! {

/// One member repository and the branch that it tracks.
#[derive(Debug, PartialEq, Eq)]
pub struct RepoRef {
    /// The name under which the repository is reported.
    pub name: String,
    /// Where its working tree lies.
    pub path: String,
    /// The branch that a synchronisation moves forward.
    pub branch: String,
}

/// A `RepoRef` with its texts as sequences of characters.
pub struct RepoView {
    pub name: Seq<char>,
    pub path: Seq<char>,
    pub branch: Seq<char>,
}

impl View for RepoRef {
    type V = RepoView;

    open spec fn view(&self) -> RepoView {
        RepoView { name: self.name@, path: self.path@, branch: self.branch@ }
    }
}

impl Clone for RepoRef {
    fn clone(&self) -> (copy: Self)
        ensures
            copy@ == self@,
    {
        RepoRef { name: self.name.clone(), path: self.path.clone(), branch: self.branch.clone() }
    }
}

/// The path `name` as seen from the directory `base`, with `/` between
/// components: a `name` that starts at the root stands for itself; otherwise
/// it follows `base`, after a `/` unless `base` is empty or ends with one.
pub open spec fn joined(base: Seq<char>, name: Seq<char>) -> Seq<char> {
    if name.len() > 0 && name.first() == '/' {
        name
    } else if base.len() == 0 || base.last() == '/' {
        base + name
    } else {
        base + seq!['/'] + name
    }
}

/// Joins `name` to the directory `base`.
pub fn join_path(base: &str, name: &str) -> (path: String)
    ensures
        path@ == joined(base@, name@),
{
    let head = chars_of(base);
    let tail = chars_of(name);
    if tail.len() > 0 && tail[0] == '/' {
        return name.to_owned();
    }
    let mut path = base.to_owned();
    if head.len() > 0 && head[head.len() - 1] != '/' {
        push_char(&mut path, '/');
    }
    path.append(name);
    path
}

} // verus!
