use std::cell::RefCell;

use superrepo::command::CommandSpec;
use superrepo::process::ProcessResult;
use superrepo::repo::{join_path, RepoRef};
use superrepo::resolve::{
    default_branch, get_git_repos, repo_of_submodule, resolve_repos, Opened, Strategy,
    SubmoduleEntry,
};

fn ok(stdout: &str) -> ProcessResult {
    ProcessResult { success: true, stdout: stdout.as_bytes().to_vec(), stderr: Vec::new() }
}

fn failed(stderr: &str) -> ProcessResult {
    ProcessResult { success: false, stdout: Vec::new(), stderr: stderr.as_bytes().to_vec() }
}

fn entry(name: Option<&str>, branch: Option<&str>) -> SubmoduleEntry {
    SubmoduleEntry { name: name.map(|s| s.to_string()), branch: branch.map(|s| s.to_string()) }
}

fn member(name: &str, path: &str, branch: &str) -> RepoRef {
    RepoRef { name: name.to_string(), path: path.to_string(), branch: branch.to_string() }
}

fn words(list: &[&str]) -> Vec<String> {
    list.iter().map(|w| w.to_string()).collect()
}

#[test]
fn join_path_follows_the_rules_of_paths() {
    assert_eq!(join_path("/work", "a"), "/work/a");
    assert_eq!(join_path("/work/", "a"), "/work/a");
    assert_eq!(join_path("/work", "./a"), "/work/./a");
    assert_eq!(join_path("/work", "/abs"), "/abs");
    assert_eq!(join_path("", "a"), "a");
    assert_eq!(join_path("/work", ""), "/work/");
    assert_eq!(join_path("/", "a"), "/a");
}

#[test]
fn join_path_agrees_with_std() {
    for (base, name) in [("/work", "a"), ("/work/", "a/b"), ("/work", "/abs"), ("", "a"), ("/work", ""), ("rel", "./x")] {
        let expected = std::path::Path::new(base).join(name);
        assert_eq!(join_path(base, name), expected.to_str().unwrap());
    }
}

#[test]
fn the_default_branch_is_master() {
    assert_eq!(default_branch(), "master");
}

#[test]
fn submodule_defaults() {
    assert_eq!(repo_of_submodule("/work", &entry(Some("lib"), Some("dev"))), member("lib", "/work/lib", "dev"));
    assert_eq!(repo_of_submodule("/work", &entry(Some("lib"), None)), member("lib", "/work/lib", "master"));
    assert_eq!(repo_of_submodule("/work", &entry(None, None)), member("", "/work/", "master"));
}

#[test]
fn repository_uses_submodules_and_never_scans() {
    let calls = RefCell::new(0usize);
    let run = |_: &CommandSpec, _: &String| {
        *calls.borrow_mut() += 1;
        ok("./nested/.git\n")
    };
    let opened = Opened::Submodules(vec![entry(Some("a"), Some("main")), entry(Some("b"), None)]);
    let resolution = resolve_repos(&"/work".to_string(), &opened, &run);
    assert_eq!(resolution.strategy, Strategy::Submodules);
    assert_eq!(resolution.repos, vec![member("a", "/work/a", "main"), member("b", "/work/b", "master")]);
    assert!(resolution.exchanges.is_empty());
    assert!(resolution.diagnostics.is_empty());
    assert_eq!(*calls.borrow(), 0);
}

#[test]
fn repository_without_submodules_has_no_member() {
    let run = |_: &CommandSpec, _: &String| -> ProcessResult { panic!("nothing to run") };
    let resolution = resolve_repos(&"/work".to_string(), &Opened::Submodules(Vec::new()), &run);
    assert_eq!(resolution.strategy, Strategy::Submodules);
    assert!(resolution.repos.is_empty());
}

#[test]
fn listing_failure_is_reported_without_fallback() {
    let run = |_: &CommandSpec, _: &String| -> ProcessResult { panic!("nothing to run") };
    let opened = Opened::ListingFailed("bad config".to_string());
    let resolution = resolve_repos(&"/work".to_string(), &opened, &run);
    assert_eq!(resolution.strategy, Strategy::Submodules);
    assert!(resolution.repos.is_empty());
    assert!(resolution.exchanges.is_empty());
    assert_eq!(resolution.diagnostics, vec!["Failed to get submodules: bad config\n"]);
}

#[test]
fn plain_directory_is_scanned() {
    let calls = RefCell::new(Vec::<(String, Vec<String>)>::new());
    let run = |c: &CommandSpec, d: &String| {
        calls.borrow_mut().push((d.clone(), c.argv().clone()));
        if c.argv()[0] == "find" {
            ok("./a/.git\n./deep/b/.git\n")
        } else if d == "/work/./a" {
            ok("Main\n")
        } else {
            failed("fatal: not a git repository\n")
        }
    };
    let resolution = resolve_repos(&"/work".to_string(), &Opened::NotARepository, &run);
    assert_eq!(resolution.strategy, Strategy::Scan);
    assert_eq!(
        resolution.repos,
        vec![member("./a", "/work/./a", "main"), member("./deep/b", "/work/./deep/b", "")]
    );
    assert_eq!(
        *calls.borrow(),
        vec![
            ("/work".to_string(), words(&["find", ".", "-maxdepth", "2", "-name", ".git"])),
            ("/work/./a".to_string(), words(&["git", "branch", "--show-current"])),
            ("/work/./deep/b".to_string(), words(&["git", "branch", "--show-current"])),
        ]
    );
    assert_eq!(resolution.exchanges.len(), 3);
    assert_eq!(resolution.exchanges[1].dir, "/work/./a");
    assert_eq!(resolution.diagnostics, vec!["Failed to fetch the repo. Error: fatal: not a git repository\n"]);
}

#[test]
fn failed_scan_finds_nothing() {
    let run = |_: &CommandSpec, _: &String| failed("find: permission denied\n");
    let resolution = resolve_repos(&"/work".to_string(), &Opened::NotARepository, &run);
    assert_eq!(resolution.strategy, Strategy::Scan);
    assert!(resolution.repos.is_empty());
    assert_eq!(resolution.exchanges.len(), 1);
    assert_eq!(resolution.diagnostics, vec!["Failed to discover all git repos. Error: find: permission denied\n"]);
}

#[test]
fn scan_output_is_read_line_by_line() {
    assert_eq!(get_git_repos(&ok("./a/.git\n./b/.git\n")), vec!["./a", "./b"]);
    assert_eq!(get_git_repos(&ok("\n./a/.git\n\n")), vec!["./a"]);
    assert_eq!(get_git_repos(&ok("")), Vec::<String>::new());
    assert_eq!(get_git_repos(&ok("./.git\n")), vec!["."]);
    assert_eq!(get_git_repos(&ok("./.gitx/.git\n./y/.git/.git")), vec!["./.gitx", "./y/.git"]);
    assert_eq!(get_git_repos(&ok("./plain\n")), vec!["./plain"]);
    let ignored = ProcessResult { success: false, stdout: b"./a/.git\n".to_vec(), stderr: Vec::new() };
    assert_eq!(get_git_repos(&ignored), Vec::<String>::new());
}

#[test]
fn scan_output_that_is_not_text_is_still_read() {
    let result = ProcessResult { success: true, stdout: vec![b'.', b'/', 0xff, b'/', b'.', b'g', b'i', b't', b'\n'], stderr: Vec::new() };
    assert_eq!(get_git_repos(&result), vec!["./\u{fffd}"]);
}
