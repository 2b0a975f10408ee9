use superrepo::command::CommandSpec;
use superrepo::custom::{get_commands, judge, CommandEntry, EntryKind, Verdict};
use superrepo::git::{get_current_branch, get_head_sha, get_short_hash, is_on_branch};
use superrepo::process::ProcessResult;
use superrepo::report::{
    outcome_line, render_sync_report, status_line, NAME_WIDTH, REMARK_START, STATUS_WIDTH,
};
use superrepo::status::{PullStatus, SyncOutcome};
use superrepo::sync::{default_remote, SyncReport};
use superrepo::text::concatenate;

fn ok(stdout: &[u8]) -> ProcessResult {
    ProcessResult { success: true, stdout: stdout.to_vec(), stderr: Vec::new() }
}

fn words(list: &[&str]) -> Vec<String> {
    list.iter().map(|w| w.to_string()).collect()
}

#[test]
fn status_labels() {
    assert_eq!(PullStatus::Unchanged.to_str(), "unchanged");
    assert_eq!(PullStatus::Updated.to_str(), "updated");
    assert_eq!(PullStatus::UpToDate.to_str(), "up to date");
}

#[test]
fn fixed_commands() {
    assert_eq!(*CommandSpec::fetch("origin", "main").argv(), words(&["git", "fetch", "origin", "main"]));
    assert_eq!(
        *CommandSpec::fast_forward("origin", "main").argv(),
        words(&["git", "merge", "--ff-only", "origin", "main"])
    );
    assert_eq!(*CommandSpec::current_branch().argv(), words(&["git", "branch", "--show-current"]));
    assert_eq!(
        *CommandSpec::resolve_ref("HEAD").argv(),
        words(&["git", "log", "-1", "--format=format:%H", "HEAD"])
    );
    assert_eq!(*CommandSpec::short_hash("abc").argv(), words(&["git", "rev-parse", "--short", "abc"]));
    assert_eq!(*CommandSpec::scan().argv(), words(&["find", ".", "-maxdepth", "2", "-name", ".git"]));
    assert_eq!(*CommandSpec::init().argv(), words(&["git", "init"]));
    assert_eq!(*CommandSpec::submodule_add("../x").argv(), words(&["git", "submodule", "add", "../x"]));
}

#[test]
fn command_needs_a_program() {
    assert!(CommandSpec::new(Vec::new()).is_none());
    let command = CommandSpec::new(words(&["ls", "-l"])).unwrap();
    assert_eq!(command.program(), "ls");
    assert_eq!(*command.argv(), words(&["ls", "-l"]));
    assert_eq!(command.clone(), command);
    let alone = CommandSpec::new(words(&[""])).unwrap();
    assert_eq!(alone.program(), "");
}

#[test]
fn launch_failure_is_a_failed_result() {
    let result = ProcessResult::launch_failure("No such file or directory");
    assert!(!result.success);
    assert!(result.stdout.is_empty());
    assert_eq!(result.stderr, b"No such file or directory".to_vec());
    assert_eq!(
        result.diagnostic("Failed to fetch the repo. Error: "),
        Some("Failed to fetch the repo. Error: No such file or directory".to_string())
    );
}

#[test]
fn diagnostic_only_for_failures() {
    let fine = ProcessResult { success: true, stdout: Vec::new(), stderr: b"warning".to_vec() };
    assert_eq!(fine.diagnostic("Failed: "), None);
    let bad = ProcessResult { success: false, stdout: b"out".to_vec(), stderr: vec![b'e', 0xff] };
    assert_eq!(bad.diagnostic("Failed: "), Some("Failed: e\u{fffd}".to_string()));
    assert_eq!(bad.clone(), bad);
}

#[test]
fn head_sha_is_the_output_as_it_is() {
    assert_eq!(get_head_sha(&ok(b"0123456789abcdef0123456789abcdef01234567")), "0123456789abcdef0123456789abcdef01234567");
    assert_eq!(get_head_sha(&ok(b"abc\n")), "abc\\n");
    assert_eq!(get_head_sha(&ok(b"")), "");
    assert_eq!(get_head_sha(&ok(&[0xff])), "\\xff");
}

#[test]
fn current_branch_is_lowered_and_trimmed() {
    assert_eq!(get_current_branch(&ok(b"main\n")), "main");
    assert_eq!(get_current_branch(&ok(b"Feature/X\n")), "feature/x");
    assert_eq!(get_current_branch(&ok(b"")), "");
    assert_eq!(get_current_branch(&ok(b"  \xc3\x84B \n")), "\u{c4}b");
}

#[test]
fn branch_is_found_whatever_the_case() {
    assert!(is_on_branch(&ok(b"main\n"), "main"));
    assert!(is_on_branch(&ok(b"Main\n"), "Main"));
    assert!(is_on_branch(&ok(b"Main\n"), "main"));
    assert!(is_on_branch(&ok(b"main\n"), "MAIN"));
    assert!(is_on_branch(&ok(b"Release/V2\n"), "release/v2"));
    assert!(is_on_branch(&ok(b""), ""));
    assert!(!is_on_branch(&ok(b"feature\n"), "main"));
    assert!(!is_on_branch(&ok(b"main\n"), "main "));
    assert!(!is_on_branch(&ok(b""), "main"));
    assert!(!is_on_branch(&ok("\u{e4}\n".as_bytes()), "\u{c4}"));
    assert!(is_on_branch(&ok("\u{c4}b\n".as_bytes()), "\u{c4}B"));
}

#[test]
fn short_hash_is_trimmed() {
    assert_eq!(get_short_hash(&ok(b"a1b2c3d\n")), "a1b2c3d");
    assert_eq!(get_short_hash(&ok(b"A1B2C3D4E\n")), "A1B2C3D4E");
    assert_eq!(get_short_hash(&ok(b"")), "");
    assert_eq!(get_short_hash(&ok(&[b'a', 0x80, b'\n'])), "a\u{fffd}");
}

#[test]
fn status_line_has_fixed_columns() {
    assert_eq!(
        status_line("lib", PullStatus::Updated, "main(a1a1a1a) -> main(a2a2a2a)"),
        "\x1b[38;5;198;1mlib              \x1b[1;36mupdated    \x1b[1;37m   main(a1a1a1a) -> main(a2a2a2a)\x1b[0m"
    );
    assert_eq!(
        status_line("", PullStatus::UpToDate, ""),
        "\x1b[38;5;198;1m                 \x1b[1;36mup to date \x1b[1;37m   \x1b[0m"
    );
    assert_eq!(
        status_line("sixteen-letters!", PullStatus::Unchanged, "not on tracked branch"),
        "\x1b[38;5;198;1msixteen-letters! \x1b[1;36munchanged  \x1b[1;37m   not on tracked branch\x1b[0m"
    );
}

#[test]
fn long_name_is_cut_to_the_column() {
    let line = status_line("a-very-long-repository-name", PullStatus::Unchanged, "r");
    assert_eq!(line, "\x1b[38;5;198;1ma-very-long-repo \x1b[1;36munchanged  \x1b[1;37m   r\x1b[0m");
    let wide = status_line("ééééééééééééééééé", PullStatus::Updated, "r");
    assert_eq!(wide, "\x1b[38;5;198;1méééééééééééééééé \x1b[1;36mupdated    \x1b[1;37m   r\x1b[0m");
}

#[test]
fn remark_starts_at_the_same_place() {
    for name in ["", "a", "exactly-16-chars", "more-than-sixteen-characters"] {
        for status in [PullStatus::Unchanged, PullStatus::Updated, PullStatus::UpToDate] {
            let line: Vec<char> = status_line(name, status, "REMARK").chars().collect();
            assert_eq!(line.len(), REMARK_START + 6 + 4);
            let remark: String = line[REMARK_START..REMARK_START + 6].iter().collect();
            assert_eq!(remark, "REMARK");
            assert_eq!(line[13 + NAME_WIDTH], ' ');
            assert_eq!(line[37 + STATUS_WIDTH], ' ');
        }
    }
}

#[test]
fn outcome_line_shows_status_and_remark() {
    let outcome = SyncOutcome {
        status: PullStatus::UpToDate,
        before_hash: "x".to_string(),
        after_hash: "x".to_string(),
        remark: "main(abc1234)".to_string(),
    };
    assert_eq!(outcome_line("c", &outcome), status_line("c", PullStatus::UpToDate, "main(abc1234)"));
    assert_eq!(outcome.clone(), outcome);
}

#[test]
fn sync_report_is_written_as_one_block() {
    let report = SyncReport {
        name: "lib".to_string(),
        outcome: SyncOutcome {
            status: PullStatus::UpToDate,
            before_hash: "x".to_string(),
            after_hash: "x".to_string(),
            remark: "main(abc1234)".to_string(),
        },
        diagnostics: vec![
            "Failed to fetch the repo. Error: no network\n".to_string(),
            "Failed to fast-forward the repo. Error: diverged\n".to_string(),
        ],
        exchanges: Vec::new(),
    };
    assert_eq!(
        render_sync_report(&report),
        "Failed to fetch the repo. Error: no network\nFailed to fast-forward the repo. Error: diverged\n\x1b[38;5;198;1mlib              \x1b[1;36mup to date \x1b[1;37m   main(abc1234)\x1b[0m\n"
    );
}

#[test]
fn concat_puts_nothing_between() {
    assert_eq!(concatenate(&vec!["a\n".to_string(), "".to_string(), "b".to_string()]), "a\nb");
    assert_eq!(concatenate(&Vec::new()), "");
}

#[test]
fn the_default_remote_is_origin() {
    assert_eq!(default_remote(), "origin");
}

#[test]
fn verdicts() {
    assert_eq!(judge(EntryKind::Directory), Verdict::SkippedDirectory);
    assert_eq!(judge(EntryKind::Unknown), Verdict::SkippedInvalidMetadata);
    assert_eq!(judge(EntryKind::File(0o644)), Verdict::SkippedNotExecutable);
    assert_eq!(judge(EntryKind::File(0o744)), Verdict::Command);
    assert_eq!(judge(EntryKind::File(0o654)), Verdict::Command);
    assert_eq!(judge(EntryKind::File(0o645)), Verdict::Command);
    assert_eq!(judge(EntryKind::File(0o100644)), Verdict::SkippedNotExecutable);
    assert_eq!(judge(EntryKind::File(0)), Verdict::SkippedNotExecutable);
}

#[test]
fn commands_are_the_executable_files_in_order() {
    let entry = |name: &str, kind: EntryKind| CommandEntry { file_name: name.to_string(), kind };
    let entries = vec![
        entry("deploy", EntryKind::File(0o755)),
        entry("notes.txt", EntryKind::File(0o644)),
        entry("lib", EntryKind::Directory),
        entry("broken", EntryKind::Unknown),
        entry("build", EntryKind::File(0o100700)),
    ];
    assert_eq!(get_commands(&entries), vec!["deploy", "build"]);
    assert_eq!(get_commands(&Vec::new()), Vec::<String>::new());
}
