use gen_commit::git::{
    commit, commit_args, decimal_text, get_branch_name, get_git_root, get_modified_files,
    get_recent_commits, get_staged_diff, is_git_repo, recent_commits_args, split_lines,
    staged_diff_args, CommandRun, GitError,
};

fn ran(success: bool, stdout: &str) -> CommandRun {
    CommandRun::Finished { success, stdout: stdout.to_string() }
}

fn strings(items: &[&str]) -> Vec<String> {
    items.iter().map(|s| s.to_string()).collect()
}

#[test]
fn lines_follow_std() {
    for text in ["", "a", "a\n", "a\nb", "a\r\nb\r\n", "\n\nx", "a\r", "a\rb\n", "\r\n"] {
        let expected: Vec<String> = text.lines().map(|l| l.to_string()).collect();
        assert_eq!(split_lines(text), expected, "for {:?}", text);
    }
}

#[test]
fn staged_diff_arguments() {
    assert_eq!(staged_diff_args(&vec![]), strings(&["diff", "--staged"]));
    assert_eq!(
        staged_diff_args(&strings(&[":!Cargo.lock", ":!bun.lock"])),
        strings(&["diff", "--staged", "--", ":!Cargo.lock", ":!bun.lock"])
    );
}

#[test]
fn staged_diff_outcomes() {
    assert_eq!(get_staged_diff(ran(true, "diff --git a b\n")).unwrap(), "diff --git a b\n");
    assert_eq!(get_staged_diff(ran(true, "")).unwrap(), "");
    assert!(matches!(get_staged_diff(ran(false, "")), Err(GitError::NoStagedChanges)));
    match get_staged_diff(CommandRun::NotStarted) {
        Err(GitError::FailedToExecuteCmd(c)) => assert_eq!(c, "git diff --staged"),
        other => panic!("unexpected {:?}", other),
    }
}

#[test]
fn modified_files_are_lines() {
    assert_eq!(
        get_modified_files(ran(true, "src/a.rs\nREADME.md\n")).unwrap(),
        strings(&["src/a.rs", "README.md"])
    );
    for run in [ran(false, "x"), CommandRun::NotStarted] {
        match get_modified_files(run) {
            Err(GitError::FailedToExecuteCmd(c)) => assert_eq!(c, "git diff --name-only --staged"),
            other => panic!("unexpected {:?}", other),
        }
    }
}

#[test]
fn recent_commit_subjects() {
    assert_eq!(
        get_recent_commits(ran(true, "abc123 feat: add x\ndef456 fix: y z\n0000000\n")).unwrap(),
        strings(&["feat: add x", "fix: y z", ""])
    );
    for run in [ran(false, "abc x\n"), CommandRun::NotStarted] {
        match get_recent_commits(run) {
            Err(GitError::FailedToExecuteCmd(c)) => assert_eq!(c, "git log"),
            other => panic!("unexpected {:?}", other),
        }
    }
    assert_eq!(recent_commits_args(5), strings(&["log", "--oneline", "-n", "5"]));
}

#[test]
fn decimal_numbers() {
    for n in [0usize, 7, 10, 42, 1000, 98765] {
        assert_eq!(decimal_text(n), n.to_string());
    }
}

#[test]
fn root_and_branch_queries() {
    assert_eq!(get_git_root(ran(true, "/repo\n")).unwrap(), "/repo\n");
    match get_git_root(ran(false, "")) {
        Err(GitError::FailedToExecuteCmd(c)) => assert_eq!(c, "git rev-parse --show-toplevel"),
        other => panic!("unexpected {:?}", other),
    }
    assert_eq!(get_branch_name(ran(true, "main\n")).unwrap(), "main\n");
    match get_branch_name(CommandRun::NotStarted) {
        Err(GitError::FailedToExecuteCmd(c)) => assert_eq!(c, "git branch --show-current"),
        other => panic!("unexpected {:?}", other),
    }
}

#[test]
fn repository_check() {
    assert!(is_git_repo(&ran(true, ".git\n")));
    assert!(!is_git_repo(&ran(false, "")));
    assert!(!is_git_repo(&CommandRun::NotStarted));
}

#[test]
fn commit_command() {
    assert_eq!(commit_args("feat: x"), strings(&["commit", "-m", "feat: x", "-e"]));
    assert!(commit(ran(false, "")).is_ok());
    match commit(CommandRun::NotStarted) {
        Err(GitError::FailedToExecuteCmd(c)) => assert_eq!(c, "git commit"),
        other => panic!("unexpected {:?}", other),
    }
}
