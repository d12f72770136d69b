use vstd::prelude::*;

use crate::text::{find_char, index_of, lemma_index_of};

verus! {

/// Why a git query failed.
#[derive(Debug, Clone)]
pub enum GitError {
    /// The staged-diff query exited unsuccessfully.
    NoStagedChanges,
    /// The named command could not be run, or failed.
    FailedToExecuteCmd(String),
}

impl GitError {
    /// A value equal to this one.
    pub fn duplicate(&self) -> (r: Self)
        ensures
            r == *self,
    {
        match self {
            GitError::NoStagedChanges => GitError::NoStagedChanges,
            GitError::FailedToExecuteCmd(c) => GitError::FailedToExecuteCmd(c.clone()),
        }
    }
}

/// What running one git command gave.
#[derive(Debug, Clone)]
pub enum CommandRun {
    /// The process could not be started.
    NotStarted,
    /// The process ran; whether it exited successfully, and what it printed.
    Finished { success: bool, stdout: String },
}

/// The characters of each string of `v`.
pub open spec fn views(v: Seq<String>) -> Seq<Seq<char>> {
    v.map_values(|s: String| s@)
}

/// `line` without one trailing carriage return.
pub open spec fn strip_cr(line: Seq<char>) -> Seq<char> {
    if line.len() > 0 && line.last() == '\r' {
        line.drop_last()
    } else {
        line
    }
}

/// The lines of `s`: split after each line feed, each line without its line
/// feed and a carriage return just before it; no line after a final line
/// feed.
pub open spec fn lines_spec(s: Seq<char>) -> Seq<Seq<char>>
    decreases s.len(),
{
    if s.len() == 0 {
        Seq::empty()
    } else {
        let i = index_of(s, '\n');
        if 0 <= i < s.len() {
            seq![strip_cr(s.subrange(0, i))] + lines_spec(s.subrange(i + 1, s.len() as int))
        } else {
            seq![s]
        }
    }
}

/// The subject of a `git log --oneline` line: what follows its first space,
/// or nothing where it has none.
pub open spec fn subject_spec(line: Seq<char>) -> Seq<char> {
    let i = index_of(line, ' ');
    if i < line.len() {
        line.subrange(i + 1, line.len() as int)
    } else {
        Seq::empty()
    }
}

/// The digit that stands for `d`.
pub open spec fn digit_spec(d: nat) -> char {
    "0123456789"@[d as int]
}

/// `n` written in decimal.
pub open spec fn decimal_spec(n: nat) -> Seq<char>
    decreases n,
{
    if n < 10 {
        seq![digit_spec(n)]
    } else {
        decimal_spec(n / 10).push(digit_spec(n % 10))
    }
}

/// The lines of `s`.
pub fn split_lines(s: &str) -> (r: Vec<String>)
    ensures
        views(r@) == lines_spec(s@),
{
    let n = s.unicode_len();
    let mut out: Vec<String> = Vec::new();
    let mut start: usize = 0;
    let mut i: usize = 0;
    assert(s@.subrange(0, n as int) =~= s@);
    while i < n
        invariant
            n == s@.len(),
            start <= i <= n,
            forall|j: int| start <= j < i ==> s@[j] != '\n',
            views(out@) + lines_spec(s@.subrange(start as int, n as int)) == lines_spec(s@),
        decreases n - i,
    {
        if s.get_char(i) == '\n' {
            let ghost rest = s@.subrange(start as int, n as int);
            proof {
                lemma_index_of(rest, '\n', i - start);
                assert(rest.subrange(0, i - start) == s@.subrange(start as int, i as int));
                assert(rest.subrange(i - start + 1, rest.len() as int) == s@.subrange(
                    i + 1,
                    n as int,
                ));
            }
            let end = if i > start && s.get_char(i - 1) == '\r' {
                i - 1
            } else {
                i
            };
            let line = s.substring_char(start, end).to_owned();
            proof {
                assert(line@ == strip_cr(s@.subrange(start as int, i as int)));
            }
            let ghost before = out@;
            out.push(line);
            proof {
                assert(views(out@) =~= views(before).push(line@));
                assert(lines_spec(rest) == seq![line@] + lines_spec(s@.subrange(i + 1, n as int)));
                assert(views(out@) + lines_spec(s@.subrange(i + 1, n as int)) =~= views(before)
                    + lines_spec(rest));
            }
            start = i + 1;
        }
        i = i + 1;
    }
    if start < n {
        let ghost rest = s@.subrange(start as int, n as int);
        proof {
            lemma_index_of(rest, '\n', rest.len() as int);
        }
        let line = s.substring_char(start, n).to_owned();
        let ghost before = out@;
        out.push(line);
        proof {
            assert(views(out@) =~= views(before).push(line@));
            assert(lines_spec(rest) == seq![rest]);
            assert(views(out@) =~= views(before) + lines_spec(rest));
        }
    } else {
        assert(views(out@) =~= views(out@) + lines_spec(s@.subrange(start as int, n as int)));
    }
    out
}

/// The subject of a `git log --oneline` line.
pub fn commit_subject(line: &str) -> (r: String)
    ensures
        r@ == subject_spec(line@),
{
    let n = line.unicode_len();
    match find_char(line, ' ') {
        Some(i) => {
            proof {
                lemma_index_of(line@, ' ', i as int);
            }
            line.substring_char(i + 1, n).to_owned()
        },
        None => {
            proof {
                lemma_index_of(line@, ' ', line@.len() as int);
            }
            String::new()
        },
    }
}

/// `n` written in decimal.
pub fn decimal_text(n: usize) -> (r: String)
    ensures
        r@ == decimal_spec(n as nat),
    decreases n,
{
    let digits = "0123456789";
    proof {
        reveal_strlit("0123456789");
    }
    let d = digits.substring_char(n % 10, n % 10 + 1);
    proof {
        assert(d@ =~= seq![digit_spec((n % 10) as nat)]);
    }
    if n < 10 {
        d.to_owned()
    } else {
        let mut r = decimal_text(n / 10);
        r.append(d);
        r
    }
}

/// The texts of `parts`, as owned strings.
fn texts(parts: &[&str]) -> (r: Vec<String>)
    ensures
        r@.len() == parts@.len(),
        forall|i: int| 0 <= i < parts@.len() ==> #[trigger] r@[i]@ == parts@[i]@,
{
    let mut r: Vec<String> = Vec::new();
    let mut i: usize = 0;
    while i < parts.len()
        invariant
            i <= parts@.len(),
            r@.len() == i,
            forall|k: int| 0 <= k < i ==> #[trigger] r@[k]@ == parts@[k]@,
        decreases parts@.len() - i,
    {
        r.push(parts[i].to_owned());
        i = i + 1;
    }
    r
}

/// The output of a query that fails as `FailedToExecuteCmd(command)` when it
/// does not run or exits unsuccessfully.
pub open spec fn plain_query_is(run: CommandRun, command: Seq<char>, r: Result<String, GitError>) -> bool {
    match run {
        CommandRun::Finished { success: true, stdout } => r == Ok::<String, GitError>(stdout),
        _ => r matches Err(GitError::FailedToExecuteCmd(c)) && c@ == command,
    }
}

/// The arguments of the query that tells whether the working directory is in
/// a repository.
pub fn repo_check_args() -> (r: Vec<String>)
    ensures
        views(r@) == seq!["rev-parse"@, "--git-dir"@],
{
    let r = texts(&["rev-parse", "--git-dir"]);
    assert(views(r@) =~= seq!["rev-parse"@, "--git-dir"@]);
    r
}

/// Whether the repository check found a repository: the query ran and
/// succeeded.
pub fn is_git_repo(run: &CommandRun) -> (r: bool)
    ensures
        r == (*run matches CommandRun::Finished { success: true, .. }),
{
    match run {
        CommandRun::Finished { success, .. } => *success,
        CommandRun::NotStarted => false,
    }
}

/// The arguments of the repository-root query.
pub fn git_root_args() -> (r: Vec<String>)
    ensures
        views(r@) == seq!["rev-parse"@, "--show-toplevel"@],
{
    let r = texts(&["rev-parse", "--show-toplevel"]);
    assert(views(r@) =~= seq!["rev-parse"@, "--show-toplevel"@]);
    r
}

/// The repository root, as the root query printed it.
pub fn get_git_root(run: CommandRun) -> (r: Result<String, GitError>)
    ensures
        plain_query_is(run, "git rev-parse --show-toplevel"@, r),
{
    match run {
        CommandRun::Finished { success: true, stdout } => Ok(stdout),
        _ => Err(GitError::FailedToExecuteCmd("git rev-parse --show-toplevel".to_owned())),
    }
}

/// The arguments of the current-branch query.
pub fn branch_name_args() -> (r: Vec<String>)
    ensures
        views(r@) == seq!["branch"@, "--show-current"@],
{
    let r = texts(&["branch", "--show-current"]);
    assert(views(r@) =~= seq!["branch"@, "--show-current"@]);
    r
}

/// The current branch, as the branch query printed it.
pub fn get_branch_name(run: CommandRun) -> (r: Result<String, GitError>)
    ensures
        plain_query_is(run, "git branch --show-current"@, r),
{
    match run {
        CommandRun::Finished { success: true, stdout } => Ok(stdout),
        _ => Err(GitError::FailedToExecuteCmd("git branch --show-current".to_owned())),
    }
}

/// The arguments of the staged-diff query: the exclusion pathspecs, if any,
/// follow a `--`.
pub open spec fn staged_diff_args_spec(pathspecs: Seq<Seq<char>>) -> Seq<Seq<char>> {
    if pathspecs.len() == 0 {
        seq!["diff"@, "--staged"@]
    } else {
        seq!["diff"@, "--staged"@, "--"@] + pathspecs
    }
}

/// The arguments of the staged-diff query that leaves out `pathspecs`.
pub fn staged_diff_args(pathspecs: &Vec<String>) -> (r: Vec<String>)
    ensures
        views(r@) == staged_diff_args_spec(views(pathspecs@)),
{
    let mut r = texts(&["diff", "--staged"]);
    if pathspecs.len() > 0 {
        r.push("--".to_owned());
        let mut i: usize = 0;
        while i < pathspecs.len()
            invariant
                i <= pathspecs@.len(),
                views(r@) == seq!["diff"@, "--staged"@, "--"@] + views(pathspecs@).subrange(0, i as int),
            decreases pathspecs@.len() - i,
        {
            let ghost before = r@;
            r.push(pathspecs[i].clone());
            proof {
                assert(views(r@) =~= views(before).push(pathspecs@[i as int]@));
                assert(views(pathspecs@).subrange(0, i + 1) =~= views(pathspecs@).subrange(
                    0,
                    i as int,
                ).push(pathspecs@[i as int]@));
            }
            i = i + 1;
        }
        assert(views(pathspecs@).subrange(0, pathspecs@.len() as int) =~= views(pathspecs@));
    } else {
        assert(views(r@) =~= seq!["diff"@, "--staged"@]);
    }
    r
}

/// The staged diff: `NoStagedChanges` where the query exits unsuccessfully.
pub fn get_staged_diff(run: CommandRun) -> (r: Result<String, GitError>)
    ensures
        match run {
            CommandRun::NotStarted => r matches Err(GitError::FailedToExecuteCmd(c)) && c@
                == "git diff --staged"@,
            CommandRun::Finished { success, stdout } => if success {
                r == Ok::<String, GitError>(stdout)
            } else {
                r matches Err(GitError::NoStagedChanges)
            },
        },
{
    match run {
        CommandRun::NotStarted => Err(GitError::FailedToExecuteCmd("git diff --staged".to_owned())),
        CommandRun::Finished { success, stdout } => {
            if success {
                Ok(stdout)
            } else {
                Err(GitError::NoStagedChanges)
            }
        },
    }
}

/// The arguments of the staged-files query.
pub fn modified_files_args() -> (r: Vec<String>)
    ensures
        views(r@) == seq!["diff"@, "--name-only"@, "--staged"@],
{
    let r = texts(&["diff", "--name-only", "--staged"]);
    assert(views(r@) =~= seq!["diff"@, "--name-only"@, "--staged"@]);
    r
}

/// The staged files, one for each line the query printed.
pub fn get_modified_files(run: CommandRun) -> (r: Result<Vec<String>, GitError>)
    ensures
        match run {
            CommandRun::Finished { success: true, stdout } => r matches Ok(files) && views(files@)
                == lines_spec(stdout@),
            _ => r matches Err(GitError::FailedToExecuteCmd(c)) && c@
                == "git diff --name-only --staged"@,
        },
{
    match run {
        CommandRun::Finished { success: true, stdout } => Ok(split_lines(stdout.as_str())),
        _ => Err(GitError::FailedToExecuteCmd("git diff --name-only --staged".to_owned())),
    }
}

/// The arguments of the query for the `count` latest commits.
pub fn recent_commits_args(count: usize) -> (r: Vec<String>)
    ensures
        views(r@) == seq!["log"@, "--oneline"@, "-n"@, decimal_spec(count as nat)],
{
    let mut r = texts(&["log", "--oneline", "-n"]);
    r.push(decimal_text(count));
    assert(views(r@) =~= seq!["log"@, "--oneline"@, "-n"@, decimal_spec(count as nat)]);
    r
}

/// The subjects of the commits the log query printed, newest first.
pub fn get_recent_commits(run: CommandRun) -> (r: Result<Vec<String>, GitError>)
    ensures
        match run {
            CommandRun::Finished { success: true, stdout } => r matches Ok(subjects) && views(
                subjects@,
            ) == lines_spec(stdout@).map_values(|l: Seq<char>| subject_spec(l)),
            _ => r matches Err(GitError::FailedToExecuteCmd(c)) && c@ == "git log"@,
        },
{
    match run {
        CommandRun::Finished { success: true, stdout } => {
            let lines = split_lines(stdout.as_str());
            let mut subjects: Vec<String> = Vec::new();
            let mut i: usize = 0;
            while i < lines.len()
                invariant
                    i <= lines@.len(),
                    views(lines@) == lines_spec(stdout@),
                    subjects@.len() == i,
                    forall|k: int| 0 <= k < i ==> #[trigger] subjects@[k]@ == subject_spec(lines@[k]@),
                decreases lines@.len() - i,
            {
                subjects.push(commit_subject(lines[i].as_str()));
                i = i + 1;
            }
            assert(views(subjects@) =~= lines_spec(stdout@).map_values(|l: Seq<char>| subject_spec(l)));
            Ok(subjects)
        },
        _ => Err(GitError::FailedToExecuteCmd("git log".to_owned())),
    }
}

/// The arguments of the commit that records `message` and opens it in the
/// editor for review.
pub fn commit_args(message: &str) -> (r: Vec<String>)
    ensures
        views(r@) == seq!["commit"@, "-m"@, message@, "-e"@],
{
    let r = texts(&["commit", "-m", message, "-e"]);
    assert(views(r@) =~= seq!["commit"@, "-m"@, message@, "-e"@]);
    r
}

/// What came of the commit: it fails only where git could not be started;
/// its exit status is not looked at.
pub fn commit(run: CommandRun) -> (r: Result<(), GitError>)
    ensures
        match run {
            CommandRun::NotStarted => r matches Err(GitError::FailedToExecuteCmd(c)) && c@
                == "git commit"@,
            CommandRun::Finished { .. } => r is Ok,
        },
{
    match run {
        CommandRun::NotStarted => Err(GitError::FailedToExecuteCmd("git commit".to_owned())),
        CommandRun::Finished { .. } => Ok(()),
    }
}

} // verus!
