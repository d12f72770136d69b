use vstd::prelude::*;

use crate::analysis::{analysis_user_prompt, ANALYSIS_REQUEST, ANALYSIS_SYSTEM_PROMPT};
use crate::client::{
    built_client_is, client_outcome_is, client_request_is, create_client, Client, ClientError,
    CreateClientError, Credentials, Exchange, GenerateResponseResult, HttpRequest, UsageInfo,
    DEFAULT_TEMPERATURE_HUNDREDTHS,
};
use crate::git::{
    branch_name_args, commit, commit_args, decimal_spec, get_branch_name, get_git_root,
    get_modified_files, get_recent_commits, get_staged_diff, git_root_args, is_git_repo,
    lines_spec, modified_files_args, recent_commits_args, repo_check_args, staged_diff_args,
    staged_diff_args_spec, subject_spec, views, CommandRun, GitError,
};
use crate::prompt::{
    get_commit_system_prompt, get_commit_user_prompt, user_prompt_spec, COMMIT_SYSTEM_PROMPT,
};
use crate::text::{
    concat_text, lowercase_of, lowercase_text, same_text, split_spec, split_text, trim_spec,
    trim_text,
};

verus! {

/// The pathspec that leaves out what `entry` names, or none where `entry` is
/// blank.
pub open spec fn pathspec_of(entry: Seq<char>) -> Option<Seq<char>> {
    if trim_spec(entry).len() == 0 {
        None
    } else {
        Some(":!"@ + trim_spec(entry))
    }
}

/// The exclusion pathspecs of a list of entries: `:!` before each trimmed
/// entry, in order, blank entries dropped.
pub open spec fn pathspecs_spec(entries: Seq<Seq<char>>) -> Seq<Seq<char>> {
    entries.filter_map(|e: Seq<char>| pathspec_of(e))
}

/// An exclusion list whose entries are all trimmed and non-blank gives one
/// pathspec for each entry, `:!` and the entry, in the list's order.
pub proof fn lemma_pathspecs_keep_order(entries: Seq<Seq<char>>)
    requires
        forall|i: int|
            0 <= i < entries.len() ==> trim_spec(#[trigger] entries[i]) == entries[i]
                && entries[i].len() > 0,
    ensures
        pathspecs_spec(entries) == entries.map_values(|e: Seq<char>| ":!"@ + e),
    decreases entries.len(),
{
    if entries.len() > 0 {
        let rest = entries.drop_last();
        assert forall|i: int| 0 <= i < rest.len() implies trim_spec(#[trigger] rest[i]) == rest[i]
            && rest[i].len() > 0 by {
            assert(rest[i] == entries[i]);
        }
        lemma_pathspecs_keep_order(rest);
        assert(trim_spec(entries.last()) == entries[entries.len() - 1]);
        assert(entries.map_values(|e: Seq<char>| ":!"@ + e) =~= rest.map_values(
            |e: Seq<char>| ":!"@ + e,
        ) + seq![":!"@ + entries.last()]);
    } else {
        assert(entries.map_values(|e: Seq<char>| ":!"@ + e) =~= Seq::<Seq<char>>::empty());
    }
}

/// The exclusion pathspecs of `entries`.
pub fn exclusion_pathspecs(entries: &Vec<String>) -> (r: Vec<String>)
    ensures
        views(r@) == pathspecs_spec(views(entries@)),
{
    let mut r: Vec<String> = Vec::new();
    let mut i: usize = 0;
    while i < entries.len()
        invariant
            i <= entries@.len(),
            views(r@) == pathspecs_spec(views(entries@).subrange(0, i as int)),
        decreases entries@.len() - i,
    {
        let ghost prefix = views(entries@).subrange(0, i + 1);
        assert(prefix.drop_last() =~= views(entries@).subrange(0, i as int));
        assert(prefix.last() == entries@[i as int]@);
        let trimmed = trim_text(entries[i].as_str());
        if trimmed.unicode_len() > 0 {
            let ghost before = r@;
            r.push(concat_text(":!", trimmed));
            assert(views(r@) =~= views(before) + seq![":!"@ + trim_spec(entries@[i as int]@)]);
        }
        i = i + 1;
    }
    assert(views(entries@).subrange(0, entries@.len() as int) =~= views(entries@));
    r
}

/// The exclusion pathspecs of a comma-separated list.
pub fn ignore_pathspecs(list: &str) -> (r: Vec<String>)
    ensures
        views(r@) == pathspecs_spec(split_spec(list@, ',')),
{
    let entries = split_text(list, ',');
    assert(views(entries@) =~= entries@.map_values(|t: String| t@));
    exclusion_pathspecs(&entries)
}

/// Token counts summed over the calls of one run. They are wider than those
/// of one call, so that the sums always fit.
#[derive(Debug, Clone, Copy, PartialEq, Eq, Structural)]
pub struct UsageTotals {
    pub input_tokens: u64,
    pub output_tokens: u64,
    pub total_tokens: u64,
}

/// The totals of a run: the generation call's counts, plus the analysis
/// call's where there was one.
pub open spec fn totals_spec(analysis: Option<UsageInfo>, generation: UsageInfo) -> UsageTotals {
    match analysis {
        Some(a) => UsageTotals {
            input_tokens: (a.input_tokens + generation.input_tokens) as u64,
            output_tokens: (a.output_tokens + generation.output_tokens) as u64,
            total_tokens: (a.total_tokens + generation.total_tokens) as u64,
        },
        None => UsageTotals {
            input_tokens: generation.input_tokens as u64,
            output_tokens: generation.output_tokens as u64,
            total_tokens: generation.total_tokens as u64,
        },
    }
}

/// Sums the token counts of the analysis call, if one was made, and of the
/// generation call.
pub fn report_usage(analysis_usage: &Option<UsageInfo>, generation_usage: &UsageInfo) -> (r: UsageTotals)
    ensures
        r == totals_spec(*analysis_usage, *generation_usage),
        r.input_tokens == generation_usage.input_tokens + match analysis_usage {
            Some(a) => a.input_tokens as int,
            None => 0,
        },
        r.output_tokens == generation_usage.output_tokens + match analysis_usage {
            Some(a) => a.output_tokens as int,
            None => 0,
        },
        r.total_tokens == generation_usage.total_tokens + match analysis_usage {
            Some(a) => a.total_tokens as int,
            None => 0,
        },
{
    match analysis_usage {
        Some(a) => UsageTotals {
            input_tokens: a.input_tokens as u64 + generation_usage.input_tokens as u64,
            output_tokens: a.output_tokens as u64 + generation_usage.output_tokens as u64,
            total_tokens: a.total_tokens as u64 + generation_usage.total_tokens as u64,
        },
        None => UsageTotals {
            input_tokens: generation_usage.input_tokens as u64,
            output_tokens: generation_usage.output_tokens as u64,
            total_tokens: generation_usage.total_tokens as u64,
        },
    }
}

/// Whether an already lowercased and trimmed answer agrees: it is `y`.
pub fn is_affirmative(lowered: &str) -> (r: bool)
    ensures
        r == (lowered@ == "y"@),
{
    same_text(lowered, "y")
}

/// Whether a typed answer agrees to the commit: trimmed and lowercased, it is
/// `y`.
pub fn confirms_commit(answer: &str) -> (r: bool)
    ensures
        r == (lowercase_of(trim_spec(answer@)) == "y"@),
{
    let lowered = lowercase_text(trim_text(answer));
    is_affirmative(lowered.as_str())
}

/// How many recent commits the prompt shows.
pub const RECENT_COMMIT_COUNT: usize = 5;

/// Why a run stopped short.
#[derive(Debug, Clone)]
pub enum PipelineError {
    Git(GitError),
    CreateClient(CreateClientError),
    Client(ClientError),
    /// The answer to the commit question could not be read.
    Input,
}

/// How a run ended.
#[derive(Debug, Clone)]
pub enum Outcome {
    /// The working directory is not in a repository.
    NotARepository,
    /// Nothing is staged: no provider was asked.
    NoChanges,
    Failed(PipelineError),
    /// The message was shown without committing.
    Previewed,
    /// The commit was declined.
    Cancelled,
    Committed,
}

impl PipelineError {
    /// A value equal to this one.
    pub fn duplicate(&self) -> (r: Self)
        ensures
            r == *self,
    {
        match self {
            PipelineError::Git(e) => PipelineError::Git(e.duplicate()),
            PipelineError::CreateClient(e) => PipelineError::CreateClient(e.duplicate()),
            PipelineError::Client(e) => PipelineError::Client(e.duplicate()),
            PipelineError::Input => PipelineError::Input,
        }
    }
}

impl Outcome {
    /// A value equal to this one.
    pub fn duplicate(&self) -> (r: Self)
        ensures
            r == *self,
    {
        match self {
            Outcome::NotARepository => Outcome::NotARepository,
            Outcome::NoChanges => Outcome::NoChanges,
            Outcome::Failed(e) => Outcome::Failed(e.duplicate()),
            Outcome::Previewed => Outcome::Previewed,
            Outcome::Cancelled => Outcome::Cancelled,
            Outcome::Committed => Outcome::Committed,
        }
    }
}

/// The settings of one run.
#[derive(Debug, Clone)]
pub struct RunOptions {
    /// The `provider:model` specifier.
    pub model: String,
    pub max_tokens: u32,
    /// Comma-separated paths that the diff leaves out.
    pub ignore: String,
    /// Skip the analysis call.
    pub skip_analysis: bool,
    /// Show the message without committing.
    pub dry_run: bool,
}

/// What the repository tells about the staged change.
#[derive(Debug, Clone)]
pub struct AppContext {
    pub branch_name: String,
    pub scopes: String,
    pub is_nx_repo: bool,
    pub diff: String,
    pub modified_files: Vec<String>,
    pub recent_commits: Vec<String>,
}

/// Where a run stands.
#[derive(Debug, Clone, Copy, PartialEq, Eq, Structural)]
pub enum Stage {
    CheckingRepo,
    FindingRoot,
    FindingBranch,
    ReadingScopes,
    CheckingMarker,
    FindingDiff,
    FindingFiles,
    FindingCommits,
    FindingCredentials,
    Analyzing,
    Generating,
    Presenting,
    Confirming,
    Committing,
    Finished,
}

/// What a run asks of its surroundings next.
#[derive(Debug)]
pub enum Action {
    /// Run git with these arguments in the working directory; `interactive`
    /// lets it use the terminal. Answer with `Event::GitRan`.
    RunGit { args: Vec<String>, interactive: bool },
    /// Read this file; answer with `Event::FileRead`.
    ReadFile { path: String },
    /// Tell whether this file exists; answer with `Event::FileChecked`.
    CheckFile { path: String },
    /// Read the providers' key variables; answer with `Event::CredentialsRead`.
    ReadCredentials,
    /// Send this request; answer with `Event::Answered`.
    Send { request: HttpRequest },
    /// Show the message and the token counts; answer with `Event::Presented`.
    Present {
        message: String,
        analysis_usage: Option<UsageInfo>,
        generation_usage: UsageInfo,
        totals: UsageTotals,
    },
    /// Ask whether to commit and read one line; answer with
    /// `Event::Confirmation`.
    AskConfirmation,
    /// The run is over.
    Finish(Outcome),
}

/// What came of an action.
#[derive(Debug)]
pub enum Event {
    GitRan(CommandRun),
    /// The file's text, or `None` where it could not be read.
    FileRead(Option<String>),
    FileChecked(bool),
    CredentialsRead(Credentials),
    Answered(Exchange),
    Presented,
    /// The line typed, or `None` where none could be read.
    Confirmation(Option<String>),
}

/// One run, from the repository check to the commit.
#[derive(Debug)]
pub struct Pipeline {
    pub stage: Stage,
    pub options: RunOptions,
    /// The exclusion pathspecs of `options.ignore`.
    pub pathspecs: Vec<String>,
    pub root: String,
    pub context: AppContext,
    pub client: Option<Client>,
    /// The analysis call's summary; empty where none was made.
    pub analysis: String,
    pub analysis_usage: Option<UsageInfo>,
    pub message: String,
    pub generation_usage: Option<UsageInfo>,
    /// Set once the run is over.
    pub outcome: Option<Outcome>,
}

/// `a` runs git with `args`.
pub open spec fn runs_git(a: Action, args: Seq<Seq<char>>, interactive: bool) -> bool {
    a matches Action::RunGit { args: g, interactive: i } && views(g@) == args && i == interactive
}

impl Pipeline {
    /// The fields agree with the stage.
    pub open spec fn wf(self) -> bool {
        &&& (self.stage == Stage::Finished <==> self.outcome is Some)
        &&& (self.stage == Stage::Analyzing || self.stage == Stage::Generating) ==> self.client is Some
        &&& (self.stage == Stage::Presenting || self.stage == Stage::Confirming || self.stage
            == Stage::Committing) ==> self.generation_usage is Some
    }

    /// The user prompt of the generation call.
    pub open spec fn user_prompt(self) -> Seq<char> {
        user_prompt_spec(
            self.context.branch_name@,
            self.context.scopes@,
            self.context.is_nx_repo,
            self.context.diff@,
            views(self.context.modified_files@),
            views(self.context.recent_commits@),
            self.analysis@,
        )
    }

    /// `a` is what the run asks for in its present state.
    pub open spec fn pending_is(self, a: Action) -> bool {
        match self.stage {
            Stage::CheckingRepo => runs_git(a, seq!["rev-parse"@, "--git-dir"@], false),
            Stage::FindingRoot => runs_git(a, seq!["rev-parse"@, "--show-toplevel"@], false),
            Stage::FindingBranch => runs_git(a, seq!["branch"@, "--show-current"@], false),
            Stage::ReadingScopes => a matches Action::ReadFile { path } && path@ == self.root@
                + "/scopes.txt"@,
            Stage::CheckingMarker => a matches Action::CheckFile { path } && path@ == self.root@
                + "/nx.json"@,
            Stage::FindingDiff => runs_git(a, staged_diff_args_spec(views(self.pathspecs@)), false),
            Stage::FindingFiles => runs_git(a, seq!["diff"@, "--name-only"@, "--staged"@], false),
            Stage::FindingCommits => runs_git(
                a,
                seq!["log"@, "--oneline"@, "-n"@, decimal_spec(RECENT_COMMIT_COUNT as nat)],
                false,
            ),
            Stage::FindingCredentials => a is ReadCredentials,
            Stage::Analyzing => a matches Action::Send { request } && client_request_is(
                self.client->0,
                request,
                ANALYSIS_SYSTEM_PROMPT@,
                ANALYSIS_REQUEST@ + self.context.diff@ + "\n"@,
            ),
            Stage::Generating => a matches Action::Send { request } && client_request_is(
                self.client->0,
                request,
                COMMIT_SYSTEM_PROMPT@,
                self.user_prompt(),
            ),
            Stage::Presenting => a matches Action::Present {
                message,
                analysis_usage,
                generation_usage,
                totals,
            } && {
                &&& message@ == self.message@
                &&& analysis_usage == self.analysis_usage
                &&& self.generation_usage == Some(generation_usage)
                &&& totals == totals_spec(analysis_usage, generation_usage)
            },
            Stage::Confirming => a is AskConfirmation,
            Stage::Committing => runs_git(a, seq!["commit"@, "-m"@, self.message@, "-e"@], true),
            Stage::Finished => self.outcome matches Some(o) && a == Action::Finish(o),
        }
    }

    /// A run with `options` that has done nothing yet.
    pub fn new(options: RunOptions) -> (r: Self)
        ensures
            r.wf(),
            r.stage == Stage::CheckingRepo,
            r.options == options,
            views(r.pathspecs@) == pathspecs_spec(split_spec(options.ignore@, ',')),
            r.client is None,
            r.analysis@.len() == 0,
            r.analysis_usage is None,
            r.message@.len() == 0,
            r.generation_usage is None,
            r.outcome is None,
    {
        let pathspecs = ignore_pathspecs(options.ignore.as_str());
        Pipeline {
            stage: Stage::CheckingRepo,
            options,
            pathspecs,
            root: String::new(),
            context: AppContext {
                branch_name: String::new(),
                scopes: String::new(),
                is_nx_repo: false,
                diff: String::new(),
                modified_files: Vec::new(),
                recent_commits: Vec::new(),
            },
            client: None,
            analysis: String::new(),
            analysis_usage: None,
            message: String::new(),
            generation_usage: None,
            outcome: None,
        }
    }

    /// Whether the fields agree with the stage.
    pub fn is_well_formed(&self) -> (r: bool)
        ensures
            r == self.wf(),
    {
        let finished = match self.stage {
            Stage::Finished => true,
            _ => false,
        };
        let needs_client = match self.stage {
            Stage::Analyzing | Stage::Generating => true,
            _ => false,
        };
        let needs_usage = match self.stage {
            Stage::Presenting | Stage::Confirming | Stage::Committing => true,
            _ => false,
        };
        finished == self.outcome.is_some() && (!needs_client || self.client.is_some()) && (
        !needs_usage || self.generation_usage.is_some())
    }

    /// What the run asks for in its present state.
    pub fn pending_action(&self) -> (r: Action)
        requires
            self.wf(),
        ensures
            self.pending_is(r),
    {
        match self.stage {
            Stage::CheckingRepo => Action::RunGit { args: repo_check_args(), interactive: false },
            Stage::FindingRoot => Action::RunGit { args: git_root_args(), interactive: false },
            Stage::FindingBranch => Action::RunGit { args: branch_name_args(), interactive: false },
            Stage::ReadingScopes => Action::ReadFile {
                path: concat_text(self.root.as_str(), "/scopes.txt"),
            },
            Stage::CheckingMarker => Action::CheckFile {
                path: concat_text(self.root.as_str(), "/nx.json"),
            },
            Stage::FindingDiff => Action::RunGit {
                args: staged_diff_args(&self.pathspecs),
                interactive: false,
            },
            Stage::FindingFiles => Action::RunGit { args: modified_files_args(), interactive: false },
            Stage::FindingCommits => Action::RunGit {
                args: recent_commits_args(RECENT_COMMIT_COUNT),
                interactive: false,
            },
            Stage::FindingCredentials => Action::ReadCredentials,
            Stage::Analyzing => {
                let client = self.client.as_ref().unwrap();
                Action::Send {
                    request: client.generate_request(
                        ANALYSIS_SYSTEM_PROMPT.to_owned(),
                        analysis_user_prompt(self.context.diff.as_str()),
                    ),
                }
            },
            Stage::Generating => {
                let client = self.client.as_ref().unwrap();
                let user_prompt = get_commit_user_prompt(
                    self.context.branch_name.clone(),
                    self.context.scopes.clone(),
                    self.context.is_nx_repo,
                    self.context.diff.clone(),
                    self.context.modified_files.clone(),
                    self.context.recent_commits.clone(),
                    self.analysis.clone(),
                );
                Action::Send { request: client.generate_request(get_commit_system_prompt(), user_prompt) }
            },
            Stage::Presenting => {
                let generation_usage = *self.generation_usage.as_ref().unwrap();
                Action::Present {
                    message: self.message.clone(),
                    analysis_usage: self.analysis_usage,
                    generation_usage,
                    totals: report_usage(&self.analysis_usage, &generation_usage),
                }
            },
            Stage::Confirming => Action::AskConfirmation,
            Stage::Committing => Action::RunGit {
                args: commit_args(self.message.as_str()),
                interactive: true,
            },
            Stage::Finished => Action::Finish(self.outcome.as_ref().unwrap().duplicate()),
        }
    }
}

/// `new` is `old` moved on to stage `s`.
pub open spec fn moved_to(old: Pipeline, new: Pipeline, s: Stage) -> bool {
    new == Pipeline { stage: s, ..old }
}

/// `new` is `old` ended with outcome `o`.
pub open spec fn ended_with(old: Pipeline, new: Pipeline, o: Outcome) -> bool {
    new == Pipeline { stage: Stage::Finished, outcome: Some(o), ..old }
}

/// `new` is `old` ended by the failure of the git command `command`.
pub open spec fn ended_by_command(old: Pipeline, new: Pipeline, command: Seq<char>) -> bool {
    &&& new.outcome matches Some(Outcome::Failed(PipelineError::Git(GitError::FailedToExecuteCmd(c))))
        && c@ == command
    &&& new == Pipeline { stage: Stage::Finished, outcome: new.outcome, ..old }
}

/// `new` is `old` after the client was built from `credentials`, or after the
/// attempt failed.
pub open spec fn client_built(old: Pipeline, credentials: Credentials, new: Pipeline) -> bool {
    let built = |r: Result<Client, CreateClientError>|
        built_client_is(
            old.options.model@,
            old.options.max_tokens,
            DEFAULT_TEMPERATURE_HUNDREDTHS,
            credentials,
            r,
        );
    match new.outcome {
        Some(Outcome::Failed(PipelineError::CreateClient(e))) => built(Err(e)) && new == Pipeline {
            stage: Stage::Finished,
            outcome: new.outcome,
            ..old
        },
        _ => new.client matches Some(c) && built(Ok(c)) && new == Pipeline {
            stage: if old.options.skip_analysis {
                Stage::Generating
            } else {
                Stage::Analyzing
            },
            client: new.client,
            ..old
        },
    }
}

/// `r` is what the run's client makes of `exchange`.
pub open spec fn reply_is(
    old: Pipeline,
    exchange: Exchange,
    r: Result<GenerateResponseResult, ClientError>,
) -> bool {
    client_outcome_is(old.client->0, exchange, r)
}

/// `new` is `old` after the analysis call came back as `exchange`.
pub open spec fn analysis_done(old: Pipeline, exchange: Exchange, new: Pipeline) -> bool {
    match new.outcome {
        Some(Outcome::Failed(PipelineError::Client(e))) => reply_is(old, exchange, Err(e)) && new
            == Pipeline { stage: Stage::Finished, outcome: new.outcome, ..old },
        _ => new.analysis_usage matches Some(u) && reply_is(
            old,
            exchange,
            Ok(GenerateResponseResult { message: new.analysis, usage: u }),
        ) && new == Pipeline {
            stage: Stage::Generating,
            analysis: new.analysis,
            analysis_usage: new.analysis_usage,
            ..old
        },
    }
}

/// `new` is `old` after the generation call came back as `exchange`.
pub open spec fn generation_done(old: Pipeline, exchange: Exchange, new: Pipeline) -> bool {
    match new.outcome {
        Some(Outcome::Failed(PipelineError::Client(e))) => reply_is(old, exchange, Err(e)) && new
            == Pipeline { stage: Stage::Finished, outcome: new.outcome, ..old },
        _ => new.generation_usage matches Some(u) && reply_is(
            old,
            exchange,
            Ok(GenerateResponseResult { message: new.message, usage: u }),
        ) && new == Pipeline {
            stage: Stage::Presenting,
            message: new.message,
            generation_usage: new.generation_usage,
            ..old
        },
    }
}

/// `new` is where `old` goes on event `e`. Each stage waits for the event of
/// its action and ignores any other. Failures of the root, branch, diff and
/// file queries, of client building and of either call end the run; a
/// missing scopes file, a missing marker and a failed log query do not. An
/// empty diff ends the run before any client is built.
pub open spec fn next_is(old: Pipeline, e: Event, new: Pipeline) -> bool {
    match (old.stage, e) {
        (Stage::CheckingRepo, Event::GitRan(run)) => if run matches CommandRun::Finished {
            success: true,
            ..
        } {
            moved_to(old, new, Stage::FindingRoot)
        } else {
            ended_with(old, new, Outcome::NotARepository)
        },
        (Stage::FindingRoot, Event::GitRan(run)) => match run {
            CommandRun::Finished { success: true, stdout } => new == Pipeline {
                stage: Stage::FindingBranch,
                root: stdout,
                ..old
            },
            _ => ended_by_command(old, new, "git rev-parse --show-toplevel"@),
        },
        (Stage::FindingBranch, Event::GitRan(run)) => match run {
            CommandRun::Finished { success: true, stdout } => new == Pipeline {
                stage: Stage::ReadingScopes,
                context: AppContext { branch_name: stdout, ..old.context },
                ..old
            },
            _ => ended_by_command(old, new, "git branch --show-current"@),
        },
        (Stage::ReadingScopes, Event::FileRead(text)) => new.context.scopes@ == match text {
            Some(t) => t@,
            None => Seq::empty(),
        } && new == Pipeline {
            stage: Stage::CheckingMarker,
            context: AppContext { scopes: new.context.scopes, ..old.context },
            ..old
        },
        (Stage::CheckingMarker, Event::FileChecked(found)) => new == Pipeline {
            stage: Stage::FindingDiff,
            context: AppContext { is_nx_repo: found, ..old.context },
            ..old
        },
        (Stage::FindingDiff, Event::GitRan(run)) => match run {
            CommandRun::NotStarted => ended_by_command(old, new, "git diff --staged"@),
            CommandRun::Finished { success, stdout } => if !success {
                ended_with(old, new, Outcome::Failed(PipelineError::Git(GitError::NoStagedChanges)))
            } else if stdout@.len() == 0 {
                ended_with(old, new, Outcome::NoChanges)
            } else {
                new == Pipeline {
                    stage: Stage::FindingFiles,
                    context: AppContext { diff: stdout, ..old.context },
                    ..old
                }
            },
        },
        (Stage::FindingFiles, Event::GitRan(run)) => match run {
            CommandRun::Finished { success: true, stdout } => views(new.context.modified_files@)
                == lines_spec(stdout@) && new == Pipeline {
                stage: Stage::FindingCommits,
                context: AppContext { modified_files: new.context.modified_files, ..old.context },
                ..old
            },
            _ => ended_by_command(old, new, "git diff --name-only --staged"@),
        },
        (Stage::FindingCommits, Event::GitRan(run)) => views(new.context.recent_commits@) == match run {
            CommandRun::Finished { success: true, stdout } => lines_spec(stdout@).map_values(
                |l: Seq<char>| subject_spec(l),
            ),
            _ => Seq::empty(),
        } && new == Pipeline {
            stage: Stage::FindingCredentials,
            context: AppContext { recent_commits: new.context.recent_commits, ..old.context },
            ..old
        },
        (Stage::FindingCredentials, Event::CredentialsRead(credentials)) => client_built(
            old,
            credentials,
            new,
        ),
        (Stage::Analyzing, Event::Answered(exchange)) => analysis_done(old, exchange, new),
        (Stage::Generating, Event::Answered(exchange)) => generation_done(old, exchange, new),
        (Stage::Presenting, Event::Presented) => if old.options.dry_run {
            ended_with(old, new, Outcome::Previewed)
        } else {
            moved_to(old, new, Stage::Confirming)
        },
        (Stage::Confirming, Event::Confirmation(answer)) => match answer {
            None => ended_with(old, new, Outcome::Failed(PipelineError::Input)),
            Some(line) => if lowercase_of(trim_spec(line@)) == "y"@ {
                moved_to(old, new, Stage::Committing)
            } else {
                ended_with(old, new, Outcome::Cancelled)
            },
        },
        (Stage::Committing, Event::GitRan(run)) => match run {
            CommandRun::NotStarted => ended_by_command(old, new, "git commit"@),
            CommandRun::Finished { .. } => ended_with(old, new, Outcome::Committed),
        },
        _ => new == old,
    }
}

impl Pipeline {
    fn end(&mut self, o: Outcome)
        ensures
            ended_with(*old(self), *final(self), o),
    {
        self.stage = Stage::Finished;
        self.outcome = Some(o);
    }

    fn advance(&mut self, event: Event)
        requires
            old(self).wf(),
        ensures
            final(self).wf(),
            next_is(*old(self), event, *final(self)),
    {
        match (self.stage, event) {
            (Stage::CheckingRepo, Event::GitRan(run)) => {
                if is_git_repo(&run) {
                    self.stage = Stage::FindingRoot;
                } else {
                    self.end(Outcome::NotARepository);
                }
            },
            (Stage::FindingRoot, Event::GitRan(run)) => match get_git_root(run) {
                Ok(root) => {
                    self.root = root;
                    self.stage = Stage::FindingBranch;
                },
                Err(e) => self.end(Outcome::Failed(PipelineError::Git(e))),
            },
            (Stage::FindingBranch, Event::GitRan(run)) => match get_branch_name(run) {
                Ok(branch) => {
                    self.context.branch_name = branch;
                    self.stage = Stage::ReadingScopes;
                },
                Err(e) => self.end(Outcome::Failed(PipelineError::Git(e))),
            },
            (Stage::ReadingScopes, Event::FileRead(text)) => {
                self.context.scopes = match text {
                    Some(t) => t,
                    None => String::new(),
                };
                self.stage = Stage::CheckingMarker;
            },
            (Stage::CheckingMarker, Event::FileChecked(found)) => {
                self.context.is_nx_repo = found;
                self.stage = Stage::FindingDiff;
            },
            (Stage::FindingDiff, Event::GitRan(run)) => match get_staged_diff(run) {
                Ok(diff) => {
                    if diff.as_str().is_empty() {
                        self.end(Outcome::NoChanges);
                    } else {
                        self.context.diff = diff;
                        self.stage = Stage::FindingFiles;
                    }
                },
                Err(e) => self.end(Outcome::Failed(PipelineError::Git(e))),
            },
            (Stage::FindingFiles, Event::GitRan(run)) => match get_modified_files(run) {
                Ok(files) => {
                    self.context.modified_files = files;
                    self.stage = Stage::FindingCommits;
                },
                Err(e) => self.end(Outcome::Failed(PipelineError::Git(e))),
            },
            (Stage::FindingCommits, Event::GitRan(run)) => {
                self.context.recent_commits = match get_recent_commits(run) {
                    Ok(subjects) => subjects,
                    Err(_) => {
                        let none: Vec<String> = Vec::new();
                        assert(views(none@) =~= Seq::<Seq<char>>::empty());
                        none
                    },
                };
                self.stage = Stage::FindingCredentials;
            },
            (Stage::FindingCredentials, Event::CredentialsRead(credentials)) => {
                match create_client(self.options.model.as_str(), self.options.max_tokens, &credentials) {
                    Ok(client) => {
                        self.client = Some(client);
                        self.stage = if self.options.skip_analysis {
                            Stage::Generating
                        } else {
                            Stage::Analyzing
                        };
                    },
                    Err(e) => self.end(Outcome::Failed(PipelineError::CreateClient(e))),
                }
            },
            (Stage::Analyzing, Event::Answered(exchange)) => {
                let result = self.client.as_ref().unwrap().read_response(exchange);
                match result {
                    Ok(reply) => {
                        self.analysis = reply.message;
                        self.analysis_usage = Some(reply.usage);
                        self.stage = Stage::Generating;
                    },
                    Err(e) => self.end(Outcome::Failed(PipelineError::Client(e))),
                }
            },
            (Stage::Generating, Event::Answered(exchange)) => {
                let result = self.client.as_ref().unwrap().read_response(exchange);
                match result {
                    Ok(reply) => {
                        self.message = reply.message;
                        self.generation_usage = Some(reply.usage);
                        self.stage = Stage::Presenting;
                    },
                    Err(e) => self.end(Outcome::Failed(PipelineError::Client(e))),
                }
            },
            (Stage::Presenting, Event::Presented) => {
                if self.options.dry_run {
                    self.end(Outcome::Previewed);
                } else {
                    self.stage = Stage::Confirming;
                }
            },
            (Stage::Confirming, Event::Confirmation(answer)) => match answer {
                Some(line) => {
                    if confirms_commit(line.as_str()) {
                        self.stage = Stage::Committing;
                    } else {
                        self.end(Outcome::Cancelled);
                    }
                },
                None => self.end(Outcome::Failed(PipelineError::Input)),
            },
            (Stage::Committing, Event::GitRan(run)) => match commit(run) {
                Ok(()) => self.end(Outcome::Committed),
                Err(e) => self.end(Outcome::Failed(PipelineError::Git(e))),
            },
            _ => {},
        }
    }

    /// Moves the run on by what came of its last action, and returns what it
    /// asks for next.
    pub fn step(&mut self, event: Event) -> (r: Action)
        requires
            old(self).wf(),
        ensures
            final(self).wf(),
            next_is(*old(self), event, *final(self)),
            final(self).pending_is(r),
    {
        self.advance(event);
        self.pending_action()
    }
}

/// `states`, `events` and `actions` record a run: each state goes to the
/// next on its event, and each action is what the state after the event asks
/// for.
pub open spec fn is_trace(states: Seq<Pipeline>, events: Seq<Event>, actions: Seq<Action>) -> bool {
    &&& states.len() == events.len() + 1
    &&& actions.len() == events.len()
    &&& forall|i: int| 0 <= i < events.len() ==> #[trigger] trace_step(states, events, actions, i)
}

/// The `i`th event of a run takes its `i`th state to the next, which asks for
/// the `i`th action.
pub open spec fn trace_step(states: Seq<Pipeline>, events: Seq<Event>, actions: Seq<Action>, i: int) -> bool {
    next_is(states[i], events[i], states[i + 1]) && states[i + 1].pending_is(actions[i])
}

proof fn lemma_finished_run_stays(
    states: Seq<Pipeline>,
    events: Seq<Event>,
    actions: Seq<Action>,
    k: int,
)
    requires
        is_trace(states, events, actions),
        1 <= k < states.len(),
        states[1].stage == Stage::Finished,
    ensures
        states[k] == states[1],
    decreases k,
{
    if k > 1 {
        lemma_finished_run_stays(states, events, actions, k - 1);
        assert(trace_step(states, events, actions, k - 1));
    }
}

/// Once the staged diff comes back empty the run is over, whatever happens
/// after: it ends with `NoChanges`, never reads a key, never builds a client
/// and never sends a request.
pub proof fn lemma_empty_diff_ends_run(states: Seq<Pipeline>, events: Seq<Event>, actions: Seq<Action>)
    requires
        is_trace(states, events, actions),
        events.len() > 0,
        states[0].stage == Stage::FindingDiff,
        events[0] matches Event::GitRan(CommandRun::Finished { success: true, stdout }) && stdout@.len()
            == 0,
    ensures
        forall|i: int|
            0 < i < states.len() ==> #[trigger] states[i].stage == Stage::Finished && states[i].outcome
                == Some(Outcome::NoChanges) && states[i].client == states[0].client,
        forall|i: int|
            0 <= i < actions.len() ==> #[trigger] actions[i] == Action::Finish(Outcome::NoChanges)
                && !(actions[i] is Send) && !(actions[i] is ReadCredentials),
{
    assert(trace_step(states, events, actions, 0));
    assert forall|i: int| 0 < i < states.len() implies #[trigger] states[i].stage == Stage::Finished
        && states[i].outcome == Some(Outcome::NoChanges) && states[i].client == states[0].client by {
        lemma_finished_run_stays(states, events, actions, i);
    }
    assert forall|i: int| 0 <= i < actions.len() implies #[trigger] actions[i] == Action::Finish(
        Outcome::NoChanges,
    ) && !(actions[i] is Send) && !(actions[i] is ReadCredentials) by {
        lemma_finished_run_stays(states, events, actions, i + 1);
        assert(trace_step(states, events, actions, i));
    }
}

} // verus!
