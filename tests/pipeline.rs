use gen_commit::anthropic::AnthropicReply;
use gen_commit::client::{ClientError, CreateClientError, Credentials, Exchange, Reply, RequestBody};
use gen_commit::git::{CommandRun, GitError};
use gen_commit::openai::OpenAIReply;
use gen_commit::pipeline::{
    confirms_commit, ignore_pathspecs, is_affirmative, exclusion_pathspecs, Action, Event, Outcome,
    Pipeline, PipelineError, RunOptions, Stage,
};

fn options(model: &str, skip_analysis: bool, dry_run: bool) -> RunOptions {
    RunOptions {
        model: model.to_string(),
        max_tokens: 500,
        ignore: "package-lock.json,Cargo.lock".to_string(),
        skip_analysis,
        dry_run,
    }
}

fn ran(success: bool, stdout: &str) -> Event {
    Event::GitRan(CommandRun::Finished { success, stdout: stdout.to_string() })
}

fn credentials() -> Credentials {
    Credentials { openai_api_key: Some("ok".to_string()), anthropic_api_key: Some("ak".to_string()) }
}

fn anthropic_answer(text: &str, input: u32, output: u32) -> Event {
    Event::Answered(Exchange::Answered {
        status: 200,
        body: String::new(),
        reply: Some(Reply::Anthropic(AnthropicReply {
            content: vec![text.to_string()],
            input_tokens: input,
            output_tokens: output,
        })),
    })
}

fn args(action: &Action) -> Vec<String> {
    match action {
        Action::RunGit { args, .. } => args.clone(),
        other => panic!("expected a git run, got {:?}", other),
    }
}

/// Runs the context queries of a repository with one staged file and the
/// given diff; returns the pipeline and its next action.
fn collect_context(opts: RunOptions, diff: &str) -> (Pipeline, Action) {
    collect_context_until(opts, ran(true, diff))
}

/// Runs the context queries up to the staged diff, which gives `diff_run`.
fn collect_context_until(opts: RunOptions, diff_run: Event) -> (Pipeline, Action) {
    let mut p = Pipeline::new(opts);
    let a = p.pending_action();
    assert_eq!(args(&a), vec!["rev-parse", "--git-dir"]);
    let a = p.step(ran(true, ".git\n"));
    assert_eq!(args(&a), vec!["rev-parse", "--show-toplevel"]);
    let a = p.step(ran(true, "/repo"));
    assert_eq!(args(&a), vec!["branch", "--show-current"]);
    let a = p.step(ran(true, "main\n"));
    match &a {
        Action::ReadFile { path } => assert_eq!(path, "/repo/scopes.txt"),
        other => panic!("unexpected {:?}", other),
    }
    let a = p.step(Event::FileRead(None));
    match &a {
        Action::CheckFile { path } => assert_eq!(path, "/repo/nx.json"),
        other => panic!("unexpected {:?}", other),
    }
    let a = p.step(Event::FileChecked(false));
    assert_eq!(
        args(&a),
        vec!["diff", "--staged", "--", ":!package-lock.json", ":!Cargo.lock"]
    );
    let a = p.step(diff_run);
    (p, a)
}

#[test]
fn end_to_end_with_analysis() {
    let (mut p, a) = collect_context(options("anthropic:sonnet-x", false, true), "+added line\n");
    assert_eq!(args(&a), vec!["diff", "--name-only", "--staged"]);
    let a = p.step(ran(true, "src/lib.rs\n"));
    assert_eq!(args(&a), vec!["log", "--oneline", "-n", "5"]);
    let a = p.step(ran(true, "abc123 feat: earlier\n"));
    assert!(matches!(a, Action::ReadCredentials));
    let a = p.step(Event::CredentialsRead(credentials()));
    match a {
        Action::Send { request } => match request.body {
            RequestBody::Anthropic(body) => {
                assert!(body.messages[0].content.contains("+added line"));
                assert!(body.system[0].text.starts_with("You are an expert code analyst."));
            }
            other => panic!("unexpected {:?}", other),
        },
        other => panic!("unexpected {:?}", other),
    }
    let a = p.step(anthropic_answer(" - adds a line ", 10, 5));
    match a {
        Action::Send { request } => match request.body {
            RequestBody::Anthropic(body) => {
                let prompt = &body.messages[0].content;
                assert!(prompt.contains("Change analysis:\n- adds a line"));
                assert!(prompt.contains("- Backend: src/lib.rs"));
                assert!(prompt.contains("- feat: earlier"));
                assert!(prompt.contains("Branch name: main\n"));
            }
            other => panic!("unexpected {:?}", other),
        },
        other => panic!("unexpected {:?}", other),
    }
    let a = p.step(anthropic_answer("  feat: add line  ", 20, 8));
    match a {
        Action::Present { message, analysis_usage, generation_usage, totals } => {
            assert_eq!(message, "feat: add line");
            let analysis = analysis_usage.unwrap();
            assert_eq!(analysis.total_tokens, 15);
            assert_eq!(generation_usage.total_tokens, 28);
            assert!(analysis.total_tokens > 0 && generation_usage.total_tokens > 0);
            assert_eq!(totals.total_tokens, 43);
            assert_eq!(totals.input_tokens, 30);
            assert_eq!(totals.output_tokens, 13);
        }
        other => panic!("unexpected {:?}", other),
    }
    let a = p.step(Event::Presented);
    assert!(matches!(a, Action::Finish(Outcome::Previewed)));
    assert_eq!(p.stage, Stage::Finished);
}

#[test]
fn empty_diff_ends_before_any_client() {
    let (mut p, a) = collect_context(options("anthropic:sonnet-x", false, false), "");
    assert!(matches!(a, Action::Finish(Outcome::NoChanges)));
    assert!(p.client.is_none());
    let a = p.step(Event::CredentialsRead(credentials()));
    assert!(matches!(a, Action::Finish(Outcome::NoChanges)));
    let a = p.step(anthropic_answer("x", 1, 1));
    assert!(matches!(a, Action::Finish(Outcome::NoChanges)));
    assert!(p.client.is_none());
}

#[test]
fn skipped_analysis_and_commit() {
    let (mut p, _) = collect_context(options("openai:gpt-4o", true, false), "+x\n");
    p.step(ran(true, "a.md\n"));
    p.step(ran(false, ""));
    assert!(p.context.recent_commits.is_empty());
    let a = p.step(Event::CredentialsRead(credentials()));
    match a {
        Action::Send { request } => match request.body {
            RequestBody::OpenAI(body) => {
                assert!(body.input[1].content.contains("No recent commits found."));
                assert!(body.input[1].content.contains("Change analysis:\n\n```"));
            }
            other => panic!("unexpected {:?}", other),
        },
        other => panic!("unexpected {:?}", other),
    }
    let a = p.step(Event::Answered(Exchange::Answered {
        status: 200,
        body: String::new(),
        reply: Some(Reply::OpenAI(OpenAIReply {
            output: vec![vec!["docs: note".to_string()]],
            input_tokens: 3,
            output_tokens: 2,
            total_tokens: 5,
        })),
    }));
    match a {
        Action::Present { analysis_usage, totals, .. } => {
            assert!(analysis_usage.is_none());
            assert_eq!(totals.total_tokens, 5);
        }
        other => panic!("unexpected {:?}", other),
    }
    assert!(matches!(p.step(Event::Presented), Action::AskConfirmation));
    let a = p.step(Event::Confirmation(Some(" Y\n".to_string())));
    match &a {
        Action::RunGit { args, interactive } => {
            assert_eq!(args, &vec!["commit", "-m", "docs: note", "-e"]);
            assert!(*interactive);
        }
        other => panic!("unexpected {:?}", other),
    }
    assert!(matches!(p.step(ran(true, "")), Action::Finish(Outcome::Committed)));
}

#[test]
fn declined_commit_is_cancelled() {
    let (mut p, _) = collect_context(options("openai:gpt-4o", true, false), "+x\n");
    p.step(ran(true, "a.md\n"));
    p.step(ran(true, ""));
    p.step(Event::CredentialsRead(credentials()));
    p.step(Event::Answered(Exchange::Answered {
        status: 200,
        body: String::new(),
        reply: Some(Reply::OpenAI(OpenAIReply {
            output: vec![],
            input_tokens: 1,
            output_tokens: 1,
            total_tokens: 2,
        })),
    }));
    p.step(Event::Presented);
    assert!(matches!(p.step(Event::Confirmation(Some("no".to_string()))), Action::Finish(Outcome::Cancelled)));
}

#[test]
fn failures_end_the_run() {
    let mut p = Pipeline::new(options("anthropic:c", false, false));
    assert!(matches!(p.step(ran(false, "")), Action::Finish(Outcome::NotARepository)));

    let mut p = Pipeline::new(options("anthropic:c", false, false));
    p.step(ran(true, ""));
    match p.step(Event::GitRan(CommandRun::NotStarted)) {
        Action::Finish(Outcome::Failed(PipelineError::Git(GitError::FailedToExecuteCmd(c)))) => {
            assert_eq!(c, "git rev-parse --show-toplevel")
        }
        other => panic!("unexpected {:?}", other),
    }

    let (_, a) = collect_context(options("anthropic:c", false, false), "");
    assert!(matches!(a, Action::Finish(Outcome::NoChanges)));

    let (_, a) = collect_context_until(options("anthropic:c", false, false), ran(false, ""));
    assert!(matches!(
        a,
        Action::Finish(Outcome::Failed(PipelineError::Git(GitError::NoStagedChanges)))
    ));

    let (mut p, _) = collect_context(options("anthropic:c", false, false), "+x");
    match p.step(ran(false, "")) {
        Action::Finish(Outcome::Failed(PipelineError::Git(GitError::FailedToExecuteCmd(c)))) => {
            assert_eq!(c, "git diff --name-only --staged")
        }
        other => panic!("unexpected {:?}", other),
    }

    let (mut p, _) = collect_context(options("nobody:c", false, false), "+x");
    p.step(ran(true, "f\n"));
    p.step(ran(true, ""));
    assert!(matches!(
        p.step(Event::CredentialsRead(credentials())),
        Action::Finish(Outcome::Failed(PipelineError::CreateClient(CreateClientError::ParseError(_))))
    ));

    let (mut p, _) = collect_context(options("anthropic:c", false, false), "+x");
    p.step(ran(true, "f\n"));
    p.step(ran(true, ""));
    p.step(Event::CredentialsRead(credentials()));
    match p.step(Event::Answered(Exchange::Answered {
        status: 401,
        body: "denied".to_string(),
        reply: None,
    })) {
        Action::Finish(Outcome::Failed(PipelineError::Client(ClientError::RequestFailed(b)))) => {
            assert_eq!(b, "denied")
        }
        other => panic!("unexpected {:?}", other),
    }
}

#[test]
fn unexpected_event_repeats_request() {
    let mut p = Pipeline::new(options("anthropic:c", false, false));
    let a = p.step(Event::Presented);
    assert_eq!(args(&a), vec!["rev-parse", "--git-dir"]);
    assert_eq!(p.stage, Stage::CheckingRepo);
}

#[test]
fn pathspecs_from_list() {
    assert_eq!(
        ignore_pathspecs("package-lock.json, Cargo.lock,, ,bun.lock "),
        vec![":!package-lock.json", ":!Cargo.lock", ":!bun.lock"]
    );
    assert!(ignore_pathspecs("").is_empty());
    let entries: Vec<String> = vec!["a".into(), " ".into(), "\tb/c\n".into()];
    assert_eq!(exclusion_pathspecs(&entries), vec![":!a", ":!b/c"]);
}

#[test]
fn confirmation_answers() {
    assert!(confirms_commit("y\n"));
    assert!(confirms_commit("  Y  "));
    assert!(!confirms_commit("yes"));
    assert!(!confirms_commit("n"));
    assert!(!confirms_commit(""));
    assert!(is_affirmative("y"));
    assert!(!is_affirmative("Y"));
}

#[test]
fn credentials_missing_in_run() {
    let (mut p, _) = collect_context(options("openai:gpt", false, false), "+x");
    p.step(ran(true, "f\n"));
    p.step(ran(true, ""));
    match p.step(Event::CredentialsRead(Credentials { openai_api_key: None, anthropic_api_key: None })) {
        Action::Finish(Outcome::Failed(PipelineError::CreateClient(CreateClientError::MissingCredential(v)))) => {
            assert_eq!(v, "OPENAI_API_KEY")
        }
        other => panic!("unexpected {:?}", other),
    }
}
