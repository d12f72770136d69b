use vstd::prelude::*;

use crate::analysis::{
    commit_lines_spec, format_recent_commits, group_files_by_type, grouped_spec, GROUP_COUNT,
};
use crate::git::views;
use crate::text::concat_text;

verus! {

/// The instructions of the generation call.
pub const COMMIT_SYSTEM_PROMPT: &'static str = "You are an expert at generating git commit messages following conventional commit standards. Your response should only contain the commit message, nothing else.";

/// The guide to conventional commits that opens the user prompt, up to the
/// branch name.
pub const PROMPT_HEAD: &'static str = "# Git Commit Message Generation Prompt

You are an expert at writing clear, concise, and meaningful git commit messages following conventional commit patterns.

## Requirements

### Conventional Commit Format
Follow the pattern: `<type>[optional scope]: <description>`

### Types
- **feat**: A new feature
- **fix**: A bug fix
- **docs**: Documentation only changes
- **style**: Changes that do not affect the meaning of the code (white-space, formatting, missing semi-colons, etc)
- **refactor**: A code change that neither fixes a bug nor adds a feature
- **perf**: A code change that improves performance
- **test**: Adding missing tests or correcting existing tests
- **chore**: Changes to the build process or auxiliary tools and libraries
- **ci**: Changes to CI configuration files and scripts
- **build**: Changes that affect the build system or external dependencies

### Guidelines
- **Keep it short**: Limit the subject line to 72 characters or less
- **Use imperative mood**: \"Add feature\" not \"Added feature\" or \"Adding feature\"
- **No period**: Don't end the subject line with a period
- **Capitalize**: Start with a capital letter
- **Be specific**: Describe what the commit does, not what was wrong

### Scope Examples

### Scope Guidelines

- If a comma-separated list of scopes is provided in the data, use ONLY scopes from this list
- For Nx repositories (when is_nx_repo is true), the scopes list will contain app and lib directory names
- Only use a scope if it clearly matches the changes being made
- If no scope from the provided list is suitable, omit the scope entirely
- Do not invent scopes that aren't in the provided list
- For Nx repositories, prefer using the app or lib name that contains the changed files as the scope
- If the scopes list is empty and it's not an Nx repo, you may derive a scope from the directory names in the diff

Examples with scope:
- `feat(helix): add typescript lsp support`
- `fix(nvim): resolve plugin loading issue`
- `docs(fish): update function documentation`

Examples without scope:
- `feat: add new configuration option`
- `fix: resolve cross-platform compatibility issue`
- `refactor: simplify error handling logic`

### Multi-file Changes
- Focus on the primary purpose of the change
- Use the most appropriate type for the overall change
- Consider breaking large changes into smaller, focused commits

### Message Structure
When multiple changes are present:
- **Subject**: Describe the major/primary change (max 72 chars)
- **Body**: Use bullet points with `-` for additional changes
- **Footer**: Include breaking changes and issue references

### Body Format
```
- Add secondary feature or fix
- Update documentation for new API
- Refactor helper functions for better performance
```

### Footer Format
```
BREAKING CHANGE: API endpoint /users now requires authentication

Closes #123
Fixes #456
Resolves #789
```

### Breaking Changes
- Always include `BREAKING CHANGE:` in footer when applicable
- Describe what changed and migration path if needed
- Use when changes break backward compatibility

### Issue References
- Use `Closes #123` for features that close issues
- Use `Fixes #456` for bug fixes that resolve issues
- Use `Resolves #789` for general issue resolution
- Multiple references are allowed

Generate commit messages that clearly communicate the intent and impact of the staged changes.

Analyze the branch name, diff and scopes attached, to generate a conventional commit message.

```md
Branch name: ";

/// What closes the user prompt, after the change analysis.
pub const PROMPT_TAIL: &'static str = "
```

ALWAYS RETURN COMMIT MESSAGE as STANDARD OUTPUT LIKE FOLLOWING AND NO EXPLANATION, NO INTRODUCTION, NO SUMMARY,
JUST commit message, like following.

<message-here>
";

/// The instructions of the generation call.
pub fn get_commit_system_prompt() -> (r: String)
    ensures
        r@ == COMMIT_SYSTEM_PROMPT@,
{
    COMMIT_SYSTEM_PROMPT.to_owned()
}

/// How a flag reads in the prompt.
pub open spec fn flag_text(b: bool) -> Seq<char> {
    if b {
        "true"@
    } else {
        "false"@
    }
}

/// The recent-commits section of the prompt.
pub open spec fn commits_section(commits: Seq<Seq<char>>) -> Seq<char> {
    if commits.len() == 0 {
        "No recent commits found."@
    } else {
        commit_lines_spec(commits)
    }
}

/// The user prompt of the generation call: the guide, then each piece of
/// context under its label.
pub open spec fn user_prompt_spec(
    branch_name: Seq<char>,
    scopes: Seq<char>,
    is_nx_repo: bool,
    diff: Seq<char>,
    modified_files: Seq<Seq<char>>,
    recent_commits: Seq<Seq<char>>,
    change_analysis: Seq<char>,
) -> Seq<char> {
    PROMPT_HEAD@ + branch_name + "\nScopes: "@ + scopes + "\nIs Nx Repository: "@
        + flag_text(is_nx_repo) + "\n\nDiff of staged changes:\n"@ + diff
        + "\n\nModified files:\n"@ + grouped_spec(modified_files, GROUP_COUNT as int)
        + "\n\nRecent commits:\n"@ + commits_section(recent_commits)
        + "\n\nChange analysis:\n"@ + change_analysis
        + PROMPT_TAIL@
}

/// Puts the repository context and the change analysis into the prompt of
/// the generation call.
pub fn get_commit_user_prompt(
    branch_name: String,
    scopes: String,
    is_nx_repo: bool,
    diff: String,
    modified_files: Vec<String>,
    recent_commits: Vec<String>,
    change_analysis: String,
) -> (r: String)
    ensures
        r@ == user_prompt_spec(
            branch_name@,
            scopes@,
            is_nx_repo,
            diff@,
            views(modified_files@),
            views(recent_commits@),
            change_analysis@,
        ),
{
    let grouped_files = group_files_by_type(modified_files);
    let recent_commits_str = format_recent_commits(recent_commits);
    let mut r = concat_text(PROMPT_HEAD, branch_name.as_str());
    r.append("\nScopes: ");
    r.append(scopes.as_str());
    r.append("\nIs Nx Repository: ");
    r.append(if is_nx_repo { "true" } else { "false" });
    r.append("\n\nDiff of staged changes:\n");
    r.append(diff.as_str());
    r.append("\n\nModified files:\n");
    r.append(grouped_files.as_str());
    r.append("\n\nRecent commits:\n");
    r.append(recent_commits_str.as_str());
    r.append("\n\nChange analysis:\n");
    r.append(change_analysis.as_str());
    r.append(PROMPT_TAIL);
    r
}

} // verus!
