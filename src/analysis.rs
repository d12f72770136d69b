use vstd::prelude::*;

use crate::client::{client_request_is, Client, HttpRequest};
use crate::git::views;
use crate::text::{concat_text, contains_spec, contains_text};

verus! {

/// How many groups changed files are sorted into, the catch-all included.
pub const GROUP_COUNT: usize = 6;

/// The markers that put a file into group `g`; the catch-all group `5` has
/// none.
pub open spec fn group_markers(g: int) -> Seq<Seq<char>> {
    if g == 0 {
        seq![".tsx"@, ".jsx"@, ".css"@, ".scss"@, ".html"@, ".vue"@]
    } else if g == 1 {
        seq![".rs"@, ".go"@, ".js"@, ".py"@, ".rb"@, ".php"@, ".java"@]
    } else if g == 2 {
        seq!["test."@, "spec."@, "/tests/"@, "/test/"@]
    } else if g == 3 {
        seq![".toml"@, ".json"@, ".yaml"@, ".yml"@, ".config."@]
    } else if g == 4 {
        seq![".md"@, ".txt"@, "README"@, "LICENSE"@, "CHANGELOG"@]
    } else {
        Seq::empty()
    }
}

/// The name of group `g`.
pub open spec fn group_name_spec(g: int) -> Seq<char> {
    if g == 0 {
        "Frontend"@
    } else if g == 1 {
        "Backend"@
    } else if g == 2 {
        "Tests"@
    } else if g == 3 {
        "Config"@
    } else if g == 4 {
        "Docs"@
    } else {
        "Other"@
    }
}

/// Some marker of `markers` occurs in `file`.
pub open spec fn any_marker(file: Seq<char>, markers: Seq<Seq<char>>) -> bool {
    exists|k: int| 0 <= k < markers.len() && contains_spec(file, #[trigger] markers[k])
}

/// The group of `file`: the first whose markers occur in it, else the
/// catch-all.
pub open spec fn group_of(file: Seq<char>) -> int {
    if any_marker(file, group_markers(0)) {
        0
    } else if any_marker(file, group_markers(1)) {
        1
    } else if any_marker(file, group_markers(2)) {
        2
    } else if any_marker(file, group_markers(3)) {
        3
    } else if any_marker(file, group_markers(4)) {
        4
    } else {
        5
    }
}

/// The files of `files` that fall into group `g`, in their order.
pub open spec fn files_of_group(files: Seq<Seq<char>>, g: int) -> Seq<Seq<char>>
    decreases files.len(),
{
    if files.len() == 0 {
        Seq::empty()
    } else {
        let rest = files_of_group(files.drop_last(), g);
        if group_of(files.last()) == g {
            rest.push(files.last())
        } else {
            rest
        }
    }
}

/// `parts` with `sep` between each two.
pub open spec fn join_spec(parts: Seq<Seq<char>>, sep: Seq<char>) -> Seq<char>
    decreases parts.len(),
{
    if parts.len() == 0 {
        Seq::empty()
    } else if parts.len() == 1 {
        parts[0]
    } else {
        join_spec(parts.drop_last(), sep) + sep + parts.last()
    }
}

/// The line that lists group `g` of `files`; nothing where the group is empty.
pub open spec fn group_line_spec(files: Seq<Seq<char>>, g: int) -> Seq<char> {
    let members = files_of_group(files, g);
    if members.len() == 0 {
        Seq::empty()
    } else {
        "- "@ + group_name_spec(g) + ": "@ + join_spec(members, ", "@) + "\n"@
    }
}

/// The lines of the first `n` groups of `files`.
pub open spec fn grouped_spec(files: Seq<Seq<char>>, n: int) -> Seq<char>
    decreases n,
{
    if n <= 0 {
        Seq::empty()
    } else {
        grouped_spec(files, n - 1) + group_line_spec(files, n - 1)
    }
}

/// Whether some marker of `markers` occurs in `file`.
fn has_marker(file: &str, markers: &[&str]) -> (r: bool)
    ensures
        r == any_marker(file@, markers@.map_values(|m: &str| m@)),
{
    let ghost ms = markers@.map_values(|m: &str| m@);
    let mut k: usize = 0;
    while k < markers.len()
        invariant
            k <= markers@.len(),
            ms == markers@.map_values(|m: &str| m@),
            forall|j: int| 0 <= j < k ==> !contains_spec(file@, #[trigger] ms[j]),
        decreases markers@.len() - k,
    {
        if contains_text(file, markers[k]) {
            assert(contains_spec(file@, ms[k as int]));
            return true;
        }
        k = k + 1;
    }
    false
}

/// The group of `file`.
pub fn file_group(file: &str) -> (r: usize)
    ensures
        r == group_of(file@),
        r < GROUP_COUNT,
{
    let frontend = [".tsx", ".jsx", ".css", ".scss", ".html", ".vue"];
    let backend = [".rs", ".go", ".js", ".py", ".rb", ".php", ".java"];
    let tests = ["test.", "spec.", "/tests/", "/test/"];
    let config = [".toml", ".json", ".yaml", ".yml", ".config."];
    let docs = [".md", ".txt", "README", "LICENSE", "CHANGELOG"];
    assert(frontend@.map_values(|m: &str| m@) =~= group_markers(0));
    assert(backend@.map_values(|m: &str| m@) =~= group_markers(1));
    assert(tests@.map_values(|m: &str| m@) =~= group_markers(2));
    assert(config@.map_values(|m: &str| m@) =~= group_markers(3));
    assert(docs@.map_values(|m: &str| m@) =~= group_markers(4));
    if has_marker(file, &frontend) {
        0
    } else if has_marker(file, &backend) {
        1
    } else if has_marker(file, &tests) {
        2
    } else if has_marker(file, &config) {
        3
    } else if has_marker(file, &docs) {
        4
    } else {
        5
    }
}

/// The name of group `g`.
fn group_name(g: usize) -> (r: &'static str)
    ensures
        r@ == group_name_spec(g as int),
{
    if g == 0 {
        "Frontend"
    } else if g == 1 {
        "Backend"
    } else if g == 2 {
        "Tests"
    } else if g == 3 {
        "Config"
    } else if g == 4 {
        "Docs"
    } else {
        "Other"
    }
}

/// `parts` with `sep` between each two.
pub fn join_texts(parts: &Vec<String>, sep: &str) -> (r: String)
    ensures
        r@ == join_spec(views(parts@), sep@),
{
    let mut r = String::new();
    let mut i: usize = 0;
    while i < parts.len()
        invariant
            i <= parts@.len(),
            r@ == join_spec(views(parts@).subrange(0, i as int), sep@),
        decreases parts@.len() - i,
    {
        let ghost prefix = views(parts@).subrange(0, i + 1);
        assert(prefix.drop_last() =~= views(parts@).subrange(0, i as int));
        if i > 0 {
            r.append(sep);
        }
        r.append(parts[i].as_str());
        i = i + 1;
    }
    assert(views(parts@).subrange(0, parts@.len() as int) =~= views(parts@));
    r
}

/// The files of group `g`, in their order.
fn files_in_group(files: &Vec<String>, g: usize) -> (r: Vec<String>)
    ensures
        views(r@) == files_of_group(views(files@), g as int),
{
    let mut r: Vec<String> = Vec::new();
    let mut i: usize = 0;
    while i < files.len()
        invariant
            i <= files@.len(),
            views(r@) == files_of_group(views(files@).subrange(0, i as int), g as int),
        decreases files@.len() - i,
    {
        let ghost prefix = views(files@).subrange(0, i + 1);
        assert(prefix.drop_last() =~= views(files@).subrange(0, i as int));
        if file_group(files[i].as_str()) == g {
            let ghost before = r@;
            r.push(files[i].clone());
            assert(views(r@) =~= views(before).push(files@[i as int]@));
        }
        i = i + 1;
    }
    assert(views(files@).subrange(0, files@.len() as int) =~= views(files@));
    r
}

/// The changed files sorted into groups by kind: one line for each group that
/// has files, `- <group>: <file>, <file>`, in the order Frontend, Backend,
/// Tests, Config, Docs, Other. A file joins the first group one of whose
/// markers occurs in its path.
pub fn group_files_by_type(modified_files: Vec<String>) -> (r: String)
    ensures
        r@ == grouped_spec(views(modified_files@), GROUP_COUNT as int),
{
    let mut result = String::new();
    let mut g: usize = 0;
    while g < GROUP_COUNT
        invariant
            g <= GROUP_COUNT,
            result@ == grouped_spec(views(modified_files@), g as int),
        decreases GROUP_COUNT - g,
    {
        let members = files_in_group(&modified_files, g);
        if members.len() > 0 {
            let line = concat_text("- ", group_name(g));
            let line = concat_text(line.as_str(), ": ");
            let line = concat_text(line.as_str(), join_texts(&members, ", ").as_str());
            let line = concat_text(line.as_str(), "\n");
            result.append(line.as_str());
        } else {
            assert(result@ =~= result@ + group_line_spec(views(modified_files@), g as int));
        }
        g = g + 1;
    }
    result
}

/// One `- <commit>` line for each commit.
pub open spec fn commit_lines_spec(commits: Seq<Seq<char>>) -> Seq<char>
    decreases commits.len(),
{
    if commits.len() == 0 {
        Seq::empty()
    } else {
        commit_lines_spec(commits.drop_last()) + "- "@ + commits.last() + "\n"@
    }
}

/// The recent commits as a list, or a note that there are none.
pub fn format_recent_commits(commits: Vec<String>) -> (r: String)
    ensures
        commits@.len() == 0 ==> r@ == "No recent commits found."@,
        commits@.len() > 0 ==> r@ == commit_lines_spec(views(commits@)),
{
    if commits.len() == 0 {
        return "No recent commits found.".to_owned();
    }
    let mut result = String::new();
    let mut i: usize = 0;
    while i < commits.len()
        invariant
            i <= commits@.len(),
            result@ == commit_lines_spec(views(commits@).subrange(0, i as int)),
        decreases commits@.len() - i,
    {
        let ghost prefix = views(commits@).subrange(0, i + 1);
        assert(prefix.drop_last() =~= views(commits@).subrange(0, i as int));
        result.append("- ");
        result.append(commits[i].as_str());
        result.append("\n");
        i = i + 1;
    }
    assert(views(commits@).subrange(0, commits@.len() as int) =~= views(commits@));
    result
}

/// The instructions of the analysis call.
pub const ANALYSIS_SYSTEM_PROMPT: &'static str = "You are an expert code analyst. Analyze git diffs and provide concise summaries of changes. Focus on identifying new functions, modified functions, tests, dependencies, and overall purpose. Format responses as bullet points. Be brief and specific.";

/// What the analysis call's user prompt says before the diff.
pub const ANALYSIS_REQUEST: &'static str = "Analyze the following git diff and provide a concise summary of the changes. Focus on identifying: 1. New functions/methods added 2. Functions/methods modified 3. Tests added or modified 4. Dependencies changed 5. Overall purpose of the changes Format your response as bullet points, one for each category. Be brief and specific. Git diff: ";

/// The user prompt of the analysis call: the request, then the diff and a
/// line feed.
pub fn analysis_user_prompt(diff: &str) -> (r: String)
    ensures
        r@ == ANALYSIS_REQUEST@ + diff@ + "\n"@,
{
    let mut r = concat_text(ANALYSIS_REQUEST, diff);
    r.append("\n");
    r
}

/// The request of the call that summarizes `diff`: new and changed
/// functions, tests, dependencies and purpose.
pub fn analyze_changes_with_ai(client: &Client, diff: &str) -> (r: HttpRequest)
    ensures
        client_request_is(*client, r, ANALYSIS_SYSTEM_PROMPT@, ANALYSIS_REQUEST@ + diff@ + "\n"@),
{
    client.generate_request(ANALYSIS_SYSTEM_PROMPT.to_owned(), analysis_user_prompt(diff))
}

} // verus!
