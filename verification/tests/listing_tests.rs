use gor::cmd::issue::{issue_table_lines, issue_view_lines};
use gor::cmd::pr::pr_table_lines;
use gor::cmd::repo::{filter_repos, repo_table_lines, repo_view_lines, RepoFilters};
use gor::json::{Json, JsonNumber};

fn conv(v: &serde_json::Value) -> Json {
    match v {
        serde_json::Value::Null => Json::Null,
        serde_json::Value::Bool(b) => Json::Bool(*b),
        serde_json::Value::Number(n) => Json::Number(JsonNumber { text: n.to_string(), as_u64: n.as_u64() }),
        serde_json::Value::String(s) => Json::String(s.clone()),
        serde_json::Value::Array(a) => Json::Array(a.iter().map(conv).collect()),
        serde_json::Value::Object(m) => Json::Object(m.iter().map(|(k, v)| (k.clone(), conv(v))).collect()),
    }
}

fn j(text: &str) -> Json {
    conv(&serde_json::from_str::<serde_json::Value>(text).expect("valid JSON"))
}

fn items(text: &str) -> Vec<Json> {
    match j(text) {
        Json::Array(v) => v,
        _ => panic!("not an array"),
    }
}

fn strings(v: &[&str]) -> Vec<String> {
    v.iter().map(|s| s.to_string()).collect()
}

/// The cut that the tables make: at most `max` characters, then an ellipsis.
fn cut(s: &str, max: usize) -> String {
    if s.chars().count() <= max {
        s.to_string()
    } else {
        let mut t: String = s.chars().take(max).collect();
        t.push('\u{2026}');
        t
    }
}

const DASH: &str = "\u{2014}";

fn issue_line(number: &str, title: &str, author: &str, labels: &str, state: &str) -> String {
    format!("{:>8}  {:<50}  {:<14}  {:<14}  {:<8}", number, cut(title, 50), cut(author, 14), cut(labels, 14), state)
}

fn issue_header() -> String {
    format!("{:>8}  {:<50}  {:<14}  {:<14}  {:<8}", "NUMBER", "TITLE", "AUTHOR", "LABELS", "STATE")
}

#[test]
fn print_issue_table_basic() {
    let lines = issue_table_lines(&items(r#"[{"number":42,"title":"Fix authentication bug in login flow","state":"open",
        "user":{"login":"octocat"},"labels":[{"name":"bug"},{"name":"security"}]}]"#));
    assert_eq!(lines, vec![
        issue_header(),
        issue_line("42", "Fix authentication bug in login flow", "octocat", "bug, security", "open"),
    ]);
}

#[test]
fn print_issue_table_closed() {
    let lines = issue_table_lines(&items(r#"[{"number":100,"title":"Add new feature","state":"closed",
        "user":{"login":"dev-user"},"labels":[]}]"#));
    assert_eq!(lines, vec![issue_header(), issue_line("100", "Add new feature", "dev-user", DASH, "closed")]);
}

#[test]
fn print_issue_table_empty() {
    assert_eq!(issue_table_lines(&vec![]), strings(&["No issues found."]));
}

#[test]
fn print_issue_table_multiple() {
    let long = "Second issue with a very long title that should be truncated in the table output";
    let lines = issue_table_lines(&items(&format!(r#"[
        {{"number":1,"title":"First issue","state":"open","user":{{"login":"alice"}},"labels":[{{"name":"enhancement"}}]}},
        {{"number":2,"title":"{long}","state":"closed","user":{{"login":"bob"}},"labels":[{{"name":"bug"}},{{"name":"docs"}}]}}]"#)));
    assert_eq!(lines, vec![
        issue_header(),
        issue_line("1", "First issue", "alice", "enhancement", "open"),
        issue_line("2", long, "bob", "bug, docs", "closed"),
    ]);
    assert!(lines[2].contains("Second issue with a very long title that should be\u{2026}"));
}

#[test]
fn print_issue_table_null_fields() {
    let lines = issue_table_lines(&items(r#"[{"number":99,"title":null,"state":null,"user":null,"labels":null}]"#));
    assert_eq!(lines, vec![issue_header(), issue_line("99", DASH, DASH, DASH, DASH)]);
}

fn rule(n: usize) -> String {
    "\u{2500}".repeat(n)
}

#[test]
fn print_issue_view_basic() {
    let issue = j(r#"{"number":42,"title":"Fix authentication bug","state":"open","user":{"login":"octocat"},
        "created_at":"2024-01-15T10:30:00Z","updated_at":"2024-01-16T12:00:00Z",
        "body":"This issue describes an authentication bug.","labels":[{"name":"bug"},{"name":"security"}],
        "assignees":[{"login":"alice"}],"milestone":{"title":"v1.0"}}"#);
    let lines = issue_view_lines(&issue, &vec![]);
    assert_eq!(lines, vec![
        "Fix authentication bug".to_string(),
        rule(22),
        String::new(),
        "State:   open".to_string(),
        "Author:  octocat".to_string(),
        "Created: Jan 15, 2024".to_string(),
        "Updated: Jan 16, 2024".to_string(),
        "Labels:  bug, security".to_string(),
        "Assignees: alice".to_string(),
        "Milestone: v1.0".to_string(),
        String::new(),
        "This issue describes an authentication bug.".to_string(),
        String::new(),
    ]);
}

#[test]
fn print_issue_view_closed() {
    let issue = j(r#"{"number":100,"title":"Add new feature","state":"closed","user":{"login":"dev-user"},
        "created_at":"2024-01-10T08:00:00Z","updated_at":"2024-01-15T10:30:00Z","body":"This adds a new feature.",
        "labels":[],"assignees":[],"milestone":null}"#);
    let lines = issue_view_lines(&issue, &vec![]);
    assert_eq!(lines, vec![
        "Add new feature".to_string(),
        rule(15),
        String::new(),
        "State:   closed".to_string(),
        "Author:  dev-user".to_string(),
        "Created: Jan 10, 2024".to_string(),
        "Updated: Jan 15, 2024".to_string(),
        String::new(),
        "This adds a new feature.".to_string(),
        String::new(),
    ]);
}

#[test]
fn print_issue_view_with_comments() {
    let issue = j(r#"{"number":42,"title":"Fix bug","state":"open","user":{"login":"octocat"},
        "created_at":"2024-01-15T10:30:00Z","updated_at":"2024-01-16T12:00:00Z","body":"Fixes a bug.",
        "labels":[],"assignees":[],"milestone":null}"#);
    let comments = items(r#"[
        {"user":{"login":"reviewer1"},"created_at":"2024-01-16T14:00:00Z","body":"Looks good to me!"},
        {"user":{"login":"octocat"},"created_at":"2024-01-16T15:00:00Z","body":"Thanks for the review!"}]"#);
    let lines = issue_view_lines(&issue, &comments);
    assert_eq!(lines, vec![
        "Fix bug".to_string(),
        rule(7),
        String::new(),
        "State:   open".to_string(),
        "Author:  octocat".to_string(),
        "Created: Jan 15, 2024".to_string(),
        "Updated: Jan 16, 2024".to_string(),
        String::new(),
        "Fixes a bug.".to_string(),
        String::new(),
        "\u{2500}\u{2500} Comments \u{2500}\u{2500}".to_string(),
        String::new(),
        "reviewer1 commented on Jan 16, 2024".to_string(),
        String::new(),
        "Looks good to me!".to_string(),
        String::new(),
        "octocat commented on Jan 16, 2024".to_string(),
        String::new(),
        "Thanks for the review!".to_string(),
        String::new(),
    ]);
}

#[test]
fn print_issue_view_null_fields() {
    let issue = j(r#"{"number":99,"title":null,"state":null,"user":null,"created_at":null,"updated_at":null,
        "body":null,"labels":null,"assignees":null,"milestone":null}"#);
    let lines = issue_view_lines(&issue, &vec![]);
    assert_eq!(lines, vec![
        "(no title)".to_string(),
        rule(10),
        String::new(),
        "State:   unknown".to_string(),
        "Author:  unknown".to_string(),
        format!("Created: {DASH}"),
        format!("Updated: {DASH}"),
        String::new(),
    ]);
}

#[test]
fn print_issue_view_with_assignees() {
    let issue = j(r#"{"number":50,"title":"Multiple assignees","state":"open","user":{"login":"owner"},
        "created_at":"2024-02-01T10:00:00Z","updated_at":"2024-02-02T10:00:00Z",
        "body":"This issue has multiple assignees.","labels":[],
        "assignees":[{"login":"alice"},{"login":"bob"},{"login":"carol"}],"milestone":null}"#);
    let lines = issue_view_lines(&issue, &vec![]);
    assert_eq!(lines[7], "Assignees: alice, bob, carol");
    assert_eq!(lines[5], "Created: Feb 1, 2024");
    assert_eq!(lines.len(), 11);
}

#[test]
fn print_issue_view_with_milestone() {
    let issue = j(r#"{"number":60,"title":"Milestone issue","state":"open","user":{"login":"planner"},
        "created_at":"2024-03-01T10:00:00Z","updated_at":"2024-03-02T10:00:00Z",
        "body":"This issue is part of a milestone.","labels":[{"name":"enhancement"}],"assignees":[],
        "milestone":{"title":"v2.0"}}"#);
    let lines = issue_view_lines(&issue, &vec![]);
    assert_eq!(lines[7], "Labels:  enhancement");
    assert_eq!(lines[8], "Milestone: v2.0");
    assert_eq!(lines[10], "This issue is part of a milestone.");
}

fn pr_header() -> String {
    format!("{:>8}  {:<50}  {:<14}  {:<14}  {:<14}  {:<8}", "NUMBER", "TITLE", "AUTHOR", "HEAD BRANCH", "LABELS", "STATE")
}

fn pr_line(number: &str, title: &str, author: &str, branch: &str, labels: &str, state: &str) -> String {
    format!("{:>8}  {:<50}  {:<14}  {:<14}  {:<14}  {:<8}", number, cut(title, 50), cut(author, 14), cut(branch, 14),
        cut(labels, 14), state)
}

#[test]
fn print_pr_table_basic() {
    let lines = pr_table_lines(&items(r#"[{"number":42,"title":"Fix authentication bug in login flow","state":"open",
        "merged_at":null,"user":{"login":"octocat"},"head":{"ref":"fix-auth"},"labels":[{"name":"bug"},{"name":"security"}]}]"#));
    assert_eq!(lines, vec![
        pr_header(),
        pr_line("42", "Fix authentication bug in login flow", "octocat", "fix-auth", "bug, security", "open"),
    ]);
}

#[test]
fn print_pr_table_merged() {
    let lines = pr_table_lines(&items(r#"[{"number":100,"title":"Add new feature","state":"closed",
        "merged_at":"2024-01-15T10:30:00Z","user":{"login":"dev-user"},"head":{"ref":"feature-branch"},"labels":[]}]"#));
    assert_eq!(lines, vec![pr_header(), pr_line("100", "Add new feature", "dev-user", "feature-branch", DASH, "merged")]);
}

#[test]
fn print_pr_table_empty() {
    assert_eq!(pr_table_lines(&vec![]), strings(&["No pull requests found."]));
}

#[test]
fn print_pr_table_multiple() {
    let long = "Second PR with a very long title that should be truncated in the table output";
    let lines = pr_table_lines(&items(&format!(r#"[
        {{"number":1,"title":"First PR","state":"open","merged_at":null,"user":{{"login":"alice"}},
          "head":{{"ref":"feature-a"}},"labels":[{{"name":"enhancement"}}]}},
        {{"number":2,"title":"{long}","state":"open","merged_at":null,"user":{{"login":"bob"}},
          "head":{{"ref":"feature-b"}},"labels":[{{"name":"bug"}},{{"name":"docs"}}]}}]"#)));
    assert_eq!(lines, vec![
        pr_header(),
        pr_line("1", "First PR", "alice", "feature-a", "enhancement", "open"),
        pr_line("2", long, "bob", "feature-b", "bug, docs", "open"),
    ]);
}

#[test]
fn print_pr_table_null_fields() {
    let lines = pr_table_lines(&items(r#"[{"number":99,"title":null,"state":null,"merged_at":null,"user":null,
        "head":null,"labels":null}]"#));
    assert_eq!(lines, vec![pr_header(), pr_line("99", DASH, DASH, DASH, DASH, DASH)]);
}

fn repo_view(name: &str, desc: &str, url: &str, vis: &str, stars: &str, forks: &str, issues: &str, lang: &str,
    license: &str, branch: &str, updated: &str) -> Vec<String> {
    vec![
        format!("name:        {name}"),
        format!("description: {desc}"),
        format!("url:         {url}"),
        format!("visibility:  {vis}"),
        format!("stars:       {stars}"),
        format!("forks:       {forks}"),
        format!("issues:      {issues}"),
        format!("language:    {lang}"),
        format!("license:     {license}"),
        format!("default:     {branch}"),
        format!("updated:     {updated}"),
    ]
}

#[test]
fn print_repo_table_basic() {
    let repo = j(r#"{"full_name":"octocat/hello-world","description":"My first repository",
        "html_url":"https://github.com/octocat/hello-world","private":false,"stargazers_count":1234,"forks_count":56,
        "open_issues_count":12,"language":"Rust","license":{"spdx_id":"MIT"},"default_branch":"main",
        "pushed_at":"2024-01-15T10:30:00Z"}"#);
    assert_eq!(repo_view_lines(&repo), repo_view("octocat/hello-world", "My first repository",
        "https://github.com/octocat/hello-world", "public", "1,234", "56", "12", "Rust", "MIT", "main", "Jan 15, 2024"));
}

#[test]
fn print_repo_table_private() {
    let repo = j(r#"{"full_name":"org/private-repo","description":null,"html_url":"https://github.com/org/private-repo",
        "private":true,"stargazers_count":0,"forks_count":0,"open_issues_count":0,"language":null,"license":null,
        "default_branch":"main","pushed_at":"2024-01-15T10:30:00Z"}"#);
    assert_eq!(repo_view_lines(&repo), repo_view("org/private-repo", DASH, "https://github.com/org/private-repo",
        "private", "0", "0", "0", DASH, DASH, "main", "Jan 15, 2024"));
}

#[test]
fn print_repo_table_no_license() {
    let repo = j(r#"{"full_name":"user/test","description":"A test repo","html_url":"https://github.com/user/test",
        "private":false,"stargazers_count":42,"forks_count":7,"open_issues_count":3,"language":"Python","license":null,
        "default_branch":"master","pushed_at":"2023-12-25T00:00:00Z"}"#);
    assert_eq!(repo_view_lines(&repo), repo_view("user/test", "A test repo", "https://github.com/user/test",
        "public", "42", "7", "3", "Python", DASH, "master", "Dec 25, 2023"));
}

fn repo_header() -> String {
    format!("{:<30}  {:<50}  {:<10}  {:<14}  {:<16}", "NAME", "DESCRIPTION", "VISIBILITY", "LANGUAGE", "UPDATED")
}

fn repo_line(name: &str, desc: &str, vis: &str, lang: &str, updated: &str) -> String {
    format!("{:<30}  {:<50}  {:<10}  {:<14}  {:<16}", cut(name, 30), cut(desc, 50), vis, lang, updated)
}

#[test]
fn print_repo_list_table_basic() {
    let lines = repo_table_lines(&items(r#"[{"full_name":"octocat/hello-world","description":"My first repository",
        "private":false,"language":"Rust","updated_at":"2024-01-15T10:30:00Z"}]"#));
    assert_eq!(lines, vec![repo_header(), repo_line("octocat/hello-world", "My first repository", "public", "Rust", "Jan 15, 2024")]);
}

#[test]
fn print_repo_list_table_empty() {
    assert_eq!(repo_table_lines(&vec![]), strings(&["No repositories found."]));
}

#[test]
fn print_repo_list_table_multiple() {
    let long = "A secret project with a very long description that should be truncated";
    let lines = repo_table_lines(&items(&format!(r#"[
        {{"full_name":"alice/project-a","description":"First project","private":false,"language":"Rust",
          "updated_at":"2024-01-15T10:30:00Z"}},
        {{"full_name":"bob/private-repo","description":"{long}","private":true,"language":"Python",
          "updated_at":"2024-02-20T12:00:00Z"}}]"#)));
    assert_eq!(lines, vec![
        repo_header(),
        repo_line("alice/project-a", "First project", "public", "Rust", "Jan 15, 2024"),
        repo_line("bob/private-repo", long, "private", "Python", "Feb 20, 2024"),
    ]);
}

#[test]
fn print_repo_list_table_null_fields() {
    let lines = repo_table_lines(&items(r#"[{"full_name":"test/repo","description":null,"private":false,
        "language":null,"updated_at":null}]"#));
    assert_eq!(lines, vec![repo_header(), repo_line("test/repo", DASH, "public", DASH, DASH)]);
}

fn repo_filters(visibility: &str, fork: &str, language: Option<&str>, limit: u32) -> RepoFilters {
    RepoFilters { visibility: visibility.to_string(), fork: fork.to_string(), language: language.map(|s| s.to_string()), limit }
}

fn names(rs: &[Json]) -> Vec<String> {
    rs.iter().map(|r| r.str_member("full_name").unwrap_or("").to_string()).collect()
}

#[test]
fn filter_repos_by_visibility() {
    let repos = items(r#"[{"full_name":"a/public","private":false,"fork":false,"language":"Rust"},
        {"full_name":"b/private","private":true,"fork":false,"language":"Rust"}]"#);
    let filtered = filter_repos(repos, &repo_filters("public", "include", None, 30));
    assert_eq!(filtered.len(), 1);
    assert_eq!(names(&filtered), strings(&["a/public"]));
}

#[test]
fn filter_repos_by_fork_exclude() {
    let repos = items(r#"[{"full_name":"a/original","private":false,"fork":false,"language":"Rust"},
        {"full_name":"b/forked","private":false,"fork":true,"language":"Rust"}]"#);
    let filtered = filter_repos(repos, &repo_filters("all", "exclude", None, 30));
    assert_eq!(filtered.len(), 1);
    assert_eq!(names(&filtered), strings(&["a/original"]));
}

#[test]
fn filter_repos_by_fork_only() {
    let repos = items(r#"[{"full_name":"a/original","private":false,"fork":false,"language":"Rust"},
        {"full_name":"b/forked","private":false,"fork":true,"language":"Rust"}]"#);
    let filtered = filter_repos(repos, &repo_filters("all", "only", None, 30));
    assert_eq!(filtered.len(), 1);
    assert_eq!(names(&filtered), strings(&["b/forked"]));
}

#[test]
fn filter_repos_by_language() {
    let repos = items(r#"[{"full_name":"a/rust-repo","private":false,"fork":false,"language":"Rust"},
        {"full_name":"b/python-repo","private":false,"fork":false,"language":"Python"}]"#);
    let filtered = filter_repos(repos, &repo_filters("all", "include", Some("Rust"), 30));
    assert_eq!(filtered.len(), 1);
    assert_eq!(names(&filtered), strings(&["a/rust-repo"]));
    let lower = items(r#"[{"full_name":"a/rust-repo","language":"Rust"}]"#);
    assert_eq!(filter_repos(lower, &repo_filters("all", "include", Some("rUST"), 30)).len(), 1);
}

#[test]
fn filter_repos_by_limit() {
    let repos: Vec<Json> = (0..10)
        .map(|i| j(&format!(r#"{{"full_name":"owner/repo{i}","private":false,"fork":false,"language":"Rust"}}"#)))
        .collect();
    let filtered = filter_repos(repos, &repo_filters("all", "include", None, 5));
    assert_eq!(filtered.len(), 5);
    assert_eq!(names(&filtered), strings(&["owner/repo0", "owner/repo1", "owner/repo2", "owner/repo3", "owner/repo4"]));
}
