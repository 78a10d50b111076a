use gor::cmd::finder::{add_qualifier, code_result_lines, commit_result_lines, issue_result_lines, repo_result_lines,
    web_message};
use gor::cmd::scoped::{done_message, file_value, resolve_secret_scope, resolve_variable_scope, scoped_table_lines,
    value_from, ValueFrom};
use gor::cmd::store::Store;
use gor::cmd::workflow::{short_table_lines, summary_lines, switched_message};
use gor::json::{Json, JsonNumber};
use gor::repository::RepoSplit;
use gor::secret::SecretScope;
use gor::variable::VariableScope;

fn conv(v: &serde_json::Value) -> Json {
    match v {
        serde_json::Value::Null => Json::Null,
        serde_json::Value::Bool(b) => Json::Bool(*b),
        serde_json::Value::Number(n) => Json::Number(JsonNumber { text: n.to_string(), as_u64: n.as_u64() }),
        serde_json::Value::String(s) => Json::String(s.clone()),
        serde_json::Value::Array(a) => Json::Array(a.iter().map(conv).collect()),
        serde_json::Value::Object(m) => Json::Object(m.iter().map(|(k, v)| (k.clone(), conv(v))).collect()),
    }
}

fn items(text: &str) -> Vec<Json> {
    match conv(&serde_json::from_str::<serde_json::Value>(text).expect("valid JSON")) {
        Json::Array(v) => v,
        _ => panic!("not an array"),
    }
}

fn strings(v: &[&str]) -> Vec<String> {
    v.iter().map(|s| s.to_string()).collect()
}

fn some(s: &str) -> Option<String> {
    Some(s.to_string())
}

const DASH: &str = "\u{2014}";

#[test]
fn finder_query_and_web_line() {
    let mut q = "cli tool".to_string();
    add_qualifier(&mut q, "language", &some("rust"));
    add_qualifier(&mut q, "topic", &None);
    add_qualifier(&mut q, "stars", &some(">100"));
    assert_eq!(q, "cli tool+language:rust+stars:>100");
    assert_eq!(web_message("https://github.com/search?q=", &q),
        "Open https://github.com/search?q=cli tool%20language:rust%20stars:>100 in your browser");
}

#[test]
fn finder_result_tables() {
    let repos = repo_result_lines(&items(r#"[{"full_name":"octo/cli","stargazers_count":1200,"updated_at":"2024-03-05T00:00:00Z",
        "description":"A tool"},{"full_name":null}]"#));
    assert_eq!(repos, vec![
        format!("{:<40}  {:<10}  {:<10}  DESCRIPTION", "NAME", "STARS", "UPDATED"),
        format!("{:<40}  {:<10}  {:<10}  {}", "octo/cli", "1200", "Mar 5, 2024", "A tool"),
        format!("{:<40}  {:<10}  {:<10}  {}", DASH, "0", "", DASH),
    ]);
    assert_eq!(repo_result_lines(&vec![]), strings(&["No repositories found."]));
    assert_eq!(code_result_lines(&items(r#"[{"path":"src/main.rs","repository":{"full_name":"octo/cli"}},{}]"#)),
        vec!["octo/cli src/main.rs".to_string(), format!("{DASH} {DASH}")]);
    let issues = issue_result_lines(&items(r#"[{"repository_url":"https://api.github.com/repos/octo/cli","number":7,
        "state":"open","title":"Crash"},{"repository_url":"nourl"}]"#));
    assert_eq!(issues, vec![
        format!("{:<40}  {:<15}  TITLE", "ISSUE", "STATE"),
        format!("octo/#{:<8}  {:<15}  {}", "7", "open", "Crash"),
        format!("{DASH}/#{:<8}  {:<15}  {}", "0", DASH, DASH),
    ]);
    assert_eq!(issue_result_lines(&vec![]), strings(&["No issues found."]));
    let commits = commit_result_lines(&items(r#"[{"sha":"0123456789abcdef","commit":{"message":"Fix the parser",
        "author":{"name":"Ann","date":"2024-01-15T10:30:00Z"}}},{"sha":"abc"}]"#));
    assert_eq!(commits, vec![
        format!("0123456 {:<20} {:<10} {}", "Ann", "Jan 15, 2024", "Fix the parser"),
        format!("abc {:<20} {:<10} {}", DASH, "", DASH),
    ]);
}

#[test]
fn scoped_resolution_tables_and_messages() {
    let detected = Some(RepoSplit { owner: "o".to_string(), repo: "r".to_string() });
    assert!(matches!(resolve_secret_scope(&some("acme"), &some("prod"), &detected), Ok(SecretScope::Org(o)) if o == "acme"));
    assert!(matches!(resolve_secret_scope(&None, &some("prod"), &detected),
        Ok(SecretScope::Environment { env, .. }) if env == "prod"));
    assert!(matches!(resolve_variable_scope(&None, &None, &detected), Ok(VariableScope::Repo(s)) if s.repo == "r"));
    assert!(matches!(resolve_variable_scope(&None, &some("prod"), &None),
        Err(m) if m == "could not detect repository; specify --repo or run from a repo directory"));
    assert!(matches!(resolve_secret_scope(&None, &None, &None),
        Err(m) if m == "could not detect repository; specify --org or run from a repo directory"));
    assert_eq!(scoped_table_lines(Store::Secrets, &items(r#"[{"name":"TOKEN","updated_at":"2024-01-01"}]"#)), vec![
        format!("{:<30}  UPDATED", "NAME"),
        format!("{:<30}  {}", "TOKEN", "2024-01-01"),
    ]);
    assert_eq!(scoped_table_lines(Store::Variables, &items(r#"[{"name":"V","value":"1"}]"#)), vec![
        format!("{:<30}  {:<40}  UPDATED", "NAME", "VALUE"),
        format!("{:<30}  {:<40}  {}", "V", "1", DASH),
    ]);
    assert_eq!(scoped_table_lines(Store::Variables, &vec![]), strings(&["No variables found."]));
    assert!(matches!(value_from(Store::Secrets, &some("x"), &some("f")), Ok(ValueFrom::Given(v)) if v == "x"));
    assert!(matches!(value_from(Store::Secrets, &None, &some("f")), Ok(ValueFrom::File(v)) if v == "f"));
    assert!(matches!(value_from(Store::Variables, &None, &None),
        Err(m) if m == "no variable value provided (use --body or --file)"));
    assert_eq!(file_value("  v1\n"), "v1");
    assert_eq!(done_message(Store::Secrets, "TOKEN", false), "Secret 'TOKEN' set.");
    assert_eq!(done_message(Store::Variables, "V", true), "Variable 'V' deleted.");
}

#[test]
fn workflow_short_forms() {
    assert_eq!(short_table_lines(&items(r#"[{"id":5,"name":"CI","state":"active"}]"#)), vec![
        format!("{:<8}  {:<30}  STATE", "ID", "NAME"),
        format!("{:<8}  {:<30}  {}", "5", "CI", "active"),
    ]);
    assert_eq!(summary_lines(&conv(&serde_json::from_str(r#"{"name":"CI","path":".github/workflows/ci.yml"}"#).expect("json"))),
        vec!["  Name: CI".to_string(), format!("  State: {DASH}"), "  Path: .github/workflows/ci.yml".to_string()]);
    assert_eq!(switched_message("ci.yml", true), "Workflow 'ci.yml' enabled.");
    assert_eq!(switched_message("ci.yml", false), "Workflow 'ci.yml' disabled.");
}
