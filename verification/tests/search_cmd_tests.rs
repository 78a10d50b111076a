use gor::cmd::flow::{Event, Step};
use gor::cmd::search::{build_query, can_print, path_of, results_lines, run, urlencoding, web_url, SearchCommand};
use gor::json::{Json, JsonNumber};
use gor::request::{ApiResponse, Method, RequestBody};

fn conv(v: &serde_json::Value) -> Json {
    match v {
        serde_json::Value::Null => Json::Null,
        serde_json::Value::Bool(b) => Json::Bool(*b),
        serde_json::Value::Number(n) => Json::Number(JsonNumber { text: n.to_string(), as_u64: n.as_u64() }),
        serde_json::Value::String(s) => Json::String(s.clone()),
        serde_json::Value::Array(a) => Json::Array(a.iter().map(conv).collect()),
        serde_json::Value::Object(m) => Json::Object(m.iter().map(|(k, v)| (k.clone(), conv(v))).collect()),
    }
}

fn back(v: &Json) -> serde_json::Value {
    match v {
        Json::Null => serde_json::Value::Null,
        Json::Bool(b) => serde_json::Value::Bool(*b),
        Json::Number(n) => serde_json::from_str(&n.text).expect("number"),
        Json::String(s) => serde_json::Value::String(s.clone()),
        Json::Array(a) => serde_json::Value::Array(a.iter().map(back).collect()),
        Json::Object(e) => serde_json::Value::Object(e.iter().map(|(k, v)| (k.clone(), back(v))).collect()),
    }
}

fn j(text: &str) -> Json {
    conv(&serde_json::from_str::<serde_json::Value>(text).expect("valid JSON"))
}

fn items(text: &str) -> Vec<Json> {
    match j(text) {
        Json::Array(v) => v,
        _ => panic!("not an array"),
    }
}

fn reply(status: u16, text: &str, body: Option<&str>) -> ApiResponse {
    ApiResponse { status, status_text: text.to_string(), body: body.map(j) }
}

fn strings(v: &[&str]) -> Vec<String> {
    v.iter().map(|s| s.to_string()).collect()
}

const DASH: &str = "\u{2014}";

fn repos(query: &[&str]) -> SearchCommand {
    SearchCommand::Repos { query: strings(query), language: Some("rust".to_string()), topic: None,
        stars: Some(">100".to_string()), sort: "stars".to_string(), order: "desc".to_string(), limit: 30, json: None,
        web: false, hostname: None }
}

fn code(query: &[&str]) -> SearchCommand {
    SearchCommand::Code { query: strings(query), language: None, repo: Some("octo/hello".to_string()), limit: 500,
        json: None, web: false, hostname: None }
}

fn issues(query: &[&str]) -> SearchCommand {
    SearchCommand::Issues { query: strings(query), kind: Some("pr".to_string()), state: Some("open".to_string()),
        labels: Some("bug".to_string()), limit: 10, json: None, web: false, hostname: None }
}

fn commits(query: &[&str]) -> SearchCommand {
    SearchCommand::Commits { query: strings(query), author: Some("octocat".to_string()), repo: None, limit: 5,
        json: None, web: false, hostname: None }
}

#[test]
fn search_queries_and_paths() {
    assert_eq!(urlencoding("a b#c&d?e"), "a+b%23c%26d%3Fe");
    assert_eq!(build_query(&repos(&["cli", "tool"])), "cli tool language:rust stars:>100");
    assert_eq!(build_query(&code(&["fn main"])), "fn main repo:octo/hello");
    assert_eq!(build_query(&issues(&["crash"])), "crash type:pr state:open label:bug");
    assert_eq!(build_query(&commits(&["fix"])), "fix author:octocat");
    assert_eq!(path_of(&repos(&["cli", "tool"])),
        "/search/repositories?q=cli+tool+language:rust+stars:>100&sort=stars&order=desc&per_page=30");
    assert_eq!(path_of(&code(&["fn main"])), "/search/code?q=fn+main+repo:octo/hello&per_page=100");
    assert_eq!(path_of(&issues(&["crash"])), "/search/issues?q=crash+type:pr+state:open+label:bug&per_page=10");
    assert_eq!(path_of(&commits(&["fix"])), "/search/commits?q=fix+author:octocat&per_page=5");
    assert_eq!(web_url(&repos(&["cli", "tool"])), "https://github.com/search?q=cli+tool&type=repositories");
    let on_host = SearchCommand::Code { query: strings(&["x"]), language: None, repo: None, limit: 1, json: None,
        web: true, hostname: Some("ghe.example.com".to_string()) };
    assert_eq!(web_url(&on_host), "https://ghe.example.com/search?q=x&type=code");
}

#[test]
fn search_result_lines_per_kind() {
    let repo_items = items(r#"[{"full_name":"octo/cli","description":"A tool","stargazers_count":12345,"language":"Rust",
        "updated_at":"2024-01-15T10:30:00Z"}]"#);
    assert_eq!(results_lines(&repos(&["cli"]), &repo_items), vec![
        format!("{:<40}  {:<50}  {:<8}  {:<12}  {:<16}", "NAME", "DESCRIPTION", "STARS", "LANGUAGE", "UPDATED"),
        format!("{:<40}  {:<50}  {:<8}  {:<12}  {:<16}", "octo/cli", "A tool", "12,345", "Rust", "Jan 15, 2024"),
    ]);
    let code_items = items(r#"[{"repository":{"full_name":"octo/hello"},"path":"src/main.rs","html_url":"https://x/1"},{}]"#);
    assert_eq!(results_lines(&code(&["main"]), &code_items), vec![
        "octo/hello/src/main.rs".to_string(), "  https://x/1".to_string(),
        format!("{}/{}", DASH, DASH), format!("  {}", DASH),
    ]);
    let issue_items = items(r#"[{"number":7,"state":"open","title":"Crash","html_url":"https://x/7"}]"#);
    assert_eq!(results_lines(&issues(&["crash"]), &issue_items), strings(&["#7 [open] Crash", "  https://x/7"]));
    let commit_items = items(r#"[{"sha":"0123456789abcdef","commit":{"message":"Fix bug\r\n\nDetails"},
        "author":{"login":"octocat"},"html_url":"https://x/c"}]"#);
    assert!(can_print(&commits(&["fix"]), &commit_items));
    assert_eq!(results_lines(&commits(&["fix"]), &commit_items),
        vec!["0123456 Fix bug".to_string(), format!("  octocat {} https://x/c", DASH)]);
    let bad_sha = items(r#"[{"sha":"012345\u00e9x"}]"#);
    assert!(!can_print(&commits(&["fix"]), &bad_sha));
    assert!(can_print(&code(&["fix"]), &bad_sha));
}

#[test]
fn search_run_steps() {
    match run(&repos(&["cli"]), Event::Start) {
        Some(Step::Send(req)) => {
            assert!(matches!(req.method, Method::Get));
            assert!(matches!(req.body, RequestBody::Empty));
            assert_eq!(req.path, "/search/repositories?q=cli+language:rust+stars:>100&sort=stars&order=desc&per_page=30");
        },
        other => panic!("unexpected {:?}", other),
    }
    let web = SearchCommand::Issues { query: strings(&["x"]), kind: None, state: None, labels: None, limit: 1, json: None,
        web: true, hostname: None };
    match run(&web, Event::Start) {
        Some(Step::Open(u)) => assert_eq!(u, "https://github.com/search?q=x&type=issues"),
        other => panic!("unexpected {:?}", other),
    }
    match run(&issues(&["x"]), Event::Reply(reply(422, "422 Unprocessable Entity", None))) {
        Some(Step::Fail(m)) => assert_eq!(m, "search failed: HTTP 422 Unprocessable Entity"),
        other => panic!("unexpected {:?}", other),
    }
    match run(&issues(&["x"]), Event::Reply(reply(200, "200 OK", None))) {
        Some(Step::Fail(m)) => assert_eq!(m, "failed to parse search response"),
        other => panic!("unexpected {:?}", other),
    }
    let nothing = [(repos(&["x"]), "No repositories found."), (code(&["x"]), "No code results found."),
        (issues(&["x"]), "No issues found."), (commits(&["x"]), "No commits found.")];
    for (cmd, line) in nothing {
        match run(&cmd, Event::Reply(reply(200, "200 OK", Some(r#"{"items":[]}"#)))) {
            Some(Step::Print(lines)) => assert_eq!(lines, strings(&[line])),
            other => panic!("unexpected {:?}", other),
        }
    }
    match run(&issues(&["x"]), Event::Reply(reply(200, "200 OK", Some(r#"{"items":[{"number":1,"state":"closed","title":"T","html_url":"u"}]}"#)))) {
        Some(Step::Print(lines)) => assert_eq!(lines, strings(&["#1 [closed] T", "  u"])),
        other => panic!("unexpected {:?}", other),
    }
    let as_json = SearchCommand::Code { query: strings(&["x"]), language: None, repo: None, limit: 1,
        json: Some(vec![]), web: false, hostname: None };
    match run(&as_json, Event::Reply(reply(200, "200 OK", Some(r#"{"items":[{"path":"a"}]}"#)))) {
        Some(Step::PrintJson(v)) => assert_eq!(back(&v), serde_json::from_str::<serde_json::Value>(r#"[{"path":"a"}]"#).unwrap()),
        other => panic!("unexpected {:?}", other),
    }
    match run(&code(&["x"]), Event::FileText(String::new())) {
        Some(Step::Fail(m)) => assert_eq!(m, "unexpected event"),
        other => panic!("unexpected {:?}", other),
    }
}
