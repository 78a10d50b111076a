use gor::cache::{DeleteOptions, delete_outcome, delete_path, list_path};
use gor::cli::CacheCommand;
use gor::cmd::cache::run;
use gor::cmd::flow::{Event, Step};
use gor::error::GorError;
use gor::json::{Json, JsonNumber};
use gor::repository::RepoSplit;
use gor::request::{ApiResponse, Method};

fn conv(v: &serde_json::Value) -> Json {
    match v {
        serde_json::Value::Null => Json::Null,
        serde_json::Value::Bool(b) => Json::Bool(*b),
        serde_json::Value::Number(n) => Json::Number(JsonNumber { text: n.to_string(), as_u64: n.as_u64() }),
        serde_json::Value::String(s) => Json::String(s.clone()),
        serde_json::Value::Array(a) => Json::Array(a.iter().map(conv).collect()),
        serde_json::Value::Object(m) => Json::Object(m.iter().map(|(k, v)| (k.clone(), conv(v))).collect()),
    }
}

fn resp(status: u16, text: &str, body: Option<&str>) -> ApiResponse {
    ApiResponse {
        status,
        status_text: text.to_string(),
        body: body.map(|b| conv(&serde_json::from_str::<serde_json::Value>(b).expect("valid JSON"))),
    }
}

fn spec() -> RepoSplit {
    RepoSplit { owner: "octo".to_string(), repo: "hello".to_string() }
}

#[test]
fn cache_list_path() {
    assert_eq!(list_path(&spec()), "/repos/octo/hello/actions/caches?per_page=100");
}

#[test]
fn cache_delete_path_by_key_prefix_and_ref() {
    let by_key = DeleteOptions { key: Some("npm-abc"), key_prefix: Some("npm-"), ref_: None };
    assert_eq!(delete_path(&spec(), &by_key), "/repos/octo/hello/actions/caches?key=npm-abc");
    let by_prefix = DeleteOptions { key: None, key_prefix: Some("npm-"), ref_: Some("refs/heads/main") };
    assert_eq!(delete_path(&spec(), &by_prefix), "/repos/octo/hello/actions/caches?key=npm-&ref=refs/heads/main");
    let by_ref = DeleteOptions { key: None, key_prefix: None, ref_: Some("refs/heads/main") };
    assert_eq!(delete_path(&spec(), &by_ref), "/repos/octo/hello/actions/caches?ref=refs/heads/main");
    assert_eq!(delete_path(&spec(), &DeleteOptions::default()), "/repos/octo/hello/actions/caches");
}

#[test]
fn cache_delete_outcome_reports_the_count_or_the_error() {
    assert_eq!(delete_outcome(&resp(200, "200 OK", Some(r#"{"total_count":3}"#))).ok(), Some(3));
    assert_eq!(delete_outcome(&resp(200, "200 OK", Some("{}"))).ok(), Some(0));
    match delete_outcome(&resp(404, "404 Not Found", None)) {
        Err(GorError::InvalidInput(m)) => assert_eq!(m, "failed to delete caches: HTTP 404 Not Found"),
        other => panic!("unexpected {:?}", other),
    }
    match delete_outcome(&resp(200, "200 OK", None)) {
        Err(e) => assert_eq!(e.message(), "HTTP request failed: error decoding response body"),
        other => panic!("unexpected {:?}", other),
    }
}

#[test]
fn cache_run_lists_the_caches() {
    let cmd = CacheCommand::List { repo: Some("octo/hello".to_string()), json: None, hostname: None };
    match run(&cmd, &None, Event::Start) {
        Step::Send(req) => {
            assert!(matches!(req.method, Method::Get));
            assert_eq!(req.path, "/repos/octo/hello/actions/caches?per_page=100");
        },
        other => panic!("unexpected {:?}", other),
    }
    let body = r#"{"actions_caches":[{"key":"npm-linux","size_in_bytes":5242880,"created_at":"2024-01-15T10:30:00Z"},{"size_in_bytes":100}]}"#;
    match run(&cmd, &None, Event::Reply(resp(200, "200 OK", Some(body)))) {
        Step::Print(lines) => {
            assert_eq!(lines[0], format!("{:<30}  {:<10}  CREATED", "KEY", "SIZE (MB)"));
            assert_eq!(lines[1], format!("{:<30}  {:<10}  {}", "npm-linux", 5, "2024-01-15T10:30:00Z"));
            assert_eq!(lines[2], format!("{:<30}  {:<10}  {}", "\u{2014}", 0, "\u{2014}"));
        },
        other => panic!("unexpected {:?}", other),
    }
}

#[test]
fn cache_run_needs_a_repository() {
    let undetected = CacheCommand::List { repo: None, json: None, hostname: None };
    assert!(matches!(run(&undetected, &None, Event::Start),
        Step::Fail(m) if m == "could not detect repository; specify OWNER/REPO with --repo"));
    let bad = CacheCommand::List { repo: Some("not-a-spec".to_string()), json: None, hostname: None };
    assert!(matches!(run(&bad, &None, Event::Start), Step::Fail(m) if m == "invalid repository spec"));
    let detected = Some(RepoSplit { owner: "a".to_string(), repo: "b".to_string() });
    assert!(matches!(run(&undetected, &detected, Event::Start),
        Step::Send(r) if r.path == "/repos/a/b/actions/caches?per_page=100"));
}

#[test]
fn cache_run_empty_and_failures() {
    let cmd = CacheCommand::List { repo: Some("o/r".to_string()), json: None, hostname: None };
    assert!(matches!(run(&cmd, &None, Event::Reply(resp(200, "200 OK", Some("{}")))),
        Step::Print(l) if l == vec!["No caches found.".to_string()]));
    assert!(matches!(run(&cmd, &None, Event::Reply(resp(403, "403 Forbidden", None))),
        Step::Fail(m) if m == "failed to list caches: HTTP 403 Forbidden"));
    assert!(matches!(run(&cmd, &None, Event::Reply(resp(200, "200 OK", None))),
        Step::Fail(m) if m == "failed to parse response"));
}
