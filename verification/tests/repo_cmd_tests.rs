use gor::cmd::flow::Step;
use gor::cmd::repo::{list_path, list_result, output_repos, owner_result, user_repos_path, view_result, RepoFilters};
use gor::json::{Json, JsonNumber};
use gor::repository::RepoSplit;
use gor::request::ApiResponse;

fn conv(v: &serde_json::Value) -> Json {
    match v {
        serde_json::Value::Null => Json::Null,
        serde_json::Value::Bool(b) => Json::Bool(*b),
        serde_json::Value::Number(n) => Json::Number(JsonNumber { text: n.to_string(), as_u64: n.as_u64() }),
        serde_json::Value::String(s) => Json::String(s.clone()),
        serde_json::Value::Array(a) => Json::Array(a.iter().map(conv).collect()),
        serde_json::Value::Object(m) => Json::Object(m.iter().map(|(k, v)| (k.clone(), conv(v))).collect()),
    }
}

fn back(v: &Json) -> serde_json::Value {
    match v {
        Json::Null => serde_json::Value::Null,
        Json::Bool(b) => serde_json::Value::Bool(*b),
        Json::Number(n) => serde_json::from_str(&n.text).expect("number"),
        Json::String(s) => serde_json::Value::String(s.clone()),
        Json::Array(a) => serde_json::Value::Array(a.iter().map(back).collect()),
        Json::Object(e) => serde_json::Value::Object(e.iter().map(|(k, v)| (k.clone(), back(v))).collect()),
    }
}

fn j(text: &str) -> Json {
    conv(&serde_json::from_str::<serde_json::Value>(text).expect("valid JSON"))
}

fn items(text: &str) -> Vec<Json> {
    match j(text) {
        Json::Array(v) => v,
        _ => panic!("not an array"),
    }
}

fn reply(status: u16, text: &str, body: Option<&str>) -> ApiResponse {
    ApiResponse { status, status_text: text.to_string(), body: body.map(j) }
}

fn strings(v: &[&str]) -> Vec<String> {
    v.iter().map(|s| s.to_string()).collect()
}

fn spec() -> RepoSplit {
    RepoSplit { owner: "octo".to_string(), repo: "hello".to_string() }
}

fn filters(visibility: &str, fork: &str, limit: u32) -> RepoFilters {
    RepoFilters { visibility: visibility.to_string(), fork: fork.to_string(), language: None, limit }
}

fn full_names(v: &Json) -> Vec<String> {
    match back(v) {
        serde_json::Value::Array(a) => a.iter().map(|r| r["full_name"].as_str().unwrap_or("").to_string()).collect(),
        _ => panic!("not an array"),
    }
}

const REPOS: &str = r#"[
    {"full_name":"o/a","private":false,"fork":false,"language":"Rust"},
    {"full_name":"o/b","private":true,"fork":false,"language":"Go"},
    {"full_name":"o/c","private":false,"fork":true,"language":"rust"}]"#;

#[test]
fn repo_list_paths() {
    assert_eq!(list_path("/user/repos", &filters("all", "include", 30)), "/user/repos?per_page=30&type=all&sort=updated");
    assert_eq!(list_path("/orgs/acme/repos", &filters("private", "include", 300)),
        "/orgs/acme/repos?per_page=100&type=all&visibility=private&sort=updated");
    assert_eq!(user_repos_path("octocat"), "/users/octocat/repos");
}

#[test]
fn repo_output_filters_and_limits() {
    let json = Some(vec![]);
    let shown = |f: RepoFilters| match output_repos(items(REPOS), &f, &json) {
        Step::PrintJson(v) => full_names(&v),
        other => panic!("unexpected {:?}", other),
    };
    assert_eq!(shown(filters("all", "include", 30)), strings(&["o/a", "o/b", "o/c"]));
    assert_eq!(shown(filters("public", "include", 30)), strings(&["o/a", "o/c"]));
    assert_eq!(shown(filters("private", "include", 30)), strings(&["o/b"]));
    assert_eq!(shown(filters("all", "exclude", 30)), strings(&["o/a", "o/b"]));
    assert_eq!(shown(filters("all", "only", 30)), strings(&["o/c"]));
    assert_eq!(shown(filters("all", "include", 2)), strings(&["o/a", "o/b"]));
    let mut rust = filters("all", "include", 30);
    rust.language = Some("RUST".to_string());
    assert_eq!(shown(rust), strings(&["o/a", "o/c"]));
    match output_repos(vec![], &filters("all", "include", 30), &None) {
        Step::Print(lines) => assert_eq!(lines, strings(&["No repositories found."])),
        other => panic!("unexpected {:?}", other),
    }
}

#[test]
fn repo_owner_reply_falls_back_to_the_organization() {
    match owner_result("acme", &filters("all", "include", 30), &None, reply(404, "404 Not Found", None)) {
        Ok(p) => assert_eq!(p, "/orgs/acme/repos"),
        Err(s) => panic!("unexpected {:?}", s),
    }
    match owner_result("acme", &filters("all", "include", 30), &None, reply(500, "500 Internal Server Error", None)) {
        Err(Step::Fail(m)) => assert_eq!(m, "failed to fetch repositories for 'acme': HTTP 500 Internal Server Error"),
        other => panic!("unexpected {:?}", other),
    }
    match owner_result("acme", &filters("all", "include", 30), &None, reply(200, "200 OK", Some("{}"))) {
        Err(Step::Fail(m)) => assert_eq!(m, "failed to parse repository response"),
        other => panic!("unexpected {:?}", other),
    }
    match owner_result("acme", &filters("all", "include", 30), &Some(vec![]), reply(200, "200 OK", Some(REPOS))) {
        Err(Step::PrintJson(v)) => assert_eq!(full_names(&v), strings(&["o/a", "o/b", "o/c"])),
        other => panic!("unexpected {:?}", other),
    }
}

#[test]
fn repo_list_result_failures() {
    let f = filters("all", "include", 30);
    let cases = [
        (Some("acme".to_string()), 404, "404 Not Found", "user or organization 'acme' not found"),
        (None, 404, "404 Not Found", "could not fetch repositories"),
        (None, 401, "401 Unauthorized", "authentication required to list repositories"),
        (None, 403, "403 Forbidden", "authentication required to list repositories"),
        (None, 502, "502 Bad Gateway", "failed to list repositories: HTTP 502 Bad Gateway"),
    ];
    for (owner, status, text, message) in cases {
        match list_result(&owner, &f, &None, reply(status, text, None)) {
            Step::Fail(m) => assert_eq!(m, message),
            other => panic!("unexpected {:?}", other),
        }
    }
    match list_result(&None, &f, &None, reply(200, "200 OK", None)) {
        Step::Fail(m) => assert_eq!(m, "failed to parse repository response"),
        other => panic!("unexpected {:?}", other),
    }
    match list_result(&None, &f, &Some(vec![]), reply(200, "200 OK", Some(REPOS))) {
        Step::PrintJson(v) => assert_eq!(full_names(&v).len(), 3),
        other => panic!("unexpected {:?}", other),
    }
}

#[test]
fn repo_view_result_outcomes() {
    match view_result(&spec(), reply(200, "200 OK", Some(r#"{"full_name":"octo/hello"}"#))) {
        Ok(v) => assert_eq!(back(&v)["full_name"], "octo/hello"),
        Err(e) => panic!("unexpected {}", e),
    }
    assert_eq!(view_result(&spec(), reply(404, "404 Not Found", None)).err(), Some("repository 'octo/hello' not found".to_string()));
    assert_eq!(view_result(&spec(), reply(401, "401 Unauthorized", None)).err(),
        Some("authentication required to view repository 'octo/hello'".to_string()));
    assert_eq!(view_result(&spec(), reply(500, "500 Internal Server Error", None)).err(),
        Some("failed to fetch repository 'octo/hello': HTTP 500 Internal Server Error".to_string()));
    assert_eq!(view_result(&spec(), reply(200, "200 OK", None)).err(), Some("failed to parse repository response".to_string()));
}
