use gor::cli::RunCommand;
use gor::cmd::flow::{Event, Step};
use gor::cmd::runs::{run, runs_path, runs_table_lines};
use gor::json::{Json, JsonNumber};
use gor::repository::{origin_url, parse_repo_spec, remote_repo, resolve_repo, RepoSplit};
use gor::request::{ApiResponse, Method};

fn conv(v: &serde_json::Value) -> Json {
    match v {
        serde_json::Value::Null => Json::Null,
        serde_json::Value::Bool(b) => Json::Bool(*b),
        serde_json::Value::Number(n) => Json::Number(JsonNumber { text: n.to_string(), as_u64: n.as_u64() }),
        serde_json::Value::String(s) => Json::String(s.clone()),
        serde_json::Value::Array(a) => Json::Array(a.iter().map(conv).collect()),
        serde_json::Value::Object(m) => Json::Object(m.iter().map(|(k, v)| (k.clone(), conv(v))).collect()),
    }
}

fn back(v: &Json) -> serde_json::Value {
    match v {
        Json::Null => serde_json::Value::Null,
        Json::Bool(b) => serde_json::Value::Bool(*b),
        Json::Number(n) => serde_json::from_str(&n.text).expect("number"),
        Json::String(s) => serde_json::Value::String(s.clone()),
        Json::Array(a) => serde_json::Value::Array(a.iter().map(back).collect()),
        Json::Object(e) => serde_json::Value::Object(e.iter().map(|(k, v)| (k.clone(), back(v))).collect()),
    }
}

fn j(text: &str) -> Json {
    conv(&serde_json::from_str::<serde_json::Value>(text).expect("valid JSON"))
}

fn items(text: &str) -> Vec<Json> {
    match j(text) {
        Json::Array(v) => v,
        _ => panic!("not an array"),
    }
}

fn reply(status: u16, text: &str, body: Option<&str>) -> ApiResponse {
    ApiResponse { status, status_text: text.to_string(), body: body.map(j) }
}

fn strings(v: &[&str]) -> Vec<String> {
    v.iter().map(|s| s.to_string()).collect()
}

fn spec() -> RepoSplit {
    RepoSplit { owner: "octo".to_string(), repo: "hello".to_string() }
}

const DASH: &str = "\u{2014}";

fn list(repo: Option<&str>, json: Option<Vec<String>>) -> RunCommand {
    RunCommand::List { workflow: Some("ci.yml".to_string()), branch: None, repo: repo.map(|r| r.to_string()), limit: 1,
        json, hostname: None }
}

#[test]
fn repo_specs_are_two_nonempty_parts() {
    let p = parse_repo_spec("octo/hello").expect("valid");
    assert_eq!((p.owner.as_str(), p.repo.as_str()), ("octo", "hello"));
    assert!(parse_repo_spec("octo").is_none());
    assert!(parse_repo_spec("octo/").is_none());
    assert!(parse_repo_spec("/hello").is_none());
    assert!(parse_repo_spec("a/b/c").is_none());
    let named = resolve_repo(&Some("a/b".to_string()), &Some(spec()), "none").expect("named");
    assert_eq!(named.owner, "a");
    let detected = resolve_repo(&None, &Some(spec()), "none").expect("detected");
    assert_eq!(detected.repo, "hello");
    assert_eq!(resolve_repo(&None, &None, "no repository here").err(), Some("no repository here".to_string()));
    assert_eq!(resolve_repo(&Some("bad".to_string()), &Some(spec()), "x").err(), Some("invalid repository spec".to_string()));
}

#[test]
fn runs_paths_and_table() {
    assert_eq!(runs_path(&spec(), &None, &None, 20), "/repos/octo/hello/actions/runs?per_page=20");
    assert_eq!(runs_path(&spec(), &Some("ci.yml".to_string()), &Some("main".to_string()), 1000),
        "/repos/octo/hello/actions/runs?per_page=100&workflow=ci.yml&branch=main");
    let rows = items(r#"[{"id":42,"status":"completed","conclusion":"success","head_branch":"main","event":"push"},{}]"#);
    assert_eq!(runs_table_lines(&rows), vec![
        format!("{:<8}  {:<10}  {:<12}  {:<20}  EVENT", "RUN ID", "STATUS", "CONCLUSION", "BRANCH"),
        format!("{:<8}  {:<10}  {:<12}  {:<20}  push", "42", "completed", "success", "main"),
        format!("{:<8}  {:<10}  {:<12}  {:<20}  {}", "0", DASH, DASH, DASH, DASH),
    ]);
    assert_eq!(runs_table_lines(&vec![]), strings(&["No workflow runs found."]));
}

#[test]
fn runs_command_steps() {
    match run(&list(None, None), &Some(spec()), Event::Start) {
        Step::Send(req) => {
            assert!(matches!(req.method, Method::Get));
            assert_eq!(req.path, "/repos/octo/hello/actions/runs?per_page=1&workflow=ci.yml");
        },
        other => panic!("unexpected {:?}", other),
    }
    match run(&list(Some("acme/site"), None), &None, Event::Start) {
        Step::Send(req) => assert_eq!(req.path, "/repos/acme/site/actions/runs?per_page=1&workflow=ci.yml"),
        other => panic!("unexpected {:?}", other),
    }
    match run(&list(None, None), &None, Event::Start) {
        Step::Fail(m) => assert_eq!(m, "could not detect repository; specify OWNER/REPO with --repo"),
        other => panic!("unexpected {:?}", other),
    }
    let body = r#"{"workflow_runs":[{"id":1,"status":"queued"},{"id":2}]}"#;
    match run(&list(None, None), &None, Event::Reply(reply(200, "200 OK", Some(body)))) {
        Step::Print(lines) => {
            assert_eq!(lines.len(), 2);
            assert!(lines[1].starts_with("1 "));
        },
        other => panic!("unexpected {:?}", other),
    }
    match run(&list(None, Some(vec![])), &None, Event::Reply(reply(200, "200 OK", Some(body)))) {
        Step::PrintJson(v) => assert_eq!(back(&v), serde_json::from_str::<serde_json::Value>(r#"[{"id":1,"status":"queued"}]"#).unwrap()),
        other => panic!("unexpected {:?}", other),
    }
    match run(&list(None, None), &None, Event::Reply(reply(404, "404 Not Found", None))) {
        Step::Fail(m) => assert_eq!(m, "failed to list runs: HTTP 404 Not Found"),
        other => panic!("unexpected {:?}", other),
    }
    match run(&list(None, None), &None, Event::Reply(reply(200, "200 OK", None))) {
        Step::Fail(m) => assert_eq!(m, "failed to parse response"),
        other => panic!("unexpected {:?}", other),
    }
    match run(&list(None, None), &None, Event::FileText("x".to_string())) {
        Step::Fail(m) => assert_eq!(m, "unexpected event"),
        other => panic!("unexpected {:?}", other),
    }
}

fn pair(r: Option<RepoSplit>) -> Option<(String, String)> {
    r.map(|s| (s.owner, s.repo))
}

#[test]
fn remote_urls_name_the_repository() {
    let octo = Some(("octo".to_string(), "hello".to_string()));
    assert_eq!(pair(remote_repo("https://github.com/octo/hello.git")), octo);
    assert_eq!(pair(remote_repo("https://github.com/octo/hello")), octo);
    assert_eq!(pair(remote_repo("git@github.com:octo/hello.git")), octo);
    assert_eq!(pair(remote_repo("ssh://git@ghe.example.com:2222/octo/hello.git")), octo);
    assert_eq!(pair(remote_repo("hello")), None);
    assert_eq!(pair(remote_repo("https://github.com/octo/")), None);
}

#[test]
fn git_config_gives_the_origin_url() {
    let text = "[core]\n\tbare = false\n[remote \"upstream\"]\n\turl = https://github.com/up/stream.git\n\
                [remote \"origin\"]\r\n\tfetch = +refs/heads/*:refs/remotes/origin/*\r\n\turl = git@github.com:octo/hello.git\r\n";
    assert_eq!(origin_url(text), Some("git@github.com:octo/hello.git".to_string()));
    assert_eq!(origin_url("[core]\n\turl = x\n"), None);
    assert_eq!(origin_url(""), None);
}
