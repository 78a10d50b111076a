use gor::cmd::flow::Step;
use gor::cmd::workflow::{action_path, dispatch_ref, list_path, list_result, recent_runs, runs_path, short_table_lines,
    summary_lines, switch_result, switched_message, trigger_result, view_path, view_result, workflow_view_lines};
use gor::json::{Json, JsonNumber};
use gor::repository::RepoSplit;
use gor::request::ApiResponse;

fn conv(v: &serde_json::Value) -> Json {
    match v {
        serde_json::Value::Null => Json::Null,
        serde_json::Value::Bool(b) => Json::Bool(*b),
        serde_json::Value::Number(n) => Json::Number(JsonNumber { text: n.to_string(), as_u64: n.as_u64() }),
        serde_json::Value::String(s) => Json::String(s.clone()),
        serde_json::Value::Array(a) => Json::Array(a.iter().map(conv).collect()),
        serde_json::Value::Object(m) => Json::Object(m.iter().map(|(k, v)| (k.clone(), conv(v))).collect()),
    }
}

fn back(v: &Json) -> serde_json::Value {
    match v {
        Json::Null => serde_json::Value::Null,
        Json::Bool(b) => serde_json::Value::Bool(*b),
        Json::Number(n) => serde_json::from_str(&n.text).expect("number"),
        Json::String(s) => serde_json::Value::String(s.clone()),
        Json::Array(a) => serde_json::Value::Array(a.iter().map(back).collect()),
        Json::Object(e) => serde_json::Value::Object(e.iter().map(|(k, v)| (k.clone(), back(v))).collect()),
    }
}

fn j(text: &str) -> Json {
    conv(&serde_json::from_str::<serde_json::Value>(text).expect("valid JSON"))
}

fn items(text: &str) -> Vec<Json> {
    match j(text) {
        Json::Array(v) => v,
        _ => panic!("not an array"),
    }
}

fn reply(status: u16, text: &str, body: Option<&str>) -> ApiResponse {
    ApiResponse { status, status_text: text.to_string(), body: body.map(j) }
}

fn strings(v: &[&str]) -> Vec<String> {
    v.iter().map(|s| s.to_string()).collect()
}

fn spec() -> RepoSplit {
    RepoSplit { owner: "octo".to_string(), repo: "hello".to_string() }
}

const DASH: &str = "\u{2014}";

#[test]
fn workflow_paths() {
    assert_eq!(list_path(&spec(), 30), "/repos/octo/hello/actions/workflows?per_page=30");
    assert_eq!(list_path(&spec(), 250), "/repos/octo/hello/actions/workflows?per_page=100");
    assert_eq!(view_path(&spec(), "161335"), "/repos/octo/hello/actions/workflows/161335");
    assert_eq!(view_path(&spec(), "ci.yml"), "/repos/octo/hello/actions/workflows/ci.yml");
    assert_eq!(view_path(&spec(), ".github/ci.yml"), "/repos/octo/hello/actions/workflows/.github%2Fci.yml");
    assert_eq!(runs_path(&spec(), "161335"), "/repos/octo/hello/actions/workflows/161335/runs?per_page=5");
    assert_eq!(action_path(&spec(), "ci.yml", "enable"), "/repos/octo/hello/actions/workflows/ci.yml/enable");
    assert_eq!(action_path(&spec(), "ci.yml", "dispatches"), "/repos/octo/hello/actions/workflows/ci.yml/dispatches");
}

#[test]
fn workflow_list_result_prints_the_first_workflows() {
    let body = r#"{"total_count":2,"workflows":[{"id":1,"name":"CI","state":"active"},
        {"id":2,"name":"Release","state":"disabled_manually"}]}"#;
    match list_result(&spec(), 1, &None, reply(200, "200 OK", Some(body))) {
        Step::Print(lines) => assert_eq!(lines, vec![
            format!("{:<8}  {:<40}  {:<12}", "ID", "NAME", "STATE"),
            format!("{:<8}  {:<40}  {:<12}", "1", "CI", "active"),
        ]),
        other => panic!("unexpected {:?}", other),
    }
    match list_result(&spec(), 10, &Some(vec![]), reply(200, "200 OK", Some(body))) {
        Step::PrintJson(v) => assert_eq!(back(&v), serde_json::from_str::<serde_json::Value>(
            r#"[{"id":1,"name":"CI","state":"active"},{"id":2,"name":"Release","state":"disabled_manually"}]"#).unwrap()),
        other => panic!("unexpected {:?}", other),
    }
    match list_result(&spec(), 10, &None, reply(200, "200 OK", Some("{}"))) {
        Step::Print(lines) => assert_eq!(lines, strings(&["No workflows found."])),
        other => panic!("unexpected {:?}", other),
    }
}

#[test]
fn workflow_list_result_failures() {
    match list_result(&spec(), 10, &None, reply(404, "404 Not Found", None)) {
        Step::Fail(m) => assert_eq!(m, "repository 'octo/hello' not found"),
        other => panic!("unexpected {:?}", other),
    }
    match list_result(&spec(), 10, &None, reply(500, "500 Internal Server Error", None)) {
        Step::Fail(m) => assert_eq!(m, "failed to list workflows for 'octo/hello': HTTP 500 Internal Server Error"),
        other => panic!("unexpected {:?}", other),
    }
    match list_result(&spec(), 10, &None, reply(200, "200 OK", None)) {
        Step::Fail(m) => assert_eq!(m, "failed to parse workflows response"),
        other => panic!("unexpected {:?}", other),
    }
}

#[test]
fn workflow_view_result_outcomes() {
    match view_result("ci.yml", &spec(), reply(200, "200 OK", Some(r#"{"id":7}"#))) {
        Ok(v) => assert_eq!(back(&v), serde_json::from_str::<serde_json::Value>(r#"{"id":7}"#).unwrap()),
        Err(e) => panic!("unexpected {}", e),
    }
    assert_eq!(view_result("ci.yml", &spec(), reply(404, "404 Not Found", None)).err(),
        Some("workflow 'ci.yml' not found in repository 'octo/hello'".to_string()));
    assert_eq!(view_result("ci.yml", &spec(), reply(403, "403 Forbidden", None)).err(),
        Some("failed to view workflow: HTTP 403 Forbidden".to_string()));
    assert_eq!(view_result("ci.yml", &spec(), reply(200, "200 OK", None)).err(),
        Some("failed to parse workflow response".to_string()));
}

#[test]
fn workflow_recent_runs_only_from_a_successful_reply() {
    let body = r#"{"workflow_runs":[{"id":1},{"id":2}]}"#;
    assert_eq!(recent_runs(Some(reply(200, "200 OK", Some(body)))).len(), 2);
    assert_eq!(recent_runs(Some(reply(500, "500 Internal Server Error", Some(body)))).len(), 0);
    assert_eq!(recent_runs(Some(reply(200, "200 OK", Some("{}")))).len(), 0);
    assert_eq!(recent_runs(Some(reply(200, "200 OK", None))).len(), 0);
    assert_eq!(recent_runs(None).len(), 0);
}

#[test]
fn workflow_view_lines_with_events_and_runs() {
    let w = j(r#"{"name":"CI","state":"active","path":".github/workflows/ci.yml"}"#);
    let runs = items(r#"[{"id":99,"status":"completed","conclusion":"success","head_branch":"main",
        "created_at":"2024-01-15T10:30:00Z"},{"id":100}]"#);
    let lines = workflow_view_lines(&w, &strings(&["push", "pull_request"]), &runs);
    assert_eq!(lines, vec![
        "  Name: CI".to_string(),
        "  State: active".to_string(),
        "  Path: .github/workflows/ci.yml".to_string(),
        "  Events:".to_string(),
        "    - push".to_string(),
        "    - pull_request".to_string(),
        "  Recent runs:".to_string(),
        format!("    {:<8}  {:<10}  {:<12}  {:<20}  {:<16}", "RUN ID", "STATUS", "CONCLUSION", "BRANCH", "TIMESTAMP"),
        format!("    {:<8}  {:<10}  {:<12}  {:<20}  {:<16}", "99", "completed", "success", "main", "Jan 15, 2024"),
        format!("    {:<8}  {:<10}  {:<12}  {:<20}  {:<16}", "100", DASH, DASH, DASH, DASH),
    ]);
    let bare = workflow_view_lines(&j("{}"), &vec![], &vec![]);
    assert_eq!(bare, vec![format!("  Name: {}", DASH), format!("  State: {}", DASH), format!("  Path: {}", DASH)]);
    assert_eq!(summary_lines(&w), vec![
        "  Name: CI".to_string(),
        "  State: active".to_string(),
        "  Path: .github/workflows/ci.yml".to_string(),
    ]);
}

#[test]
fn workflow_enable_disable_and_run_messages() {
    assert_eq!(switch_result("ci.yml", true, 204, "204 No Content"), Ok("Workflow 'ci.yml' is now enabled.".to_string()));
    assert_eq!(switch_result("ci.yml", false, 204, "204 No Content"), Ok("Workflow 'ci.yml' is now disabled.".to_string()));
    assert_eq!(switch_result("ci.yml", true, 404, "404 Not Found"),
        Err("failed to enable workflow 'ci.yml': HTTP 404 Not Found".to_string()));
    assert_eq!(switch_result("ci.yml", false, 403, "403 Forbidden"),
        Err("failed to disable workflow 'ci.yml': HTTP 403 Forbidden".to_string()));
    assert_eq!(trigger_result("ci.yml", 204, "204 No Content"), Ok("Workflow run triggered for 'ci.yml'.".to_string()));
    assert_eq!(trigger_result("ci.yml", 422, "422 Unprocessable Entity"),
        Err("failed to trigger workflow run: HTTP 422 Unprocessable Entity".to_string()));
    assert_eq!(dispatch_ref(&None), "main");
    assert_eq!(dispatch_ref(&Some("dev".to_string())), "dev");
    assert_eq!(switched_message("ci.yml", true), "Workflow 'ci.yml' enabled.");
    assert_eq!(switched_message("ci.yml", false), "Workflow 'ci.yml' disabled.");
}

#[test]
fn workflow_short_table() {
    let long = "N".repeat(35);
    let ws = items(&format!(r#"[{{"id":5,"name":"{}","state":"active"}},{{}}]"#, long));
    let mut cut: String = long.chars().take(30).collect();
    cut.push('\u{2026}');
    assert_eq!(short_table_lines(&ws), vec![
        format!("{:<8}  {:<30}  STATE", "ID", "NAME"),
        format!("{:<8}  {:<30}  active", "5", cut),
        format!("{:<8}  {:<30}  {}", "0", DASH, DASH),
    ]);
    assert_eq!(short_table_lines(&vec![]), strings(&["No workflows found."]));
}
