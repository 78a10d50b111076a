use gor::cmd::alias::{alias_command, alias_set_message, alias_table_lines, AliasEntry};
use gor::cmd::api::{add_page, api_endpoint, api_host, api_method, output_head_lines, HeaderLine};
use gor::cmd::attestation::{api_report, attestations_path, bundle_report};
use gor::cmd::browse::{browse_url, opening_message, BrowseTarget};
use gor::cmd::classroom::{assignment_table_lines, assignments_path, assignments_result, classroom_table_lines};
use gor::cmd::codespace::{create_body, create_result, delete_prompt, delete_result, logs_path, logs_result,
    space_table_lines, ssh_check, ssh_result, stop_name, stop_path, stop_result, stop_targets, stopped_message};
use gor::cmd::copilot::{status_result, usage_lines, usage_org, usage_path, usage_result};
use gor::cmd::extension::{extension_table_lines, list_result as extension_list, removal_message};
use gor::cmd::flow::Step;
use gor::cmd::ruleset::{list_path as ruleset_list_path, ruleset_table_lines, ruleset_view_lines, view_path as ruleset_path,
    view_result as ruleset_view};
use gor::json::{Json, JsonNumber};
use gor::repository::RepoSplit;
use gor::request::ApiResponse;

fn conv(v: &serde_json::Value) -> Json {
    match v {
        serde_json::Value::Null => Json::Null,
        serde_json::Value::Bool(b) => Json::Bool(*b),
        serde_json::Value::Number(n) => Json::Number(JsonNumber { text: n.to_string(), as_u64: n.as_u64() }),
        serde_json::Value::String(s) => Json::String(s.clone()),
        serde_json::Value::Array(a) => Json::Array(a.iter().map(conv).collect()),
        serde_json::Value::Object(m) => Json::Object(m.iter().map(|(k, v)| (k.clone(), conv(v))).collect()),
    }
}

fn back(v: &Json) -> serde_json::Value {
    match v {
        Json::Null => serde_json::Value::Null,
        Json::Bool(b) => serde_json::Value::Bool(*b),
        Json::Number(n) => serde_json::from_str(&n.text).expect("number"),
        Json::String(s) => serde_json::Value::String(s.clone()),
        Json::Array(a) => serde_json::Value::Array(a.iter().map(back).collect()),
        Json::Object(e) => serde_json::Value::Object(e.iter().map(|(k, v)| (k.clone(), back(v))).collect()),
    }
}

fn j(text: &str) -> Json {
    conv(&serde_json::from_str::<serde_json::Value>(text).expect("valid JSON"))
}

fn items(text: &str) -> Vec<Json> {
    match j(text) {
        Json::Array(v) => v,
        _ => panic!("not an array"),
    }
}

fn reply(status: u16, text: &str, body: Option<Json>) -> ApiResponse {
    ApiResponse { status, status_text: text.to_string(), body }
}

fn strings(v: &[&str]) -> Vec<String> {
    v.iter().map(|s| s.to_string()).collect()
}

fn spec() -> RepoSplit {
    RepoSplit { owner: "octo".to_string(), repo: "hello".to_string() }
}

const DASH: &str = "\u{2014}";

#[test]
fn codespace_table_and_messages() {
    let lines = space_table_lines(&items(r#"[{"name":"octo-space","repository":{"full_name":"octo/hello"},"state":"Available",
        "git_status":{"branch":"main"}},{"name":null}]"#));
    assert_eq!(lines, vec![
        format!("{:<24}  {:<20}  {:<15}  BRANCH", "NAME", "REPOSITORY", "STATE"),
        format!("{:<24}  {:<20}  {:<15}  {}", "octo-space", "octo/hello", "Available", "main"),
        format!("{:<24}  {:<20}  {:<15}  {}", DASH, DASH, DASH, DASH),
    ]);
    assert_eq!(space_table_lines(&vec![]), strings(&["No codespaces found."]));
    assert_eq!(delete_prompt("cs", &None), "Are you sure you want to delete codespace 'cs'?");
    assert_eq!(delete_prompt("cs", &Some("o/r".to_string())), "Are you sure you want to delete codespace 'cs' in repo 'o/r'?");
    assert_eq!(delete_result("cs", 202, "202 Accepted"), Ok("Codespace 'cs' deleted.".to_string()));
    assert_eq!(delete_result("cs", 404, "404 Not Found"), Err("failed to delete codespace 'cs': HTTP 404 Not Found".to_string()));
    assert_eq!(stop_result("cs", 200, "200 OK"), Ok("Codespace 'cs' stopped.".to_string()));
    assert_eq!(stop_path("cs"), "/user/codespaces/cs/stop");
    assert_eq!(logs_path("cs"), "/user/codespaces/cs/logs");
    assert_eq!(stop_name(&None), Err("codespace name is required".to_string()));
    assert_eq!(stopped_message(2), "Stopped 2 codespace(s).");
}

#[test]
fn codespace_create_logs_ssh_and_stop_all() {
    assert_eq!(back(&create_body("123", &Some("dev".to_string()), &Some("basicLinux".to_string()))),
        serde_json::from_str::<serde_json::Value>(
            r#"{"repository_id":"123","git_status":{"branch":"dev"},"machine":"basicLinux"}"#).expect("valid JSON"));
    assert_eq!(create_result(&reply(201, "201 Created", Some(j(r#"{"name":"new-space"}"#)))),
        Ok("Codespace 'new-space' created.".to_string()));
    assert_eq!(create_result(&reply(400, "400 Bad Request", Some(j(r#"{"message":"bad machine"}"#)))),
        Err("failed to create codespace: bad machine".to_string()));
    assert_eq!(create_result(&reply(400, "400 Bad Request", None)), Err("failed to create codespace: create failed".to_string()));
    assert!(matches!(logs_result("cs", &None, true, 200, "200 OK", "line one".to_string(), None),
        Step::Print(l) if l == strings(&["Logs for codespace 'cs':", "line one"])));
    assert!(matches!(logs_result("cs", &Some(vec![]), false, 200, "200 OK", "x".to_string(), None),
        Step::PrintJson(Json::Null)));
    assert!(matches!(logs_result("cs", &None, false, 500, "500 Internal Server Error", String::new(), None),
        Step::Fail(m) if m == "failed to fetch logs for 'cs': HTTP 500 Internal Server Error"));
    assert_eq!(ssh_check("cs", &reply(200, "200 OK", Some(j(r#"{"state":"Shutdown"}"#)))),
        Err("codespace 'cs' is not available (state: Shutdown)".to_string()));
    assert_eq!(ssh_check("cs", &reply(200, "200 OK", Some(j(r#"{"state":"Available"}"#)))), Ok(()));
    let details = j(r#"{"connection":{"host":"h.example","port":2222,"user":"codespace"}}"#);
    assert_eq!(ssh_result("cs", true, Some(details), &Some("2222".to_string())),
        Ok(strings(&["Host cs", "  HostName h.example", "  Port 2222", "  User codespace"])));
    assert_eq!(ssh_result("cs", true, Some(j("{}")), &None),
        Ok(strings(&["# No SSH connection details available for 'cs'"])));
    assert_eq!(ssh_result("cs", false, Some(j("{}")), &None),
        Err("SSH connection is not yet implemented; use --config to view connection details".to_string()));
    let listing = j(r#"{"codespaces":[{"name":"a","state":"Available"},{"name":"b","state":"Shutdown"},
        {"name":"c","state":"Deleted"},{"state":"Starting"}]}"#);
    assert_eq!(stop_targets(&listing), strings(&["a", ""]));
}

#[test]
fn copilot_status_and_usage() {
    assert!(matches!(status_result(&None, reply(404, "404 Not Found", None)),
        Step::Print(l) if l == strings(&["Copilot is not enabled for your account."])));
    assert!(matches!(status_result(&None, reply(200, "200 OK", Some(j(r#"{"plan":"business","seat_status":"active"}"#)))),
        Step::Print(l) if l == vec!["Copilot Status".to_string(), "  Plan: business".to_string(),
            "  Seat: active".to_string(), format!("  Renewal: {DASH}")]));
    assert!(matches!(status_result(&None, reply(401, "401 Unauthorized", None)),
        Step::Fail(m) if m == "failed to fetch Copilot status: HTTP 401 Unauthorized"));
    assert_eq!(usage_org(&None), Err("--org is required for usage statistics".to_string()));
    assert_eq!(usage_path("acme"), "/orgs/acme/copilot/usage");
    assert_eq!(usage_lines("acme", &j(r#"{"total_active_users":5,"breakdown":[{"language":"rust","editor_count":3},{}]}"#)),
        vec!["Copilot Usage for acme".to_string(), "  Total active users: 5".to_string(), "  Breakdown:".to_string(),
            "    rust: 3 editors".to_string(), format!("    {DASH}: 0 editors")]);
    assert_eq!(usage_lines("acme", &j("{}")), strings(&["Copilot Usage for acme", "  Total active users: 0"]));
    assert!(matches!(usage_result("acme", &None, reply(404, "404 Not Found", None)),
        Step::Print(l) if l == strings(&["Copilot is not enabled for organization 'acme'."])));
}

#[test]
fn classroom_tables() {
    assert_eq!(classroom_table_lines(&items(r#"[{"id":7,"name":"Intro","organization":{"login":"school"}}]"#)), vec![
        format!("{:<8}  {:<30}  ORGANIZATION", "ID", "NAME"),
        format!("{:<8}  {:<30}  {}", "7", "Intro", "school"),
    ]);
    assert_eq!(assignment_table_lines(7, &vec![]), strings(&["No assignments found for classroom 7."]));
    assert_eq!(assignment_table_lines(7, &items(r#"[{"id":1,"title":"HW1","deadline":"2024-05-01","invitations_count":30}]"#)),
        vec![
            format!("{:<8}  {:<30}  {:<20}  INVITED", "ID", "TITLE", "DEADLINE"),
            format!("{:<8}  {:<30}  {:<20}  {}", "1", "HW1", "2024-05-01", "30"),
        ]);
    assert_eq!(assignments_path(7), "/classrooms/7/assignments");
    assert!(matches!(assignments_result(7, &None, reply(403, "403 Forbidden", None)),
        Step::Fail(m) if m == "failed to list assignments: HTTP 403 Forbidden"));
}

#[test]
fn ruleset_list_and_view() {
    assert_eq!(ruleset_list_path(&spec()), "/repos/octo/hello/rulesets?per_page=100");
    assert_eq!(ruleset_path(&spec(), 42), "/repos/octo/hello/rulesets/42");
    assert_eq!(ruleset_table_lines(&items(r#"[{"id":42,"name":"main protection","enforcement":"active"}]"#)), vec![
        format!("{:<8}  {:<30}  ENFORCEMENT", "ID", "NAME"),
        format!("{:<8}  {:<30}  {}", "42", "main protection", "active"),
    ]);
    assert_eq!(ruleset_view_lines(&j(r#"{"name":"r","enforcement":"active","target":"branch",
        "rules":[{"type":"deletion"},{"type":"non_fast_forward"}]}"#)),
        strings(&["  Name: r", "  Enforcement: active", "  Target: branch", "  Rules:", "    - deletion",
            "    - non_fast_forward"]));
    assert!(matches!(ruleset_view(42, &spec(), "github.com", false, &None, reply(404, "404 Not Found", None)),
        Step::Fail(m) if m == "ruleset #42 not found in repository 'octo/hello'"));
    assert!(matches!(ruleset_view(42, &spec(), "github.com", true, &None, reply(200, "200 OK", Some(j("{}")))),
        Step::Print(l) if l == strings(&["Open https://github.com/octo/hello/settings/rules/42 in your browser"])));
}

#[test]
fn attestation_reports() {
    assert_eq!(bundle_report("a.tar", &None, None), Err("failed to parse Sigstore bundle".to_string()));
    assert_eq!(bundle_report("a.tar", &Some("octo".to_string()),
        Some(j(r#"{"verificationMaterial":{"tlogEntries":[{},{}]}}"#))),
        Ok(strings(&["Verifying attestation for: a.tar", "  Bundle contains 2 transparency log entry/entries.",
            "Attestation verified for owner 'octo'.", "Note: full Sigstore certificate verification is not yet implemented."])));
    assert_eq!(bundle_report("a.tar", &None, Some(j("{}"))).map(|l| l.len()), Ok(3));
    assert_eq!(attestations_path(&spec()), "/repos/octo/hello/attestations");
    let empty = api_report("a.tar", &None, &spec(), &reply(200, "200 OK", Some(j(r#"{"attestations":[]}"#))));
    assert_eq!(empty.lines, strings(&["Verifying attestation for: a.tar"]));
    assert_eq!(empty.failure, Some("no attestations found for octo/hello".to_string()));
    let found = api_report("a.tar", &None, &spec(), &reply(200, "200 OK", Some(j(r#"{"attestations":[{}]}"#))));
    assert_eq!(found.lines, strings(&["Verifying attestation for: a.tar", "  Found 1 attestation(s).",
        "Attestation verified for owner 'octo'.", "Note: full Sigstore certificate verification is not yet implemented."]));
    assert_eq!(found.failure, None);
    let failed = api_report("a.tar", &None, &spec(), &reply(404, "404 Not Found", None));
    assert!(failed.lines.is_empty());
    assert_eq!(failed.failure, Some("failed to fetch attestations: HTTP 404 Not Found".to_string()));
}

#[test]
fn set_requires_command() {
    assert_eq!(alias_command(&vec![]), Err("alias command is required".to_string()));
    assert_eq!(alias_command(&strings(&["pr", "checkout"])), Ok("pr checkout".to_string()));
}

#[test]
fn alias_table_and_message() {
    assert_eq!(alias_table_lines(&None), strings(&["No aliases configured."]));
    let entries = vec![
        AliasEntry { name: Some("co".to_string()), command: Some("pr checkout".to_string()) },
        AliasEntry { name: None, command: None },
    ];
    assert_eq!(alias_table_lines(&Some(entries)), vec![
        format!("{:<20}  COMMAND", "ALIAS"),
        format!("{:<20}  {}", "co", "pr checkout"),
        format!("{:<20}  {}", "?", "?"),
    ]);
    assert_eq!(alias_set_message("co", "pr checkout"), "Alias 'co' set to 'pr checkout'");
}

fn target() -> BrowseTarget {
    BrowseTarget { issue: None, pr: None, branch: None, commit: None, projects: false, wiki: false, settings: false }
}

#[test]
fn browse_urls() {
    assert_eq!(browse_url("github.com", &spec(), &target()), "https://github.com/octo/hello");
    assert_eq!(browse_url("github.com", &spec(), &BrowseTarget { issue: Some(5), pr: Some(6), ..target() }),
        "https://github.com/octo/hello/issues/5");
    assert_eq!(browse_url("ghe.io", &spec(), &BrowseTarget { pr: Some(6), ..target() }), "https://ghe.io/octo/hello/pull/6");
    assert_eq!(browse_url("github.com", &spec(), &BrowseTarget { branch: Some("dev".to_string()), ..target() }),
        "https://github.com/octo/hello/tree/dev");
    assert_eq!(browse_url("github.com", &spec(), &BrowseTarget { commit: Some("abc".to_string()), ..target() }),
        "https://github.com/octo/hello/commit/abc");
    assert_eq!(browse_url("github.com", &spec(), &BrowseTarget { wiki: true, settings: true, ..target() }),
        "https://github.com/octo/hello/wiki");
    assert_eq!(opening_message("https://x"), "Opening https://x");
}

#[test]
fn extension_list_and_removal() {
    assert_eq!(extension_table_lines(&items(r#"[{"full_name":"octo/gh-tool","description":null}]"#)), vec![
        format!("{:<30}  DESCRIPTION", "NAME"),
        format!("{:<30}  {}", "octo/gh-tool", DASH),
    ]);
    assert!(matches!(extension_list(&None, reply(200, "200 OK", Some(j("[]")))),
        Step::Print(l) if l == strings(&["No extensions found."])));
    assert_eq!(removal_message("x", true), "Extension 'x' removed.");
    assert_eq!(removal_message("x", false), "Extension 'x' is not installed.");
}

#[test]
fn api_call_shape_and_output_head() {
    assert_eq!(api_method(""), "GET");
    assert_eq!(api_method("post"), "POST");
    assert_eq!(api_endpoint("user"), "/user");
    assert_eq!(api_endpoint("/user"), "/user");
    assert_eq!(api_host(&None, None), "github.com");
    assert_eq!(api_host(&None, Some("ghe.io")), "ghe.io");
    assert_eq!(api_host(&Some("a.io".to_string()), Some("ghe.io")), "a.io");
    let hs = vec![
        HeaderLine { name: "content-type".to_string(), value: Some("application/json".to_string()) },
        HeaderLine { name: "x-bin".to_string(), value: None },
    ];
    assert_eq!(output_head_lines(true, false, 200, &Some("OK".to_string()), &hs, false),
        strings(&["HTTP/1.1 200 OK", "content-type: application/json", ""]));
    assert_eq!(output_head_lines(false, false, 200, &None, &hs, true), strings(&["HTTP 200 (paginated)"]));
    assert_eq!(output_head_lines(false, false, 404, &None, &hs, false), Vec::<String>::new());
    assert_eq!(output_head_lines(false, true, 200, &None, &hs, false), Vec::<String>::new());
    let mut all = items("[1,2]");
    add_page(&mut all, Some(j("[3]")));
    add_page(&mut all, Some(j(r#"{"a":1}"#)));
    add_page(&mut all, None);
    assert_eq!(all.len(), 3);
}
