use gor::cmd::flow::Step;
use gor::cmd::label::{cloned_message, create_result, delete_prompt, delete_result, edit_result, existing_names,
    filter_json_labels, list_result, source_labels, source_result, target_names_of};
use gor::label::{clone_plan, tally};
use gor::json::{Json, JsonNumber};
use gor::repository::RepoSplit;
use gor::request::ApiResponse;

fn conv(v: &serde_json::Value) -> Json {
    match v {
        serde_json::Value::Null => Json::Null,
        serde_json::Value::Bool(b) => Json::Bool(*b),
        serde_json::Value::Number(n) => Json::Number(JsonNumber { text: n.to_string(), as_u64: n.as_u64() }),
        serde_json::Value::String(s) => Json::String(s.clone()),
        serde_json::Value::Array(a) => Json::Array(a.iter().map(conv).collect()),
        serde_json::Value::Object(m) => Json::Object(m.iter().map(|(k, v)| (k.clone(), conv(v))).collect()),
    }
}

fn back(v: &Json) -> serde_json::Value {
    match v {
        Json::Null => serde_json::Value::Null,
        Json::Bool(b) => serde_json::Value::Bool(*b),
        Json::Number(n) => serde_json::from_str(&n.text).expect("number"),
        Json::String(s) => serde_json::Value::String(s.clone()),
        Json::Array(a) => serde_json::Value::Array(a.iter().map(back).collect()),
        Json::Object(e) => serde_json::Value::Object(e.iter().map(|(k, v)| (k.clone(), back(v))).collect()),
    }
}

fn j(text: &str) -> Json {
    conv(&serde_json::from_str::<serde_json::Value>(text).expect("valid JSON"))
}

fn items(text: &str) -> Vec<Json> {
    match j(text) {
        Json::Array(v) => v,
        _ => panic!("not an array"),
    }
}

fn reply(status: u16, text: &str, body: Option<&str>) -> ApiResponse {
    ApiResponse { status, status_text: text.to_string(), body: body.map(j) }
}

fn strings(v: &[&str]) -> Vec<String> {
    v.iter().map(|s| s.to_string()).collect()
}

fn spec() -> RepoSplit {
    RepoSplit { owner: "octo".to_string(), repo: "hello".to_string() }
}

const DASH: &str = "\u{2014}";

fn names(v: &[Json]) -> Vec<String> {
    v.iter().map(|l| match back(l).get("name") {
        Some(serde_json::Value::String(s)) => s.clone(),
        _ => String::new(),
    }).collect()
}

const LABELS: &str = r#"[{"name":"bug","color":"d73a4a","description":"Something isn't working"},
    {"name":"Bugfix","color":"aaaaaa"},{"name":"docs","color":"0075ca","description":"Docs"},{"color":"ffffff"}]"#;

#[test]
fn label_filter_by_search_and_limit() {
    let all = filter_json_labels(items(LABELS), &None, 30);
    assert_eq!(all.len(), 4);
    let bugs = filter_json_labels(items(LABELS), &Some("BUG".to_string()), 30);
    assert_eq!(names(&bugs), strings(&["bug", "Bugfix"]));
    let first = filter_json_labels(items(LABELS), &Some("bug".to_string()), 1);
    assert_eq!(names(&first), strings(&["bug"]));
    assert_eq!(filter_json_labels(items(LABELS), &Some("zzz".to_string()), 30).len(), 0);
    assert_eq!(filter_json_labels(items(LABELS), &None, 0).len(), 0);
}

#[test]
fn label_list_result_outcomes() {
    match list_result(&spec(), &Some("doc".to_string()), 30, &None, reply(200, "200 OK", Some(LABELS))) {
        Step::Print(lines) => {
            assert_eq!(lines.len(), 2);
            assert!(lines[1].starts_with("docs"));
            assert!(lines[1].contains("#0075ca"));
        },
        other => panic!("unexpected {:?}", other),
    }
    match list_result(&spec(), &None, 2, &Some(vec![]), reply(200, "200 OK", Some(LABELS))) {
        Step::PrintJson(v) => assert_eq!(back(&v), serde_json::from_str::<serde_json::Value>(
            r#"[{"name":"bug","color":"d73a4a","description":"Something isn't working"},{"name":"Bugfix","color":"aaaaaa"}]"#)
            .unwrap()),
        other => panic!("unexpected {:?}", other),
    }
    match list_result(&spec(), &None, 30, &None, reply(200, "200 OK", Some("[]"))) {
        Step::Print(lines) => assert_eq!(lines, strings(&["No labels found."])),
        other => panic!("unexpected {:?}", other),
    }
    match list_result(&spec(), &None, 30, &None, reply(404, "404 Not Found", None)) {
        Step::Fail(m) => assert_eq!(m, "repository 'octo/hello' not found"),
        other => panic!("unexpected {:?}", other),
    }
    match list_result(&spec(), &None, 30, &None, reply(502, "502 Bad Gateway", None)) {
        Step::Fail(m) => assert_eq!(m, "failed to list labels for 'octo/hello': HTTP 502 Bad Gateway"),
        other => panic!("unexpected {:?}", other),
    }
    match list_result(&spec(), &None, 30, &None, reply(200, "200 OK", Some("{}"))) {
        Step::Fail(m) => assert_eq!(m, "failed to parse labels response"),
        other => panic!("unexpected {:?}", other),
    }
}

#[test]
fn label_create_outcomes() {
    assert_eq!(create_result("bug", "d73a4a", &spec(), &reply(201, "201 Created", Some(r#"{"name":"bug","color":"d73a4a"}"#))),
        Ok("\u{2713} Created label 'bug' (#d73a4a)".to_string()));
    assert_eq!(create_result("bug", "d73a4a", &spec(), &reply(201, "201 Created", Some("{}"))),
        Ok("\u{2713} Created label 'bug' (#d73a4a)".to_string()));
    assert_eq!(create_result("bug", "d73a4a", &spec(), &reply(422, "422 Unprocessable Entity", None)),
        Err("label 'bug' already exists in 'octo/hello'".to_string()));
    assert_eq!(create_result("bug", "d73a4a", &spec(), &reply(403, "403 Forbidden", Some(r#"{"message":"Must have admin rights"}"#))),
        Err("failed to create label 'bug': Must have admin rights".to_string()));
    assert_eq!(create_result("bug", "d73a4a", &spec(), &reply(500, "500 Internal Server Error", None)),
        Err("failed to create label 'bug': creation failed".to_string()));
    assert_eq!(create_result("bug", "d73a4a", &spec(), &reply(201, "201 Created", None)),
        Err("failed to parse response".to_string()));
}

#[test]
fn label_edit_and_delete_outcomes() {
    assert_eq!(edit_result("bug", &spec(), &reply(200, "200 OK", Some(r#"{"name":"defect","color":"ff0000","description":"Broken"}"#))),
        Ok("\u{2713} Updated label 'defect' (#ff0000): Broken".to_string()));
    assert_eq!(edit_result("bug", &spec(), &reply(200, "200 OK", Some("{}"))),
        Ok(format!("\u{2713} Updated label 'bug' (#{}): {}", DASH, DASH)));
    assert_eq!(edit_result("bug", &spec(), &reply(404, "404 Not Found", None)),
        Err("label 'bug' not found in 'octo/hello'".to_string()));
    assert_eq!(edit_result("bug", &spec(), &reply(422, "422 Unprocessable Entity", Some(r#"{"message":"Validation Failed"}"#))),
        Err("failed to edit label 'bug': Validation Failed".to_string()));
    assert_eq!(edit_result("bug", &spec(), &reply(500, "500 Internal Server Error", None)),
        Err("failed to edit label 'bug': edit failed".to_string()));
    assert_eq!(delete_result("bug", &spec(), 204, "204 No Content"), Ok(Some("\u{2713} Deleted label 'bug'".to_string())));
    assert_eq!(delete_result("bug", &spec(), 200, "200 OK"), Ok(None));
    assert_eq!(delete_result("bug", &spec(), 404, "404 Not Found"), Err("label 'bug' not found in 'octo/hello'".to_string()));
    assert_eq!(delete_result("bug", &spec(), 403, "403 Forbidden"), Err("failed to delete label 'bug': HTTP 403 Forbidden".to_string()));
    assert_eq!(delete_prompt("bug", &spec()), "Delete label 'bug' from 'octo/hello'? [y/N] ");
}

#[test]
fn label_clone_sources_and_summary() {
    let src = items(LABELS);
    let labels = source_labels(&src);
    assert_eq!(labels.len(), 4);
    assert_eq!(labels[0].name, "bug");
    assert_eq!(labels[0].color, "d73a4a");
    assert_eq!(labels[0].description, Some("Something isn't working".to_string()));
    assert_eq!(labels[1].description, Some(String::new()));
    assert_eq!(labels[3].name, "");
    assert_eq!(labels[3].color, "ffffff");
    let defaulted = source_labels(&items(r#"[{"name":"x"}]"#));
    assert_eq!(defaulted[0].color, "ededed");
    assert_eq!(existing_names(&src), strings(&["bug", "Bugfix", "docs"]));
    match source_result(&spec(), reply(200, "200 OK", Some(LABELS))) {
        Ok(v) => assert_eq!(v.len(), 4),
        Err(e) => panic!("unexpected {}", e),
    }
    assert_eq!(source_result(&spec(), reply(404, "404 Not Found", None)).err(),
        Some("source repository 'octo/hello' not found".to_string()));
    assert_eq!(source_result(&spec(), reply(500, "500 Internal Server Error", None)).err(),
        Some("failed to fetch labels from 'octo/hello': HTTP 500 Internal Server Error".to_string()));
    assert_eq!(source_result(&spec(), reply(200, "200 OK", Some("{}"))).err(),
        Some("failed to parse labels response".to_string()));
    let target = RepoSplit { owner: "acme".to_string(), repo: "site".to_string() };
    assert_eq!(cloned_message(&spec(), &target, 2, 1, 0),
        "\u{2713} Cloned labels from 'octo/hello' to 'acme/site': 2 created, 1 updated, 0 skipped");
}

#[test]
fn label_clone_follows_the_two_replies() {
    let source = items(LABELS);
    let labels = source_labels(&source);
    let target = reply(404, "404 Not Found", Some(r#"{"message":"Not Found"}"#));
    assert!(target_names_of(Some(target)).is_empty());
    assert!(target_names_of(None).is_empty());
    let existing = target_names_of(Some(reply(200, "200 OK", Some(r#"[{"name":"bug"},{"name":"docs"}]"#))));
    assert_eq!(existing, strings(&["bug", "docs"]));
    let steps = clone_plan(&labels, &existing, false);
    let r = tally(&steps, &vec![true; steps.len()]);
    assert_eq!((r.created, r.updated, r.skipped), (2, 0, 2));
    let forced = clone_plan(&labels, &existing, true);
    let r = tally(&forced, &vec![true, false, true, true]);
    assert_eq!((r.created, r.updated, r.skipped), (1, 2, 1));
}
