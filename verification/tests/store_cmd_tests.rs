use gor::cmd::flow::{Event, Step};
use gor::cmd::store::{run, Store, StoreCommand};
use gor::json::{Json, JsonNumber};
use gor::repository::RepoSplit;
use gor::request::{ApiResponse, Method, RequestBody};

fn conv(v: &serde_json::Value) -> Json {
    match v {
        serde_json::Value::Null => Json::Null,
        serde_json::Value::Bool(b) => Json::Bool(*b),
        serde_json::Value::Number(n) => Json::Number(JsonNumber { text: n.to_string(), as_u64: n.as_u64() }),
        serde_json::Value::String(s) => Json::String(s.clone()),
        serde_json::Value::Array(a) => Json::Array(a.iter().map(conv).collect()),
        serde_json::Value::Object(m) => Json::Object(m.iter().map(|(k, v)| (k.clone(), conv(v))).collect()),
    }
}

fn back(v: &Json) -> serde_json::Value {
    match v {
        Json::Null => serde_json::Value::Null,
        Json::Bool(b) => serde_json::Value::Bool(*b),
        Json::Number(n) => serde_json::from_str(&n.text).expect("number"),
        Json::String(s) => serde_json::Value::String(s.clone()),
        Json::Array(a) => serde_json::Value::Array(a.iter().map(back).collect()),
        Json::Object(e) => serde_json::Value::Object(e.iter().map(|(k, v)| (k.clone(), back(v))).collect()),
    }
}

fn j(text: &str) -> Json {
    conv(&serde_json::from_str::<serde_json::Value>(text).expect("valid JSON"))
}

fn items(text: &str) -> Vec<Json> {
    match j(text) {
        Json::Array(v) => v,
        _ => panic!("not an array"),
    }
}

fn reply(status: u16, text: &str, body: Option<&str>) -> ApiResponse {
    ApiResponse { status, status_text: text.to_string(), body: body.map(j) }
}

fn strings(v: &[&str]) -> Vec<String> {
    v.iter().map(|s| s.to_string()).collect()
}

fn spec() -> RepoSplit {
    RepoSplit { owner: "octo".to_string(), repo: "hello".to_string() }
}

fn set(body: Option<&str>, file: Option<&str>, org: Option<&str>) -> StoreCommand {
    StoreCommand::SetValue { name: "TOKEN".to_string(), body: body.map(|b| b.to_string()), file: file.map(|f| f.to_string()),
        org: org.map(|o| o.to_string()), hostname: None }
}

fn sent(step: Step) -> (String, String, serde_json::Value) {
    match step {
        Step::Send(req) => {
            let body = match &req.body {
                RequestBody::JsonBytes(j) | RequestBody::Json(j) => back(j),
                RequestBody::Empty => serde_json::Value::Null,
            };
            (format!("{:?}", req.method), req.path, body)
        },
        other => panic!("unexpected {:?}", other),
    }
}

#[test]
fn store_list_steps() {
    let list = StoreCommand::List { org: None, json: None, hostname: None };
    let (m, p, _) = sent(run(Store::Secrets, &list, &Some(spec()), Event::Start));
    assert_eq!((m.as_str(), p.as_str()), ("Get", "/repos/octo/hello/actions/secrets?per_page=100"));
    let in_org = StoreCommand::List { org: Some("acme".to_string()), json: None, hostname: None };
    let (_, p, _) = sent(run(Store::Variables, &in_org, &None, Event::Start));
    assert_eq!(p, "/orgs/acme/actions/variables?per_page=100");
    match run(Store::Secrets, &list, &None, Event::Start) {
        Step::Fail(m) => assert_eq!(m, "could not detect repository; specify --org or run from a repo directory"),
        other => panic!("unexpected {:?}", other),
    }
    let secrets = r#"{"total_count":1,"secrets":[{"name":"API_KEY","updated_at":"2024-01-15T10:30:00Z"}]}"#;
    match run(Store::Secrets, &list, &None, Event::Reply(reply(200, "200 OK", Some(secrets)))) {
        Step::Print(lines) => assert_eq!(lines, vec![format!("{:<30}  UPDATED", "NAME"),
            format!("{:<30}  2024-01-15T10:30:00Z", "API_KEY")]),
        other => panic!("unexpected {:?}", other),
    }
    let variables = r#"{"variables":[{"name":"MODE","value":"fast"}]}"#;
    match run(Store::Variables, &list, &None, Event::Reply(reply(200, "200 OK", Some(variables)))) {
        Step::Print(lines) => assert_eq!(lines, vec![format!("{:<30}  VALUE", "NAME"), format!("{:<30}  fast", "MODE")]),
        other => panic!("unexpected {:?}", other),
    }
    match run(Store::Variables, &list, &None, Event::Reply(reply(200, "200 OK", Some("{}")))) {
        Step::Print(lines) => assert_eq!(lines, strings(&["No variables found."])),
        other => panic!("unexpected {:?}", other),
    }
    let as_json = StoreCommand::List { org: None, json: Some(vec![]), hostname: None };
    match run(Store::Variables, &as_json, &None, Event::Reply(reply(200, "200 OK", Some(variables)))) {
        Step::PrintJson(v) => assert_eq!(back(&v), serde_json::from_str::<serde_json::Value>(r#"[{"name":"MODE","value":"fast"}]"#).unwrap()),
        other => panic!("unexpected {:?}", other),
    }
    match run(Store::Secrets, &list, &None, Event::Reply(reply(403, "403 Forbidden", None))) {
        Step::Fail(m) => assert_eq!(m, "failed to list secrets: HTTP 403 Forbidden"),
        other => panic!("unexpected {:?}", other),
    }
    match run(Store::Secrets, &list, &None, Event::Reply(reply(200, "200 OK", None))) {
        Step::Fail(m) => assert_eq!(m, "failed to parse response"),
        other => panic!("unexpected {:?}", other),
    }
}

#[test]
fn store_set_steps() {
    let (m, p, b) = sent(run(Store::Secrets, &set(Some("s3cret"), None, None), &Some(spec()), Event::Start));
    assert_eq!((m.as_str(), p.as_str()), ("Put", "/repos/octo/hello/actions/secrets/TOKEN"));
    assert_eq!(b, serde_json::from_str::<serde_json::Value>(r#"{"encrypted_value":"s3cret"}"#).unwrap());
    let (m, p, b) = sent(run(Store::Variables, &set(Some("v"), None, Some("acme")), &None, Event::Start));
    assert_eq!((m.as_str(), p.as_str()), ("Patch", "/orgs/acme/actions/variables/TOKEN"));
    assert_eq!(b, serde_json::from_str::<serde_json::Value>(r#"{"value":"v"}"#).unwrap());
    match run(Store::Secrets, &set(None, Some("token.txt"), None), &Some(spec()), Event::Start) {
        Step::ReadFile(f) => assert_eq!(f, "token.txt"),
        other => panic!("unexpected {:?}", other),
    }
    let (_, _, b) = sent(run(Store::Secrets, &set(None, Some("token.txt"), None), &Some(spec()),
        Event::FileText("  from-file\n".to_string())));
    assert_eq!(b, serde_json::from_str::<serde_json::Value>(r#"{"encrypted_value":"from-file"}"#).unwrap());
    match run(Store::Variables, &set(None, None, None), &Some(spec()), Event::Start) {
        Step::Fail(m) => assert_eq!(m, "no variable value provided (use --body or --file)"),
        other => panic!("unexpected {:?}", other),
    }
    match run(Store::Secrets, &set(Some("x"), None, None), &None, Event::Start) {
        Step::Fail(m) => assert_eq!(m, "could not detect repository; specify --org or run from a repo directory"),
        other => panic!("unexpected {:?}", other),
    }
    match run(Store::Secrets, &set(Some("x"), None, None), &None, Event::Reply(reply(204, "204 No Content", None))) {
        Step::Print(lines) => assert_eq!(lines, strings(&["Secret 'TOKEN' set."])),
        other => panic!("unexpected {:?}", other),
    }
    match run(Store::Variables, &set(Some("x"), None, None), &None, Event::Reply(reply(422, "422 Unprocessable Entity", None))) {
        Step::Fail(m) => assert_eq!(m, "failed to set variable 'TOKEN': HTTP 422 Unprocessable Entity"),
        other => panic!("unexpected {:?}", other),
    }
}

#[test]
fn store_delete_steps() {
    let del = StoreCommand::Delete { name: "OLD".to_string(), org: None, hostname: None };
    let (m, p, b) = sent(run(Store::Variables, &del, &Some(spec()), Event::Start));
    assert_eq!((m.as_str(), p.as_str()), ("Delete", "/repos/octo/hello/actions/variables/OLD"));
    assert_eq!(b, serde_json::Value::Null);
    match run(Store::Secrets, &del, &None, Event::Reply(reply(204, "204 No Content", None))) {
        Step::Print(lines) => assert_eq!(lines, strings(&["Secret 'OLD' deleted."])),
        other => panic!("unexpected {:?}", other),
    }
    match run(Store::Secrets, &del, &None, Event::Reply(reply(404, "404 Not Found", None))) {
        Step::Fail(m) => assert_eq!(m, "secret 'OLD' not found"),
        other => panic!("unexpected {:?}", other),
    }
    match run(Store::Variables, &del, &None, Event::Reply(reply(500, "500 Internal Server Error", None))) {
        Step::Fail(m) => assert_eq!(m, "failed to delete variable 'OLD': HTTP 500 Internal Server Error"),
        other => panic!("unexpected {:?}", other),
    }
    match run(Store::Variables, &del, &None, Event::FileText(String::new())) {
        Step::Fail(m) => assert_eq!(m, "unexpected event"),
        other => panic!("unexpected {:?}", other),
    }
}
