use gor::cli::{GpgKeyCommand, SshKeyCommand};
use gor::cmd::flow::{Event, Step};
use gor::cmd::keys::{run_gpg, run_ssh};
use gor::json::{Json, JsonNumber};
use gor::request::{ApiResponse, Method, RequestBody};

fn conv(v: &serde_json::Value) -> Json {
    match v {
        serde_json::Value::Null => Json::Null,
        serde_json::Value::Bool(b) => Json::Bool(*b),
        serde_json::Value::Number(n) => Json::Number(JsonNumber { text: n.to_string(), as_u64: n.as_u64() }),
        serde_json::Value::String(s) => Json::String(s.clone()),
        serde_json::Value::Array(a) => Json::Array(a.iter().map(conv).collect()),
        serde_json::Value::Object(m) => Json::Object(m.iter().map(|(k, v)| (k.clone(), conv(v))).collect()),
    }
}

fn reply(status: u16, text: &str, body: Option<&str>) -> Event {
    Event::Reply(ApiResponse {
        status,
        status_text: text.to_string(),
        body: body.map(|b| conv(&serde_json::from_str::<serde_json::Value>(b).expect("valid JSON"))),
    })
}

fn printed(step: Step) -> Vec<String> {
    match step {
        Step::Print(lines) => lines,
        other => panic!("expected lines, got {:?}", other),
    }
}

fn failed(step: Step) -> String {
    match step {
        Step::Fail(m) => m,
        other => panic!("expected a failure, got {:?}", other),
    }
}

fn ssh_list(json: Option<Vec<String>>) -> SshKeyCommand {
    SshKeyCommand::List { json, hostname: None }
}

#[test]
fn ssh_list_starts_with_a_get_of_user_keys() {
    match run_ssh(&ssh_list(None), Event::Start) {
        Step::Send(req) => {
            assert!(matches!(req.method, Method::Get));
            assert_eq!(req.path, "/user/keys");
            assert!(matches!(req.body, RequestBody::Empty));
        },
        other => panic!("unexpected {:?}", other),
    }
}

#[test]
fn ssh_list_prints_the_key_table() {
    let body = r#"[{"title":"laptop","key":"ssh-ed25519 AAAAC3NzaC1lZDI1NTE5AAAAIKeyMaterialThatIsLongerThanForty user@host"},{"key":"ssh-rsa"}]"#;
    let lines = printed(run_ssh(&ssh_list(None), reply(200, "200 OK", Some(body))));
    assert_eq!(lines.len(), 3);
    assert_eq!(lines[0], format!("{:<30}  {:<10}  KEY", "TITLE", "TYPE"));
    assert_eq!(lines[1], format!("{:<30}  {:<10}  {}", "laptop", "ssh-ed25519", "AAAAC3NzaC1lZDI1NTE5AAAAIKeyMaterialThat"));
    assert_eq!(lines[2], format!("{:<30}  {:<10}  {}", "\u{2014}", "ssh-rsa", ""));
}

#[test]
fn ssh_list_reports_no_keys_and_failures() {
    assert_eq!(printed(run_ssh(&ssh_list(None), reply(200, "200 OK", Some("[]")))), vec!["No SSH keys found.".to_string()]);
    assert_eq!(failed(run_ssh(&ssh_list(None), reply(401, "401 Unauthorized", None))), "failed to list SSH keys: HTTP 401 Unauthorized");
    assert_eq!(failed(run_ssh(&ssh_list(None), reply(200, "200 OK", Some("{}")))), "failed to parse SSH keys response");
}

#[test]
fn ssh_list_json_with_fields_prints_an_empty_object() {
    match run_ssh(&ssh_list(Some(vec!["title".to_string()])), reply(200, "200 OK", Some(r#"[{"title":"a"}]"#))) {
        Step::PrintJson(Json::Object(e)) => assert!(e.is_empty()),
        other => panic!("unexpected {:?}", other),
    }
    match run_ssh(&ssh_list(Some(vec![])), reply(200, "200 OK", Some(r#"[{"title":"a"}]"#))) {
        Step::PrintJson(Json::Array(v)) => assert_eq!(v.len(), 1),
        other => panic!("unexpected {:?}", other),
    }
}

#[test]
fn ssh_add_posts_the_key_or_reads_the_file() {
    let with_body = SshKeyCommand::Add { title: "t".to_string(), file: None, body: Some("ssh-ed25519 AAA".to_string()), hostname: None };
    match run_ssh(&with_body, Event::Start) {
        Step::Send(req) => {
            assert!(matches!(req.method, Method::Post));
            assert_eq!(req.path, "/user/keys");
            match req.body {
                RequestBody::Json(j) => {
                    assert_eq!(j.str_member("title"), Some("t"));
                    assert_eq!(j.str_member("key"), Some("ssh-ed25519 AAA"));
                },
                other => panic!("unexpected {:?}", other),
            }
        },
        other => panic!("unexpected {:?}", other),
    }
    let with_file = SshKeyCommand::Add { title: "t".to_string(), file: Some("id.pub".to_string()), body: None, hostname: None };
    assert!(matches!(run_ssh(&with_file, Event::Start), Step::ReadFile(f) if f == "id.pub"));
    match run_ssh(&with_file, Event::FileText("  ssh-ed25519 BBB \n".to_string())) {
        Step::Send(req) => match req.body {
            RequestBody::Json(j) => assert_eq!(j.str_member("key"), Some("ssh-ed25519 BBB")),
            other => panic!("unexpected {:?}", other),
        },
        other => panic!("unexpected {:?}", other),
    }
    assert_eq!(failed(run_ssh(&with_file, Event::FileText(" \n".to_string()))), "SSH key body is empty");
    let neither = SshKeyCommand::Add { title: "t".to_string(), file: None, body: None, hostname: None };
    assert_eq!(failed(run_ssh(&neither, Event::Start)), "no SSH key provided (use --file or --body)");
}

#[test]
fn ssh_add_reports_the_new_key_or_the_refusal() {
    let cmd = SshKeyCommand::Add { title: "work".to_string(), file: None, body: Some("k".to_string()), hostname: None };
    assert_eq!(printed(run_ssh(&cmd, reply(201, "201 Created", Some(r#"{"id":77}"#)))), vec!["SSH key added: 77 (work)".to_string()]);
    assert_eq!(printed(run_ssh(&cmd, reply(201, "201 Created", Some("{}")))), vec!["SSH key added: 0 (work)".to_string()]);
    assert_eq!(failed(run_ssh(&cmd, reply(422, "422 Unprocessable Entity", Some(r#"{"message":"key is already in use"}"#)))),
        "failed to add SSH key: key is already in use");
    assert_eq!(failed(run_ssh(&cmd, reply(500, "500 Internal Server Error", None))), "failed to add SSH key: add failed");
    assert_eq!(failed(run_ssh(&cmd, reply(201, "201 Created", None))), "failed to parse response");
}

#[test]
fn gpg_list_prints_names_and_emails() {
    let cmd = GpgKeyCommand::List { json: None, hostname: None };
    assert!(matches!(run_gpg(&cmd, Event::Start), Step::Send(r) if r.path == "/user/gpg_keys"));
    let body = r#"[{"key_id":"3262EFF25BA0D270","name":"Octo Cat","emails":[{"email":"octo@example.com"},{"email":"cat@example.com"}]}]"#;
    let lines = printed(run_gpg(&cmd, reply(200, "200 OK", Some(body))));
    assert_eq!(lines[0], format!("{:<16}  {:<30}  EMAILS", "KEY ID", "NAME"));
    assert_eq!(lines[1], format!("{:<16}  {:<30}  {}", "3262EFF25BA0D270", "Octo Cat", "octo@example.com, cat@example.com"));
    assert_eq!(printed(run_gpg(&cmd, reply(200, "200 OK", Some("[]")))), vec!["No GPG keys found.".to_string()]);
}

#[test]
fn gpg_add_posts_the_armored_key() {
    let cmd = GpgKeyCommand::Add { file: None, body: Some("-----BEGIN PGP".to_string()), hostname: None };
    match run_gpg(&cmd, Event::Start) {
        Step::Send(req) => match req.body {
            RequestBody::Json(j) => assert_eq!(j.str_member("armored_public_key"), Some("-----BEGIN PGP")),
            other => panic!("unexpected {:?}", other),
        },
        other => panic!("unexpected {:?}", other),
    }
    assert_eq!(printed(run_gpg(&cmd, reply(201, "201 Created", Some(r#"{"key_id":"ABC"}"#)))), vec!["GPG key added: ABC".to_string()]);
    let none = GpgKeyCommand::Add { file: None, body: None, hostname: None };
    assert_eq!(failed(run_gpg(&none, Event::Start)), "no GPG key provided (use --file or --body)");
}
