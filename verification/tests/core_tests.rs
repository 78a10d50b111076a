use gor::error::GorError;
use gor::json::{Json, JsonNumber};
use gor::keys::{add_outcome, delete_outcome as key_delete, gpg_key_path, gpg_request_body, keys_path, list_outcome as key_list,
    ssh_key_path, ssh_request_body, KeyKind};
use gor::label::{create_outcome, update_outcome};
use gor::repository::RepoSplit;
use gor::request::{done_outcome, removal_outcome, ApiResponse};
use gor::search::{repos_path, search_outcome, search_path, urlencoding, urlencoding_helper, SearchKind};
use gor::secret::{delete_outcome as secret_delete, set_outcome as secret_set, set_request_body as secret_body};
use gor::variable::{delete_outcome as variable_delete, set_outcome as variable_set, set_request_body as variable_body};
use gor::workflow::{dispatch_request_body, view_outcome, workflow_action_path, workflow_path};

fn conv(v: &serde_json::Value) -> Json {
    match v {
        serde_json::Value::Null => Json::Null,
        serde_json::Value::Bool(b) => Json::Bool(*b),
        serde_json::Value::Number(n) => Json::Number(JsonNumber { text: n.to_string(), as_u64: n.as_u64() }),
        serde_json::Value::String(s) => Json::String(s.clone()),
        serde_json::Value::Array(a) => Json::Array(a.iter().map(conv).collect()),
        serde_json::Value::Object(m) => Json::Object(m.iter().map(|(k, v)| (k.clone(), conv(v))).collect()),
    }
}

fn back(v: &Json) -> serde_json::Value {
    match v {
        Json::Null => serde_json::Value::Null,
        Json::Bool(b) => serde_json::Value::Bool(*b),
        Json::Number(n) => serde_json::from_str(&n.text).expect("number"),
        Json::String(s) => serde_json::Value::String(s.clone()),
        Json::Array(a) => serde_json::Value::Array(a.iter().map(back).collect()),
        Json::Object(e) => serde_json::Value::Object(e.iter().map(|(k, v)| (k.clone(), back(v))).collect()),
    }
}

fn j(text: &str) -> Json {
    conv(&serde_json::from_str::<serde_json::Value>(text).expect("valid JSON"))
}

fn value(text: &str) -> serde_json::Value {
    serde_json::from_str(text).expect("valid JSON")
}

fn reply(status: u16, text: &str, body: Option<Json>) -> ApiResponse {
    ApiResponse { status, status_text: text.to_string(), body }
}

fn spec() -> RepoSplit {
    RepoSplit { owner: "octo".to_string(), repo: "hello".to_string() }
}

#[test]
fn key_requests_and_outcomes() {
    assert_eq!(keys_path(KeyKind::Ssh), "/user/keys");
    assert_eq!(keys_path(KeyKind::Gpg), "/user/gpg_keys");
    assert_eq!(ssh_key_path(12), "/user/keys/12");
    assert_eq!(gpg_key_path("ABCD"), "/user/gpg_keys/ABCD");
    assert_eq!(back(&ssh_request_body("laptop", "ssh-ed25519 AAA")), value(r#"{"title":"laptop","key":"ssh-ed25519 AAA"}"#));
    assert_eq!(back(&gpg_request_body("-----BEGIN")), value(r#"{"armored_public_key":"-----BEGIN"}"#));
    match key_list(KeyKind::Ssh, reply(200, "200 OK", Some(j(r#"[{"id":1,"title":"a","key":"k"}]"#)))) {
        Ok(v) => assert_eq!(v.len(), 1),
        Err(e) => panic!("unexpected {}", e.message()),
    }
    assert!(matches!(key_list(KeyKind::Ssh, reply(200, "200 OK", Some(j(r#"[{"id":1,"title":"a"}]"#)))), Err(GorError::Http(_))));
    assert!(matches!(key_list(KeyKind::Gpg, reply(200, "200 OK", Some(j(r#"[{"key_id":null},{}]"#)))), Ok(_)));
    assert!(matches!(key_list(KeyKind::Gpg, reply(401, "401 Unauthorized", None)),
        Err(GorError::InvalidInput(m)) if m == "failed to list GPG keys: HTTP 401 Unauthorized"));
    assert!(matches!(add_outcome(KeyKind::Ssh, reply(422, "422 Unprocessable Entity", Some(j(r#"{"message":"key is already in use"}"#)))),
        Err(GorError::InvalidInput(m)) if m == "failed to add SSH key: key is already in use"));
    assert!(matches!(add_outcome(KeyKind::Gpg, reply(422, "422 Unprocessable Entity", None)),
        Err(GorError::InvalidInput(m)) if m == "failed to add GPG key: add failed"));
    assert!(matches!(key_delete(KeyKind::Ssh, &reply(404, "404 Not Found", None)),
        Err(GorError::InvalidInput(m)) if m == "failed to delete SSH key: delete failed"));
    assert!(key_delete(KeyKind::Gpg, &reply(204, "204 No Content", None)).is_ok());
}

#[test]
fn search_encoding_paths_and_outcome() {
    assert_eq!(urlencoding_helper("a b&c"), "a+b%26c");
    assert_eq!(urlencoding("rust lang/é"), "rust+lang%2F%C3%A9");
    assert_eq!(repos_path("cli", "stars", "desc", 500), "/search/repositories?q=cli&sort=stars&order=desc&per_page=100");
    assert_eq!(search_path(SearchKind::Code, "fn main", 10), "/search/code?q=fn+main&per_page=10");
    assert_eq!(search_path(SearchKind::Issues, "bug", 10), "/search/issues?q=bug&per_page=10");
    assert_eq!(search_path(SearchKind::Commits, "fix", 10), "/search/commits?q=fix&per_page=10");
    match search_outcome(1, reply(200, "200 OK", Some(j(r#"{"items":[{"id":1},{"id":2}]}"#)))) {
        Ok(v) => assert_eq!(v.len(), 1),
        Err(e) => panic!("unexpected {}", e.message()),
    }
    assert!(matches!(search_outcome(1, reply(200, "200 OK", Some(j("{}")))), Ok(v) if v.is_empty()));
    assert!(matches!(search_outcome(1, reply(422, "422 Unprocessable Entity", None)),
        Err(GorError::InvalidInput(m)) if m == "search failed: HTTP 422 Unprocessable Entity"));
}

#[test]
fn workflow_requests_and_outcomes() {
    assert_eq!(workflow_path(&spec(), "ci.yml"), "/repos/octo/hello/actions/workflows/ci.yml");
    assert_eq!(workflow_action_path(&spec(), "ci.yml", "dispatches"), "/repos/octo/hello/actions/workflows/ci.yml/dispatches");
    assert_eq!(back(&dispatch_request_body("main")), value(r#"{"ref":"main"}"#));
    assert!(matches!(view_outcome("ci.yml", reply(404, "404 Not Found", None)),
        Err(GorError::NotFound(m)) if m == "workflow 'ci.yml' not found"));
    assert!(matches!(view_outcome("ci.yml", reply(500, "500 Internal Server Error", None)),
        Err(GorError::InvalidInput(m)) if m == "HTTP 500 Internal Server Error"));
    assert!(matches!(done_outcome("failed to enable workflow", 403, "403 Forbidden"),
        Err(GorError::InvalidInput(m)) if m == "failed to enable workflow: HTTP 403 Forbidden"));
    assert!(done_outcome("failed to enable workflow", 204, "204 No Content").is_ok());
    assert!(matches!(removal_outcome("thing", "x", 404, "404 Not Found"), Err(GorError::NotFound(m)) if m == "thing 'x' not found"));
}

#[test]
fn secret_and_variable_outcomes() {
    assert_eq!(back(&secret_body("s3cr3t")), value(r#"{"encrypted_value":"s3cr3t"}"#));
    assert_eq!(back(&variable_body("1.2")), value(r#"{"value":"1.2"}"#));
    assert!(secret_set("TOKEN", 201, "201 Created").is_ok());
    assert!(matches!(secret_set("TOKEN", 403, "403 Forbidden"),
        Err(GorError::InvalidInput(m)) if m == "failed to set secret 'TOKEN': HTTP 403 Forbidden"));
    assert!(matches!(variable_set("V", 500, "500 Internal Server Error"),
        Err(GorError::InvalidInput(m)) if m == "failed to set variable 'V': HTTP 500 Internal Server Error"));
    assert!(matches!(secret_delete("TOKEN", 404, "404 Not Found"), Err(GorError::NotFound(m)) if m == "secret 'TOKEN' not found"));
    assert!(matches!(variable_delete("V", 409, "409 Conflict"),
        Err(GorError::InvalidInput(m)) if m == "failed to delete variable 'V': HTTP 409 Conflict"));
    assert!(variable_delete("V", 204, "204 No Content").is_ok());
}

#[test]
fn label_create_and_update_outcomes() {
    let label = j(r#"{"name":"bug","color":"d73a4a","description":null}"#);
    assert!(matches!(create_outcome("bug", &spec(), reply(201, "201 Created", Some(label))), Ok(Json::Object(_))));
    assert!(matches!(create_outcome("bug", &spec(), reply(422, "422 Unprocessable Entity", None)),
        Err(GorError::InvalidInput(m)) if m == "label 'bug' already exists in 'octo/hello'"));
    assert!(matches!(create_outcome("bug", &spec(), reply(403, "403 Forbidden", Some(j(r#"{"message":"Must have admin rights"}"#)))),
        Err(GorError::InvalidInput(m)) if m == "failed to create label 'bug': Must have admin rights"));
    assert!(matches!(create_outcome("bug", &spec(), reply(201, "201 Created", Some(j(r#"{"name":"bug"}"#)))),
        Err(GorError::Http(_))));
    assert!(matches!(update_outcome("bug", &spec(), reply(404, "404 Not Found", None)),
        Err(GorError::NotFound(m)) if m == "label 'bug' not found in 'octo/hello'"));
    assert!(matches!(update_outcome("bug", &spec(), reply(500, "500 Internal Server Error", None)),
        Err(GorError::InvalidInput(m)) if m == "failed to edit label 'bug': edit failed"));
}

#[test]
fn label_deserialization_basic() {
    let json = j(r#"{"name":"bug","color":"d73a4a","description":"Something isn't working"}"#);
    let label = gor::label::decode_label(&json).expect("valid label");
    assert_eq!(label.name, "bug");
    assert_eq!(label.color, "d73a4a");
    assert_eq!(label.description.as_deref(), Some("Something isn't working"));
}

#[test]
fn label_deserialization_no_description() {
    let json = j(r#"{"name":"bug","color":"d73a4a"}"#);
    let label = gor::label::decode_label(&json).expect("valid label");
    assert_eq!(label.name, "bug");
    assert_eq!(label.color, "d73a4a");
    assert!(label.description.is_none());
}

#[test]
fn label_decoding_needs_name_and_color() {
    assert!(gor::label::decode_label(&j(r#"{"name":"bug"}"#)).is_none());
    assert!(gor::label::decode_label(&j(r#"{"name":"bug","color":"fff","description":5}"#)).is_none());
    assert!(gor::label::decode_label(&j(r#"["bug"]"#)).is_none());
    let null_desc = gor::label::decode_label(&j(r#"{"name":"a","color":"b","description":null,"default":true}"#));
    assert!(matches!(null_desc, Some(l) if l.description.is_none()));
}
