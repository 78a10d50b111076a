use gor::cmd::flow::Step;
use gor::cmd::release::{asset_download, asset_file_name, by_id_result, by_tag_result, check_upload, confirmed,
    content_type, create_body, create_result, delete_path, delete_prompt, delete_result, download_assets,
    download_failure, edit_body, edit_result, filter_releases, id_path, list_path, list_result, notes_source,
    progress_message, release_id, skipping_message, tag_path, upload_result, upload_url, upload_url_template, view_by_id, web_url,
    NotesSource};
use gor::json::{Json, JsonNumber};
use gor::repository::RepoSplit;
use gor::request::ApiResponse;

fn conv(v: &serde_json::Value) -> Json {
    match v {
        serde_json::Value::Null => Json::Null,
        serde_json::Value::Bool(b) => Json::Bool(*b),
        serde_json::Value::Number(n) => Json::Number(JsonNumber { text: n.to_string(), as_u64: n.as_u64() }),
        serde_json::Value::String(s) => Json::String(s.clone()),
        serde_json::Value::Array(a) => Json::Array(a.iter().map(conv).collect()),
        serde_json::Value::Object(m) => Json::Object(m.iter().map(|(k, v)| (k.clone(), conv(v))).collect()),
    }
}

fn back(v: &Json) -> serde_json::Value {
    match v {
        Json::Null => serde_json::Value::Null,
        Json::Bool(b) => serde_json::Value::Bool(*b),
        Json::Number(n) => serde_json::from_str(&n.text).expect("number"),
        Json::String(s) => serde_json::Value::String(s.clone()),
        Json::Array(a) => serde_json::Value::Array(a.iter().map(back).collect()),
        Json::Object(e) => serde_json::Value::Object(e.iter().map(|(k, v)| (k.clone(), back(v))).collect()),
    }
}

fn j(text: &str) -> Json {
    conv(&serde_json::from_str::<serde_json::Value>(text).expect("valid JSON"))
}

fn value(text: &str) -> serde_json::Value {
    serde_json::from_str(text).expect("valid JSON")
}

fn items(text: &str) -> Vec<Json> {
    match j(text) {
        Json::Array(v) => v,
        _ => panic!("not an array"),
    }
}

fn reply(status: u16, text: &str, body: Option<Json>) -> ApiResponse {
    ApiResponse { status, status_text: text.to_string(), body }
}

fn spec() -> RepoSplit {
    RepoSplit { owner: "octo".to_string(), repo: "hello".to_string() }
}

fn some(s: &str) -> Option<String> {
    Some(s.to_string())
}

fn tags(rs: &[Json]) -> Vec<String> {
    rs.iter().map(|r| r.str_member("tag_name").unwrap_or("").to_string()).collect()
}

#[test]
fn release_list_path_and_filters() {
    assert_eq!(list_path(&spec(), 30), "/repos/octo/hello/releases?per_page=30");
    assert_eq!(list_path(&spec(), 1000), "/repos/octo/hello/releases?per_page=100");
    let rs = || items(r#"[{"tag_name":"v3","draft":true},{"tag_name":"v2","prerelease":true},{"tag_name":"v1"},
        {"tag_name":"v0"}]"#);
    assert_eq!(tags(&filter_releases(rs(), false, false, 30)), vec!["v3", "v2", "v1", "v0"]);
    assert_eq!(tags(&filter_releases(rs(), true, false, 30)), vec!["v2", "v1", "v0"]);
    assert_eq!(tags(&filter_releases(rs(), true, true, 30)), vec!["v1", "v0"]);
    assert_eq!(tags(&filter_releases(rs(), true, true, 1)), vec!["v1"]);
    assert!(matches!(list_result(&spec(), false, false, 30, &None, reply(404, "404 Not Found", None)),
        Step::Fail(m) if m == "repository 'octo/hello' not found"));
    assert!(matches!(list_result(&spec(), false, false, 30, &None, reply(500, "500 Internal Server Error", None)),
        Step::Fail(m) if m == "failed to list releases for 'octo/hello': HTTP 500 Internal Server Error"));
    assert!(matches!(list_result(&spec(), false, false, 30, &None, reply(200, "200 OK", Some(j("{}")))),
        Step::Fail(m) if m == "failed to parse releases response"));
    assert!(matches!(list_result(&spec(), false, false, 30, &None, reply(200, "200 OK", Some(j("[]")))),
        Step::Print(l) if l == vec!["No releases found.".to_string()]));
}

#[test]
fn release_lookup_by_tag_and_id() {
    assert_eq!(tag_path(&spec(), "v1.0"), "/repos/octo/hello/releases/tags/v1.0");
    assert_eq!(id_path(&spec(), 42), "/repos/octo/hello/releases/42");
    assert_eq!(by_tag_result("v1.0", &None), None);
    assert_eq!(by_tag_result("v1.0", &Some(reply(404, "404 Not Found", None))), None);
    assert_eq!(by_tag_result("v1.0", &Some(reply(200, "200 OK", Some(j(r#"{"id":7,"tag_name":"v1.0.0"}"#))))),
        Some(Ok((7, "v1.0.0".to_string()))));
    assert_eq!(by_tag_result("v1.0", &Some(reply(200, "200 OK", Some(j(r#"{"id":7}"#))))), Some(Ok((7, "v1.0".to_string()))));
    assert_eq!(by_tag_result("v1.0", &Some(reply(200, "200 OK", Some(j("{}"))))),
        Some(Err("release response missing 'id' field".to_string())));
    assert_eq!(release_id("123"), Ok(123));
    assert_eq!(release_id("v1"), Err("release not found by tag; provide a valid numeric release ID".to_string()));
    assert_eq!(by_id_result("123", &spec(), 123, &reply(404, "404 Not Found", None)),
        Err("release '123' not found in 'octo/hello'".to_string()));
    assert_eq!(by_id_result("123", &spec(), 123, &reply(200, "200 OK", Some(j(r#"{"tag_name":"v9"}"#)))),
        Ok((123, "v9".to_string())));
    assert_eq!(by_id_result("123", &spec(), 123, &reply(502, "502 Bad Gateway", None)),
        Err("failed to resolve release '123': HTTP 502 Bad Gateway".to_string()));
}

#[test]
fn release_delete() {
    assert_eq!(delete_path(&spec(), 5, false), "/repos/octo/hello/releases/5");
    assert_eq!(delete_path(&spec(), 5, true), "/repos/octo/hello/releases/5?skip_tag=true");
    assert_eq!(delete_prompt("v1", 5, &spec()), "Delete release 'v1' (ID: 5) from 'octo/hello'? [y/N] ");
    assert!(confirmed(" Y\n"));
    assert!(confirmed("yes"));
    assert!(!confirmed("no"));
    assert!(!confirmed(""));
    assert_eq!(delete_result("v1", &spec(), "v1", true, 204, "204 No Content"),
        Ok(Some("\u{2713} Deleted release 'v1' (git tag preserved)".to_string())));
    assert_eq!(delete_result("v1", &spec(), "v1", false, 204, "204 No Content"),
        Ok(Some("\u{2713} Deleted release 'v1'".to_string())));
    assert_eq!(delete_result("v1", &spec(), "v1", false, 404, "404 Not Found"),
        Err("release 'v1' not found in 'octo/hello'".to_string()));
    assert_eq!(delete_result("v1", &spec(), "v1", false, 403, "403 Forbidden"),
        Err("failed to delete release 'v1': HTTP 403 Forbidden".to_string()));
    assert_eq!(delete_result("v1", &spec(), "v1", false, 200, "200 OK"), Ok(None));
}

#[test]
fn release_bodies_and_results() {
    assert!(matches!(notes_source(some("text"), some("-")), NotesSource::Stdin));
    assert!(matches!(notes_source(some("text"), some("notes.md")), NotesSource::File(f) if f == "notes.md"));
    assert!(matches!(notes_source(some("text"), None), NotesSource::Text(t) if t == "text"));
    assert!(matches!(notes_source(None, None), NotesSource::Nothing));
    assert_eq!(back(&create_body("v1", &None, &some("notes"), true, false, &None, &some("Announcements"))),
        value(r#"{"tag_name":"v1","name":"v1","body":"notes","draft":true,"discussion_category_name":"Announcements"}"#));
    assert_eq!(back(&create_body("v1", &some("One"), &None, false, true, &some("main"), &None))
        , value(r#"{"tag_name":"v1","name":"One","prerelease":true,"target_commitish":"main"}"#));
    assert_eq!(edit_body(&None, &None, None, None, &None, &None).map(|b| back(&b)),
        Err("no changes specified; use --title, --notes, --draft, --prerelease, --tag, or --target".to_string()));
    assert_eq!(edit_body(&some("T"), &None, Some(false), None, &None, &None).map(|b| back(&b)),
        Ok(value(r#"{"name":"T","draft":false}"#)));
    assert_eq!(create_result(&spec(), &reply(201, "201 Created", Some(j(r#"{"html_url":"https://x/r/1"}"#)))),
        Ok("https://x/r/1".to_string()));
    assert_eq!(create_result(&spec(), &reply(201, "201 Created", Some(j("{}")))), Ok("(unknown URL)".to_string()));
    assert_eq!(create_result(&spec(), &reply(404, "404 Not Found", None)), Err("repository 'octo/hello' not found".to_string()));
    assert_eq!(create_result(&spec(), &reply(422, "422 Unprocessable Entity", Some(j(r#"{"message":"tag exists"}"#)))),
        Err("failed to create release: tag exists".to_string()));
    assert_eq!(edit_result("v1", &spec(), &reply(200, "200 OK", Some(j(r#"{"html_url":"https://x/r/1"}"#)))),
        Ok("\u{2713} Release updated: https://x/r/1".to_string()));
    assert_eq!(edit_result("v1", &spec(), &reply(200, "200 OK", None)), Err("failed to parse response".to_string()));
}

#[test]
fn release_upload() {
    assert_eq!(check_upload(&vec![], &None), Err("no files specified for upload".to_string()));
    assert_eq!(check_upload(&vec!["a".to_string(), "b".to_string()], &some("x")),
        Err("--name can only be used with a single file upload".to_string()));
    assert_eq!(check_upload(&vec!["a".to_string()], &some("x")), Ok(()));
    assert_eq!(asset_file_name(&None, "dist/app.tar.gz"), "app.tar.gz");
    assert_eq!(asset_file_name(&None, "/"), "/");
    assert_eq!(asset_file_name(&some("custom.zip"), "dist/app.tar.gz"), "custom.zip");
    assert_eq!(content_type(&None, "app.zip"), "application/zip");
    assert_eq!(content_type(&some("text/x"), "app.zip"), "text/x");
    assert_eq!(upload_url_template(&Some(j(r#"{"upload_url":"https://uploads/x/assets{?name,label}"}"#))),
        Ok("https://uploads/x/assets{?name,label}".to_string()));
    assert_eq!(upload_url_template(&Some(j("{}"))), Err("release response missing 'upload_url'".to_string()));
    assert_eq!(upload_url_template(&None), Err("failed to parse release response".to_string()));
    assert_eq!(upload_url("https://uploads/x/assets{?name,label}", "app.zip"), "https://uploads/x/assets?name=app.zip");
    assert_eq!(upload_result("app.zip", "v1", &reply(422, "422 Unprocessable Entity", None)),
        Err("asset 'app.zip' already exists on release 'v1'; use a different name or delete the existing asset first".to_string()));
    assert_eq!(upload_result("app.zip", "v1", &reply(500, "500 Internal Server Error", None)),
        Err("failed to upload 'app.zip': upload failed".to_string()));
    assert_eq!(upload_result("app.zip", "v1", &reply(201, "201 Created", Some(j(r#"{"browser_download_url":"https://dl/app.zip"}"#)))),
        Ok("https://dl/app.zip".to_string()));
}

#[test]
fn release_download() {
    let body = j(r#"{"assets":[{"name":"app-linux.tar.gz","browser_download_url":"https://dl/1","size":10},
        {"name":"app-mac.zip","browser_download_url":"https://dl/2"},{"name":"checksums.txt"}]}"#);
    match download_assets(Some(body), &vec!["*.tar.gz".to_string(), "*.zip".to_string()]) {
        Ok(sel) => assert_eq!(sel.len(), 2),
        Err(m) => panic!("unexpected {}", m),
    }
    assert!(matches!(download_assets(Some(j(r#"{"assets":[]}"#)), &vec![]),
        Err(m) if m == "release has no assets to download"));
    assert!(matches!(download_assets(Some(j(r#"{"assets":[{"name":"a.txt"}]}"#)), &vec!["*.zip".to_string()]),
        Err(m) if m == "no assets match the given pattern(s)"));
    assert!(matches!(download_assets(None, &vec![]), Err(m) if m == "failed to parse release response"));
    let d = asset_download(&j(r#"{"name":"a.zip","browser_download_url":"https://dl/a","size":3}"#)).expect("download");
    assert_eq!((d.name.as_str(), d.url.as_str(), d.size), ("a.zip", "https://dl/a", 3));
    let names = |v: Vec<Json>| v.iter().map(|a| match a {
        Json::Object(e) => e.iter().find(|(k, _)| k == "name").map(|(_, v)| match v { Json::String(s) => s.clone(), _ => String::new() })
            .unwrap_or_default(),
        _ => String::new(),
    }).collect::<Vec<String>>();
    let body = j(r#"{"assets":[{"name":"app.zip"},{"name":"app-é.zip"},{"name":"app-"}]}"#);
    assert_eq!(names(download_assets(Some(body), &vec!["app*.zip".to_string()]).expect("selection")),
        vec!["app.zip".to_string(), "app-é.zip".to_string()]);
    let unnamed = asset_download(&j(r#"{"browser_download_url":"https://dl/b"}"#)).expect("download");
    assert_eq!((unnamed.name.as_str(), unnamed.size), ("unknown", 0));
    assert!(matches!(asset_download(&j(r#"{"name":"a"}"#)), Err(m) if m == "asset missing download URL"));
    assert_eq!(skipping_message("a.zip"), "Skipping a.zip (already exists)");
    assert_eq!(download_failure("a.zip", "404 Not Found"), "failed to download 'a.zip': HTTP 404 Not Found");
}

#[test]
fn release_view_lookup_and_web() {
    assert_eq!(web_url("github.com", &spec(), "v1"), "https://github.com/octo/hello/releases/tag/v1");
    assert!(matches!(view_by_id("9", &spec(), reply(404, "404 Not Found", None)),
        Err(m) if m == "release '9' not found in 'octo/hello'"));
    assert!(matches!(view_by_id("9", &spec(), reply(500, "500 Internal Server Error", None)),
        Err(m) if m == "failed to view release '9': HTTP 500 Internal Server Error"));
    assert!(matches!(view_by_id("9", &spec(), reply(200, "200 OK", Some(j("{}")))), Ok(Json::Object(_))));
}

#[test]
fn release_progress_messages() {
    assert_eq!(progress_message(true, "app.tar.gz", 5_242_880), "Uploading app.tar.gz (5.0 MB) ... ");
    assert_eq!(progress_message(false, "notes.txt", 512), "Downloading notes.txt (512 B) ... ");
    assert_eq!(progress_message(false, "big.iso", 3_221_225_472), "Downloading big.iso (3.0 GB) ... ");
}
