use gor::cmd::config::{listing, Listing};
use gor::cmd::flow::json_output;
use gor::cmd::gist::gist_table_lines;
use gor::cmd::label::label_table_lines;
use gor::cmd::release::{release_table_lines, release_view_lines};
use gor::cmd::workflow::workflow_table_lines;
use gor::config::GorConfig;
use gor::json::{Json, JsonNumber};

fn conv(v: &serde_json::Value) -> Json {
    match v {
        serde_json::Value::Null => Json::Null,
        serde_json::Value::Bool(b) => Json::Bool(*b),
        serde_json::Value::Number(n) => Json::Number(JsonNumber { text: n.to_string(), as_u64: n.as_u64() }),
        serde_json::Value::String(s) => Json::String(s.clone()),
        serde_json::Value::Array(a) => Json::Array(a.iter().map(conv).collect()),
        serde_json::Value::Object(m) => Json::Object(m.iter().map(|(k, v)| (k.clone(), conv(v))).collect()),
    }
}

fn back(v: &Json) -> serde_json::Value {
    match v {
        Json::Null => serde_json::Value::Null,
        Json::Bool(b) => serde_json::Value::Bool(*b),
        Json::Number(n) => serde_json::from_str(&n.text).expect("number"),
        Json::String(s) => serde_json::Value::String(s.clone()),
        Json::Array(a) => serde_json::Value::Array(a.iter().map(back).collect()),
        Json::Object(e) => serde_json::Value::Object(e.iter().map(|(k, v)| (k.clone(), back(v))).collect()),
    }
}

fn j(text: &str) -> Json {
    conv(&serde_json::from_str::<serde_json::Value>(text).expect("valid JSON"))
}

fn value(text: &str) -> serde_json::Value {
    serde_json::from_str(text).expect("valid JSON")
}

fn items(text: &str) -> Vec<Json> {
    match j(text) {
        Json::Array(v) => v,
        _ => panic!("not an array"),
    }
}

fn strings(v: &[&str]) -> Vec<String> {
    v.iter().map(|s| s.to_string()).collect()
}

fn cut(s: &str, max: usize) -> String {
    if s.chars().count() <= max {
        s.to_string()
    } else {
        let mut t: String = s.chars().take(max).collect();
        t.push('\u{2026}');
        t
    }
}

const DASH: &str = "\u{2014}";

fn release_header() -> String {
    format!("{:<20}  {:<40}  {:<16}  {:<12}", "TAG", "NAME", "PUBLISHED", "STATUS")
}

fn release_line(tag: &str, name: &str, published: &str, status: &str) -> String {
    format!("{:<20}  {:<40}  {:<16}  {:<12}", cut(tag, 20), cut(name, 40), published, status)
}

#[test]
fn print_release_table_basic() {
    let lines = release_table_lines(&items(r#"[{"tag_name":"v1.0.0","name":"First Release",
        "published_at":"2024-01-15T10:30:00Z","draft":false,"prerelease":false}]"#));
    assert_eq!(lines, vec![release_header(), release_line("v1.0.0", "First Release", "Jan 15, 2024", "Latest")]);
}

#[test]
fn print_release_table_empty() {
    assert_eq!(release_table_lines(&vec![]), strings(&["No releases found."]));
}

#[test]
fn print_release_table_multiple() {
    let lines = release_table_lines(&items(r#"[
        {"tag_name":"v1.0.0","name":"First Release","published_at":"2024-01-15T10:30:00Z","draft":false,"prerelease":false},
        {"tag_name":"v2.0.0-beta","name":"Beta Release","published_at":"2024-03-01T00:00:00Z","draft":false,"prerelease":true},
        {"tag_name":"v2.0.0-wip","name":"Work in Progress","published_at":null,"draft":true,"prerelease":false}]"#));
    assert_eq!(lines, vec![
        release_header(),
        release_line("v1.0.0", "First Release", "Jan 15, 2024", "Latest"),
        release_line("v2.0.0-beta", "Beta Release", "Mar 1, 2024", "Pre-release"),
        release_line("v2.0.0-wip", "Work in Progress", DASH, "Draft"),
    ]);
}

#[test]
fn print_release_table_null_fields() {
    let lines = release_table_lines(&items(r#"[{"tag_name":null,"name":null,"published_at":null,"draft":null,"prerelease":null}]"#));
    assert_eq!(lines, vec![release_header(), release_line(DASH, DASH, DASH, "Latest")]);
}

fn asset_line(name: &str, size: &str, downloads: &str) -> String {
    format!("  {:<40}  {:>12}  {:>12}", cut(name, 40), size, downloads)
}

#[test]
fn print_release_view_basic() {
    let release = j(r#"{"tag_name":"v1.0.0","name":"First Release","body":"Release notes here",
        "html_url":"https://github.com/owner/repo/releases/tag/v1.0.0","published_at":"2024-01-15T10:30:00Z",
        "author":{"login":"octocat"},"draft":false,"prerelease":false,"assets":[
        {"name":"app-linux-amd64.tar.gz","size":5242880,"download_count":42},
        {"name":"app-darwin-amd64.tar.gz","size":4194304,"download_count":18}]}"#);
    let lines = release_view_lines(&release);
    assert_eq!(lines, vec![
        "Tag:       v1.0.0".to_string(),
        "Name:      First Release".to_string(),
        "Status:    Latest".to_string(),
        "Published: Jan 15, 2024".to_string(),
        "Author:    octocat".to_string(),
        "URL:       https://github.com/owner/repo/releases/tag/v1.0.0".to_string(),
        String::new(),
        "Release notes here".to_string(),
        String::new(),
        "Assets:".to_string(),
        format!("  {:<40}  {:>12}  {:>12}", "NAME", "SIZE", "DOWNLOADS"),
        asset_line("app-linux-amd64.tar.gz", "5.0 MB", "42"),
        asset_line("app-darwin-amd64.tar.gz", "4.0 MB", "18"),
    ]);
}

#[test]
fn print_release_view_draft() {
    let release = j(r#"{"tag_name":"v2.0.0-beta","name":null,"body":"",
        "html_url":"https://github.com/owner/repo/releases/tag/v2.0.0-beta","published_at":null,"author":null,
        "draft":true,"prerelease":false,"assets":[]}"#);
    let lines = release_view_lines(&release);
    assert_eq!(lines, vec![
        "Tag:       v2.0.0-beta".to_string(),
        format!("Name:      {DASH}"),
        "Status:    Draft".to_string(),
        format!("Published: {DASH}"),
        format!("Author:    {DASH}"),
        "URL:       https://github.com/owner/repo/releases/tag/v2.0.0-beta".to_string(),
    ]);
}

#[test]
fn print_release_view_prerelease() {
    let release = j(r#"{"tag_name":"v2.0.0-rc1","name":"Release Candidate 1","body":"Pre-release testing",
        "html_url":"https://github.com/owner/repo/releases/tag/v2.0.0-rc1","published_at":"2024-06-01T00:00:00Z",
        "author":{"login":"devbot"},"draft":false,"prerelease":true,"assets":null}"#);
    let lines = release_view_lines(&release);
    assert_eq!(lines, vec![
        "Tag:       v2.0.0-rc1".to_string(),
        "Name:      Release Candidate 1".to_string(),
        "Status:    Pre-release".to_string(),
        "Published: Jun 1, 2024".to_string(),
        "Author:    devbot".to_string(),
        "URL:       https://github.com/owner/repo/releases/tag/v2.0.0-rc1".to_string(),
        String::new(),
        "Pre-release testing".to_string(),
    ]);
}

#[test]
fn print_workflow_table_basic() {
    let lines = workflow_table_lines(&items(r#"[{"id":12345,"name":"CI","state":"active"},
        {"id":67890,"name":"Deploy","state":"active"}]"#));
    assert_eq!(lines, vec![
        format!("{:<8}  {:<40}  {:<12}", "ID", "NAME", "STATE"),
        format!("{:<8}  {:<40}  {:<12}", "12345", "CI", "active"),
        format!("{:<8}  {:<40}  {:<12}", "67890", "Deploy", "active"),
    ]);
    let missing = workflow_table_lines(&items(r#"[{"name":null}]"#));
    assert_eq!(missing[1], format!("{:<8}  {:<40}  {:<12}", "0", DASH, DASH));
}

#[test]
fn print_workflow_table_empty() {
    assert_eq!(workflow_table_lines(&vec![]), strings(&["No workflows found."]));
}

fn gist_header() -> String {
    format!("{:<16}  {:<40}  {:>8}  {:>16}", "ID", "DESCRIPTION", "FILES", "UPDATED")
}

fn gist_line(id: &str, desc: &str, files: usize, updated: &str) -> String {
    format!("{:<16}  {:<40}  {:>8}  {:>16}", id, cut(desc, 40), files, updated)
}

#[test]
fn print_gist_table_basic() {
    let lines = gist_table_lines(&items(r#"[{"id":"abc123","description":"My first gist",
        "files":{"hello.py":{"filename":"hello.py"}},"updated_at":"2024-01-15T10:30:00Z","public":false}]"#));
    assert_eq!(lines, vec![gist_header(), gist_line("abc123", "My first gist", 1, "Jan 15, 2024")]);
}

#[test]
fn print_gist_table_empty() {
    assert_eq!(gist_table_lines(&vec![]), strings(&["No gists found."]));
}

#[test]
fn print_gist_table_multiple() {
    let lines = gist_table_lines(&items(r#"[
        {"id":"abc123","description":"My first gist","files":{"hello.py":{}},"updated_at":"2024-01-15T10:30:00Z","public":true},
        {"id":"def456","description":null,"files":{"a.rs":{},"b.rs":{},"c.rs":{}},"updated_at":"2024-03-01T00:00:00Z","public":false}]"#));
    assert_eq!(lines, vec![
        gist_header(),
        gist_line("abc123", "My first gist", 1, "Jan 15, 2024"),
        gist_line("def456", DASH, 3, "Mar 1, 2024"),
    ]);
}

fn label_header() -> String {
    format!("{:<24}  {:<10}  {:<60}", "NAME", "COLOR", "DESCRIPTION")
}

fn label_line(name: &str, color: &str, desc: &str) -> String {
    format!("{:<24}  #{:<10}  {:<60}", cut(name, 24), color, cut(desc, 60))
}

#[test]
fn label_print_label_table_basic() {
    let lines = label_table_lines(&items(r#"[{"name":"bug","color":"d73a4a","description":"Something isn't working"}]"#));
    assert_eq!(lines, vec![label_header(), label_line("bug", "d73a4a", "Something isn't working")]);
}

#[test]
fn label_print_label_table_empty() {
    assert_eq!(label_table_lines(&vec![]), strings(&["No labels found."]));
}

#[test]
fn label_print_label_table_multiple() {
    let lines = label_table_lines(&items(r#"[
        {"name":"bug","color":"d73a4a","description":"Something isn't working"},
        {"name":"enhancement","color":"a2eeef","description":"New feature or request"},
        {"name":"documentation","color":"0075ca","description":"Improvements or additions to documentation"}]"#));
    assert_eq!(lines, vec![
        label_header(),
        label_line("bug", "d73a4a", "Something isn't working"),
        label_line("enhancement", "a2eeef", "New feature or request"),
        label_line("documentation", "0075ca", "Improvements or additions to documentation"),
    ]);
}

#[test]
fn label_print_label_table_null_fields() {
    let lines = label_table_lines(&items(r#"[{"name":null,"color":null,"description":null}]"#));
    assert_eq!(lines, vec![label_header(), label_line(DASH, DASH, DASH)]);
    let no_description = label_table_lines(&items(r#"[{"name":"nonesuch","color":"ffffff","description":null}]"#));
    assert_eq!(no_description[1], label_line("nonesuch", "ffffff", DASH));
}

fn yaml(s: &str) -> serde_yaml_ng::Value {
    serde_yaml_ng::Value::String(s.to_string())
}

#[test]
fn print_config_empty() {
    let config = GorConfig::default();
    assert!(matches!(listing(&config, None), Listing::Comment(m) if m == "# No configuration set"));
}

#[test]
fn print_config_with_global() {
    let mut config = GorConfig::default();
    gor::config::set(&mut config, "editor", yaml("vim"), None);
    assert!(matches!(listing(&config, None), Listing::Everything));
    assert!(matches!(listing(&config, Some("github.com")),
        Listing::Comment(m) if m == "# No host-scoped config for 'github.com'"));
}

#[test]
fn print_config_host_scoped() {
    let mut config = GorConfig::default();
    gor::config::set(&mut config, "editor", yaml("code"), Some("github.com"));
    assert!(matches!(listing(&config, Some("github.com")), Listing::HostValues));
    assert!(matches!(listing(&config, None), Listing::Everything));
    assert!(matches!(listing(&config, Some("ghe.example.com")),
        Listing::Comment(m) if m == "# No host-scoped config for 'ghe.example.com'"));
}

#[test]
fn print_json_full_output() {
    let data = j(r#"{"name":"hello-world","stars":42,"forks":7}"#);
    assert_eq!(back(&json_output(data, &None)), value(r#"{"name":"hello-world","stars":42,"forks":7}"#));
}

#[test]
fn print_json_with_fields() {
    let data = j(r#"{"name":"hello-world","stars":42,"forks":7}"#);
    let out = json_output(data, &Some(strings(&["name", "stars"])));
    assert_eq!(back(&out), value(r#"{"name":"hello-world","stars":42}"#));
}

#[test]
fn print_json_with_empty_fields() {
    let data = j(r#"{"name":"hello-world","stars":42}"#);
    assert_eq!(back(&json_output(data, &Some(vec![]))), value(r#"{"name":"hello-world","stars":42}"#));
}

#[test]
fn print_json_with_missing_field() {
    let data = j(r#"{"name":"hello-world"}"#);
    let out = json_output(data, &Some(strings(&["name", "missing"])));
    assert_eq!(back(&out), value(r#"{"name":"hello-world"}"#));
    let list = json_output(j(r#"[{"name":"a"}]"#), &Some(strings(&["name"])));
    assert_eq!(back(&list), value("{}"));
}
