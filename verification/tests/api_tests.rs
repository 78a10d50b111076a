use gor::cli::ApiCommand;
use gor::request::header_pair;
use gor::cmd::api::{build_body, extract_path_from_url, next_link_readable, parse_next_link, urlencode};

fn cmd(method: &str, fields: Vec<String>, raw_fields: Vec<String>, input: Option<String>) -> ApiCommand {
    ApiCommand {
        endpoint: "/test".to_string(),
        method: method.to_string(),
        fields,
        raw_fields,
        headers: vec![],
        input,
        paginate: false,
        hostname: None,
        jq: None,
        template: None,
        silent: false,
        include_headers: false,
    }
}

#[test]
fn build_body_no_input() {
    let cmd = cmd("GET", vec![], vec![], None);
    let body = build_body(&cmd, None);
    assert!(body.is_none());
}

#[test]
fn build_body_with_fields() {
    let cmd = cmd("POST", vec!["name=hello".to_string(), "count=42".to_string()], vec![], None);
    let body = build_body(&cmd, None);
    let body_str = String::from_utf8(body.expect("body should be Some")).expect("valid utf8");
    assert!(body_str.contains("name=hello") || body_str.contains("name=hello"));
    assert!(body_str.contains("count=42"));
}

#[test]
fn build_body_with_raw_fields() {
    let cmd = cmd("POST", vec![], vec!["key=value".to_string(), "json=[1,2,3]".to_string()], None);
    let body = build_body(&cmd, None);
    let body_str = String::from_utf8(body.expect("body should be Some")).expect("valid utf8");
    assert!(body_str.contains("key=value"));
    assert!(body_str.contains("json=[1,2,3]"));
}

#[test]
fn build_body_input_takes_precedence() {
    let cmd = cmd("POST", vec!["should=notappear".to_string()], vec![], Some("@-".to_string()));
    // The input's contents, read by the caller, are the body.
    assert!(cmd.input.is_some());
    let body = build_body(&cmd, Some(b"from input".to_vec()));
    assert_eq!(body, Some(b"from input".to_vec()));
}

#[test]
fn build_body_field_without_value() {
    let cmd = cmd("POST", vec!["flag".to_string()], vec![], None);
    let body = build_body(&cmd, None);
    let body_str = String::from_utf8(body.expect("body should be Some")).expect("valid utf8");
    assert_eq!(body_str, "flag=");
}

#[test]
fn build_body_exact_forms() {
    let c = cmd("POST", vec!["a b=c&d".to_string(), "x=y=z".to_string()], vec![], None);
    assert_eq!(build_body(&c, None), Some(b"a+b=c%26d&x=y%3Dz".to_vec()));
    let r = cmd("POST", vec![], vec!["k=v w".to_string(), "bare".to_string()], None);
    assert_eq!(build_body(&r, None), Some(b"k=v w&bare=".to_vec()));
}

#[test]
fn urlencode_basic() {
    assert_eq!(urlencode("hello"), "hello");
    assert_eq!(urlencode("hello world"), "hello+world");
    assert_eq!(urlencode("a=b&c"), "a%3Db%26c");
    assert_eq!(urlencode(""), "");
}

#[test]
fn urlencode_special_chars() {
    assert_eq!(urlencode("foo/bar"), "foo%2Fbar");
    assert_eq!(urlencode("a b c"), "a+b+c");
    assert_eq!(urlencode("~test_123"), "~test_123");
}

#[test]
fn urlencode_multibyte() {
    assert_eq!(urlencode("é"), "%C3%A9");
}

#[test]
fn parse_next_link_no_header() {
    assert!(parse_next_link("").is_none());
}

#[test]
fn parse_next_link_with_next() {
    let link = "<https://api.github.com/repos/owner/repo/issues?page=2>; rel=\"next\", <https://api.github.com/repos/owner/repo/issues?page=5>; rel=\"last\"";
    assert_eq!(
        parse_next_link(link),
        Some("https://api.github.com/repos/owner/repo/issues?page=2".to_string())
    );
}

#[test]
fn parse_next_link_no_next() {
    let link = "<https://api.github.com/repos/owner/repo/issues?page=1>; rel=\"first\", <https://api.github.com/repos/owner/repo/issues?page=5>; rel=\"last\"";
    assert!(parse_next_link(link).is_none());
}

#[test]
fn parse_next_link_unquoted_and_malformed() {
    assert_eq!(parse_next_link("  <u2>; rel=next "), Some("u2".to_string()));
    assert!(!next_link_readable(">x<; rel=\"next\""));
    assert!(next_link_readable("<a>; rel=\"last\""));
}

#[test]
fn extract_path_from_url_github() {
    let url = "https://api.github.com/repos/owner/repo/issues?page=2";
    assert_eq!(extract_path_from_url(url), "/repos/owner/repo/issues?page=2");
}

#[test]
fn extract_path_from_url_ghes() {
    let url = "https://github.example.com/api/v3/repos/owner/repo/issues";
    assert_eq!(extract_path_from_url(url), "/repos/owner/repo/issues");
}

#[test]
fn extract_path_from_url_relative() {
    let url = "/repos/owner/repo";
    assert_eq!(extract_path_from_url(url), "/repos/owner/repo");
}

#[test]
fn extract_path_from_url_api_prefix_and_no_path() {
    assert_eq!(extract_path_from_url("https://h.example/api/graphql"), "/graphql");
    assert_eq!(extract_path_from_url("https://h.example"), "https://h.example");
}

#[test]
fn header_pairs_split_at_the_first_colon() {
    assert_eq!(header_pair("Accept: application/json"), Some(("Accept".to_string(), "application/json".to_string())));
    assert_eq!(header_pair("  X-Time :  10:30 "), Some(("X-Time".to_string(), "10:30".to_string())));
    assert_eq!(header_pair("Empty:"), Some(("Empty".to_string(), String::new())));
    assert_eq!(header_pair("no colon here"), None);
}

#[test]
fn build_body_takes_input_only_when_input_was_asked_for() {
    let fields = cmd("POST", vec!["a=b".to_string()], vec![], None);
    assert_eq!(build_body(&fields, Some(b"stray".to_vec())), Some(b"a=b".to_vec()));
}
