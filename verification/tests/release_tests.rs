use gor::cmd::release::{detect_mime_type, glob_match, glob_match_impl};

#[test]
fn detect_mime_type_common() {
    assert_eq!(detect_mime_type("app.zip"), "application/zip");
    assert_eq!(detect_mime_type("app.tar.gz"), "application/gzip");
    assert_eq!(detect_mime_type("app.dmg"), "application/x-apple-diskimage");
    assert_eq!(detect_mime_type("app.deb"), "application/vnd.debian.binary-package");
    assert_eq!(detect_mime_type("app.msi"), "application/x-msi");
    assert_eq!(detect_mime_type("app.exe"), "application/x-msdownload");
    assert_eq!(detect_mime_type("app.txt"), "text/plain");
    assert_eq!(detect_mime_type("app.json"), "application/json");
    assert_eq!(detect_mime_type("app.png"), "image/png");
    assert_eq!(detect_mime_type("app.jpg"), "image/jpeg");
    assert_eq!(detect_mime_type("app.pdf"), "application/pdf");
}

#[test]
fn detect_mime_type_unknown() {
    assert_eq!(detect_mime_type("app.xyz"), "application/octet-stream");
    assert_eq!(detect_mime_type("app"), "application/octet-stream");
}

#[test]
fn detect_mime_type_case_and_dotfile() {
    assert_eq!(detect_mime_type("SETUP.EXE"), "application/x-msdownload");
    assert_eq!(detect_mime_type(".zip"), "application/octet-stream");
    assert_eq!(detect_mime_type("dir/pkg.tgz"), "application/gzip");
}

#[test]
fn glob_match_exact() {
    assert!(glob_match("app.zip", "app.zip"));
    assert!(!glob_match("app.zip", "app.tar.gz"));
}

#[test]
fn glob_match_star() {
    assert!(glob_match("*.zip", "app.zip"));
    assert!(glob_match("*.tar.gz", "app.tar.gz"));
    assert!(!glob_match("*.zip", "app.tar.gz"));
    assert!(glob_match("app-*", "app-linux-amd64"));
}

#[test]
fn glob_match_question() {
    assert!(glob_match("app.???", "app.zip"));
    assert!(!glob_match("app.???", "app.tar.gz"));
}

#[test]
fn glob_match_case_insensitive() {
    assert!(glob_match("*.ZIP", "app.zip"));
    assert!(glob_match("App-*", "app-linux"));
}

#[test]
fn glob_star_matches_any_run_of_characters() {
    assert!(glob_match("app*.zip", "app.zip"));
    assert!(glob_match("*a", "a"));
    assert!(glob_match_impl("*", ""));
    assert!(glob_match_impl("a**b", "ab"));
    assert!(glob_match_impl("a*b*c", "axxbyyc"));
    assert!(!glob_match_impl("a*b*c", "axxbyy"));
}

#[test]
fn glob_star_needs_the_rest_of_the_pattern() {
    assert!(!glob_match_impl("a*x", "a"));
    assert!(!glob_match("app-*.tar.gz", "app-"));
    assert!(!glob_match("*.zip", ""));
}

#[test]
fn glob_on_multibyte_names() {
    assert!(!glob_match("*x", "aéb"));
    assert!(glob_match("*b", "aéb"));
    assert!(glob_match("*", "aéb"));
    assert!(glob_match("a?b", "aéb"));
    assert!(glob_match("a.zip", "a.zip"));
}
