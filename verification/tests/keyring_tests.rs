use gor::keyring_store::{delete_token, get_token, get_user, set_token, set_user, HostsFile};

#[test]
fn get_token_no_entry_returns_none() {
    let hosts = HostsFile::default();
    let result = get_token(&hosts, "gor-test-nonexistent-host.invalid");
    assert!(result.is_none());
}

#[test]
fn set_and_get_token() {
    let mut hosts = HostsFile::default();
    let host = "gor-test-token.invalid";
    set_token(&mut hosts, host, "test-token-123");
    let token = get_token(&hosts, host);
    assert_eq!(token, Some("test-token-123".to_string()));
}

#[test]
fn delete_token_removes_entry() {
    let mut hosts = HostsFile::default();
    let host = "gor-test-delete.invalid";
    set_token(&mut hosts, host, "test-token-456");
    delete_token(&mut hosts, host);
    let token = get_token(&hosts, host);
    assert!(token.is_none());
}

#[test]
fn set_and_get_user() {
    let mut hosts = HostsFile::default();
    let host = "gor-test-user.invalid";
    set_user(&mut hosts, host, "testuser");
    let user = get_user(&hosts, host);
    assert_eq!(user, Some("testuser".to_string()));
}

#[test]
fn token_and_user_live_side_by_side() {
    let mut hosts = HostsFile::default();
    set_user(&mut hosts, "h", "octocat");
    set_token(&mut hosts, "h", "t1");
    set_token(&mut hosts, "other", "t2");
    assert_eq!(get_user(&hosts, "h"), Some("octocat".to_string()));
    assert_eq!(get_token(&hosts, "h"), Some("t1".to_string()));
    assert_eq!(get_token(&hosts, "other"), Some("t2".to_string()));
    delete_token(&mut hosts, "h");
    assert_eq!(get_user(&hosts, "h"), None);
    assert_eq!(get_token(&hosts, "h"), None);
    assert_eq!(get_token(&hosts, "other"), Some("t2".to_string()));
    // The entry stays, emptied.
    assert_eq!(hosts.hosts.len(), 2);
}
