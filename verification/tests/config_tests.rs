use gor::config::{get, validate, GorConfig, SUPPORTED_KEYS};

fn yaml(s: &str) -> serde_yaml_ng::Value {
    serde_yaml_ng::Value::String(s.to_string())
}

#[test]
fn validate_known_key() {
    assert!(validate("editor", "vim").is_ok());
}

#[test]
fn validate_unknown_key() {
    assert!(validate("unknown_key", "value").is_err());
}

#[test]
fn validate_git_protocol_https() {
    assert!(validate("git_protocol", "https").is_ok());
}

#[test]
fn validate_git_protocol_ssh() {
    assert!(validate("git_protocol", "ssh").is_ok());
}

#[test]
fn validate_git_protocol_invalid() {
    assert!(validate("git_protocol", "ftp").is_err());
}

#[test]
fn supported_keys_list() {
    assert!(SUPPORTED_KEYS.contains(&"editor"));
    assert!(SUPPORTED_KEYS.contains(&"browser"));
    assert!(SUPPORTED_KEYS.contains(&"pager"));
    assert!(SUPPORTED_KEYS.contains(&"git_protocol"));
    assert!(SUPPORTED_KEYS.contains(&"prompt"));
}

#[test]
fn validate_messages() {
    assert_eq!(
        validate("colour", "x"),
        Err("unknown config key 'colour'. Supported keys: editor, browser, pager, git_protocol, prompt".to_string())
    );
    assert_eq!(
        validate("git_protocol", "ftp"),
        Err("invalid value 'ftp' for git_protocol: must be 'https' or 'ssh'".to_string())
    );
}

#[test]
fn default_config_is_empty() {
    let config = GorConfig::default();
    assert!(config.global.is_empty());
    assert!(config.hosts.is_empty());
}

#[test]
fn get_global_key() {
    let mut config = GorConfig::default();
    config.global.insert("editor".to_string(), yaml("vim"));
    let value = get(&config, "editor", None);
    assert_eq!(value.and_then(|v| v.as_str()), Some("vim"));
}

#[test]
fn get_host_scoped_key_falls_back_to_global() {
    let mut config = GorConfig::default();
    config.global.insert("editor".to_string(), yaml("vim"));
    let value = get(&config, "editor", Some("github.com"));
    assert_eq!(value.and_then(|v| v.as_str()), Some("vim"));
}

#[test]
fn get_host_scoped_key_overrides_global() {
    let mut config = GorConfig::default();
    config.global.insert("editor".to_string(), yaml("vim"));
    gor::config::set(&mut config, "editor", yaml("code"), Some("github.com"));
    let value = get(&config, "editor", Some("github.com"));
    assert_eq!(value.and_then(|v| v.as_str()), Some("code"));
}

#[test]
fn set_global_key() {
    let mut config = GorConfig::default();
    gor::config::set(&mut config, "editor", yaml("vim"), None);
    assert_eq!(config.global.get("editor").and_then(|v| v.as_str()), Some("vim"));
}

#[test]
fn set_host_scoped_key() {
    let mut config = GorConfig::default();
    gor::config::set(&mut config, "editor", yaml("code"), Some("github.com"));
    assert_eq!(
        config
            .hosts
            .get("github.com")
            .and_then(|h| h.get("editor"))
            .and_then(|v| v.as_str()),
        Some("code")
    );
}

#[test]
fn set_twice_keeps_the_last_value_and_other_hosts() {
    let mut config = GorConfig::default();
    gor::config::set(&mut config, "pager", yaml("less"), Some("a.example"));
    gor::config::set(&mut config, "pager", yaml("more"), Some("a.example"));
    gor::config::set(&mut config, "pager", yaml("most"), Some("b.example"));
    assert_eq!(get(&config, "pager", Some("a.example")).and_then(|v| v.as_str()), Some("more"));
    assert_eq!(get(&config, "pager", Some("b.example")).and_then(|v| v.as_str()), Some("most"));
    assert_eq!(get(&config, "pager", None), None);
    assert_eq!(config.hosts.len(), 2);
}
