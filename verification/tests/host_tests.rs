use gor::host::Host;

#[test]
fn default_is_github_dot_com() {
    let host = Host::default();
    assert_eq!(host.hostname(), "github.com");
    assert_eq!(host.api_base(), "https://api.github.com");
}

#[test]
fn github_api_url() {
    let host = Host::new("github.com");
    assert_eq!(host.api_url("/user"), "https://api.github.com/user");
    assert_eq!(
        host.api_url("/repos/owner/repo"),
        "https://api.github.com/repos/owner/repo"
    );
}

#[test]
fn ghes_api_url() {
    let host = Host::new("git.example.com");
    assert_eq!(host.api_base(), "https://git.example.com/api/v3");
    assert_eq!(host.api_url("/user"), "https://git.example.com/api/v3/user");
}

#[test]
fn device_code_url_github() {
    let host = Host::new("github.com");
    assert_eq!(host.device_code_url(), "https://github.com/login/device/code");
}

#[test]
fn device_code_url_ghes() {
    let host = Host::new("git.example.com");
    assert_eq!(
        host.device_code_url(),
        "https://git.example.com/login/device/code"
    );
}

#[test]
fn access_token_url_github() {
    let host = Host::new("github.com");
    assert_eq!(
        host.access_token_url(),
        "https://github.com/login/oauth/access_token"
    );
}

#[test]
fn device_activation_url() {
    let host = Host::new("github.com");
    assert_eq!(host.device_activation_url(), "https://github.com/login/device");
}

#[test]
fn ghes_access_and_activation_urls() {
    let host = Host::new("git.example.com");
    assert_eq!(
        host.access_token_url(),
        "https://git.example.com/login/oauth/access_token"
    );
    assert_eq!(host.device_activation_url(), "https://git.example.com/login/device");
    assert_eq!(host.hostname(), "git.example.com");
}

#[test]
fn host_name_that_only_resembles_github() {
    let host = Host::new("github.company");
    assert_eq!(host.api_base(), "https://github.company/api/v3");
}

#[test]
fn host_clone_keeps_urls() {
    let host = Host::new("git.example.com");
    let copy = host.clone();
    assert_eq!(copy.api_base(), host.api_base());
}
