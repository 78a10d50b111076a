use gor::auth::{
    AccessTokenResponse, DeviceCodeResponse, PollAction, PollEvent, PollReply, UserResponse, bearer, device_code_result,
    poll_step, requested_scopes, verify_result, CLIENT_ID,
};
use gor::cmd::auth::{
    GitGet, HelperPlan, authenticated_message, git_failure, host_or_default, credential_key_of, echo_command, helper_args, logout_message,
    masked_token, needs_generic_helper, piped_token, plan_helper, refresh_scopes, setup_message, status_message,
    token_to_show, wrapped_error,
};
use gor::error::GorError;

fn refused(code: Option<&str>) -> PollEvent {
    PollEvent::Reply(PollReply::Refused(code.map(|c| c.to_string())))
}

#[test]
fn poll_waits_while_authorization_is_pending() {
    assert!(matches!(poll_step(5, refused(Some("authorization_pending"))), PollAction::Wait(5)));
}

#[test]
fn poll_slows_down_by_five_seconds() {
    assert!(matches!(poll_step(5, refused(Some("slow_down"))), PollAction::Wait(10)));
}

#[test]
fn poll_ends_on_terminal_refusals() {
    match poll_step(5, refused(Some("expired_token"))) {
        PollAction::Done(Err(GorError::DeviceTimeout(m))) => assert_eq!(m, "device code expired before authorization"),
        other => panic!("unexpected {:?}", other),
    }
    assert!(matches!(poll_step(5, refused(Some("access_denied"))), PollAction::Done(Err(GorError::DeviceDeclined))));
    match poll_step(5, refused(Some("bad_verification_code"))) {
        PollAction::Done(Err(GorError::Auth(m))) => assert_eq!(m, "OAuth error during polling: bad_verification_code"),
        other => panic!("unexpected {:?}", other),
    }
    match poll_step(5, refused(None)) {
        PollAction::Done(Err(GorError::Auth(m))) => assert_eq!(m, "OAuth error during polling: unknown"),
        other => panic!("unexpected {:?}", other),
    }
}

#[test]
fn poll_sends_on_a_tick_and_times_out_past_the_deadline() {
    assert!(matches!(poll_step(5, PollEvent::Tick { past_deadline: false }), PollAction::Send));
    match poll_step(5, PollEvent::Tick { past_deadline: true }) {
        PollAction::Done(Err(GorError::DeviceTimeout(m))) => assert_eq!(m, "timed out waiting for authorization"),
        other => panic!("unexpected {:?}", other),
    }
}

#[test]
fn poll_returns_the_granted_token() {
    let granted = AccessTokenResponse { access_token: "gho_abc".to_string(), token_type: "bearer".to_string(), scope: String::new() };
    assert!(matches!(poll_step(5, PollEvent::Reply(PollReply::Granted { error: None, token: Ok(granted) })), PollAction::Done(Ok(t)) if t == "gho_abc"));
    match poll_step(5, PollEvent::Reply(PollReply::Granted { error: None, token: Err("missing field".to_string()) })) {
        PollAction::Done(Err(GorError::Auth(m))) => assert_eq!(m, "failed to parse access token response: missing field"),
        other => panic!("unexpected {:?}", other),
    }
}

#[test]
fn device_code_request_defaults_and_outcomes() {
    assert_eq!(requested_scopes(None), "repo,read:org,workflow,gist");
    assert_eq!(requested_scopes(Some("repo")), "repo");
    assert_eq!(CLIENT_ID, "Iv23liqA1L1VQn1AOc1s");
    let d = DeviceCodeResponse {
        user_code: "ABCD-1234".to_string(),
        device_code: "dc".to_string(),
        verification_uri: "https://github.com/login/device".to_string(),
        interval: 5,
        expires_in: 900,
    };
    assert!(matches!(device_code_result(200, "200 OK", "", Ok(d)), Ok(r) if r.user_code == "ABCD-1234"));
    match device_code_result(400, "400 Bad Request", "{\"error\":\"x\"}", Err(String::new())) {
        Err(e) => assert_eq!(e.message(), "authentication failed: device code request failed (400 Bad Request): {\"error\":\"x\"}"),
        other => panic!("unexpected {:?}", other),
    }
    match device_code_result(200, "200 OK", "", Err("eof".to_string())) {
        Err(GorError::Auth(m)) => assert_eq!(m, "failed to parse device code response: eof"),
        other => panic!("unexpected {:?}", other),
    }
}

#[test]
fn token_verification_outcomes() {
    assert_eq!(bearer("gho_x"), "Bearer gho_x");
    assert!(matches!(verify_result(200, "200 OK", "", Ok(UserResponse { login: "octocat".to_string() })), Ok(l) if l == "octocat"));
    assert!(matches!(verify_result(401, "401 Unauthorized", "", Err(String::new())),
        Err(GorError::Auth(m)) if m == "token is invalid or expired (HTTP 401)"));
    assert!(matches!(verify_result(403, "403 Forbidden", "", Err(String::new())),
        Err(GorError::Auth(m)) if m == "token lacks required permissions (HTTP 403)"));
    assert!(matches!(verify_result(500, "500 Internal Server Error", "oops", Err(String::new())),
        Err(GorError::Auth(m)) if m == "token verification failed (500 Internal Server Error): oops"));
    assert!(matches!(verify_result(200, "200 OK", "", Err("bad".to_string())),
        Err(GorError::Auth(m)) if m == "failed to parse user response: bad"));
}

#[test]
fn auth_command_messages() {
    assert_eq!(status_message("github.com", &None), "Not logged in to github.com");
    assert_eq!(status_message("github.com", &Some(Ok("octocat".to_string()))), "Logged in to github.com as octocat");
    assert_eq!(status_message("github.com", &Some(Err(GorError::Auth("x".to_string())))),
        "Logged in to github.com but token is invalid or expired");
    assert_eq!(logout_message("ghe.io", true), "Logged out of ghe.io");
    assert_eq!(logout_message("ghe.io", false), "Not logged in to ghe.io");
    assert_eq!(authenticated_message("octocat"), "Authenticated as octocat");
    assert_eq!(piped_token("  gho_abc\n").ok(), Some("gho_abc".to_string()));
    assert_eq!(piped_token(" \n").err(), Some("no token provided on stdin".to_string()));
    assert_eq!(wrapped_error("token verification failed", &GorError::Auth("token is invalid or expired (HTTP 401)".to_string())),
        "token verification failed: authentication failed: token is invalid or expired (HTTP 401)");
    assert_eq!(refresh_scopes(&vec![]), None);
    assert_eq!(refresh_scopes(&vec!["repo".to_string(), "gist".to_string()]), Some("repo,gist".to_string()));
}

#[test]
fn auth_token_lookup_and_masking() {
    assert_eq!(token_to_show("github.com", None, Some("env1".to_string()), Some("env2".to_string())).ok(), Some("env1".to_string()));
    assert_eq!(token_to_show("github.com", Some("stored".to_string()), Some("env1".to_string()), None).ok(), Some("stored".to_string()));
    assert_eq!(token_to_show("github.com", None, None, Some("env2".to_string())).ok(), Some("env2".to_string()));
    assert_eq!(token_to_show("github.com", None, None, None).err(),
        Some("no token found for github.com. Run 'gor auth login' first or set GITHUB_TOKEN.".to_string()));
    assert_eq!(masked_token("gho_1234567890abcd", true), "gho_...abcd");
    assert_eq!(masked_token("gho_1234567890abcd", false), "gho_1234567890abcd");
    assert_eq!(masked_token("12345678", true), "12345678");
}

#[test]
fn auth_setup_git_plan() {
    let helper = "!gor auth git-credential";
    assert!(matches!(plan_helper(&Some(GitGet { success: true, stdout: format!("{helper}\n") })), HelperPlan::AlreadyConfigured));
    assert!(matches!(plan_helper(&Some(GitGet { success: true, stdout: "store\n".to_string() })), HelperPlan::Add));
    assert!(matches!(plan_helper(&Some(GitGet { success: false, stdout: String::new() })), HelperPlan::SetHelper));
    assert!(matches!(plan_helper(&None), HelperPlan::SetHelper));
    assert_eq!(credential_key_of("github.com"), "credential.https://github.com.helper");
    assert_eq!(helper_args("github.com", true),
        vec!["config", "--global", "--add", "credential.https://github.com.helper", helper]);
    assert_eq!(echo_command(&helper_args("github.com", false)),
        "$ git config --global credential.https://github.com.helper !gor auth git-credential");
    assert!(needs_generic_helper(&None));
    assert!(!needs_generic_helper(&Some(GitGet { success: true, stdout: "osxkeychain".to_string() })));
    assert_eq!(setup_message("github.com", true), "git is already configured to use gor for github.com credentials");
    assert_eq!(setup_message("github.com", false), "\u{2713} git is now configured to use gor for github.com credentials");
}

#[test]
fn auth_hosts_and_git_failures() {
    assert_eq!(host_or_default(&None), "github.com");
    assert_eq!(host_or_default(&Some("ghe.example.com".to_string())), "ghe.example.com");
    assert_eq!(git_failure("error: could not lock config file"), "git config failed: error: could not lock config file");
}

#[test]
fn poll_keeps_polling_on_a_pending_answer_with_a_success_status() {
    let pending = PollEvent::Reply(PollReply::Granted { error: Some("authorization_pending".to_string()),
        token: Err("missing field `access_token`".to_string()) });
    assert!(matches!(poll_step(5, pending), PollAction::Wait(5)));
    let slow = PollEvent::Reply(PollReply::Granted { error: Some("slow_down".to_string()), token: Err(String::new()) });
    assert!(matches!(poll_step(5, slow), PollAction::Wait(10)));
    let denied = PollEvent::Reply(PollReply::Granted { error: Some("access_denied".to_string()), token: Err(String::new()) });
    assert!(matches!(poll_step(5, denied), PollAction::Done(Err(GorError::DeviceDeclined))));
}
