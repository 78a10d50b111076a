//! Authentication: the OAuth device flow and token verification.
//!
//! The flow (GitHub's device flow for OAuth apps):
//! 1. Request a device code from `POST /login/device/code`.
//! 2. Show the user a one-time code and URL.
//! 3. Poll `POST /login/oauth/access_token` until the user completes
//!    authorization.
//! 4. Return the access token.
//!
//! The requests, the clock and the waiting belong to the program; this
//! module decides, reply by reply, what happens next.
use vstd::prelude::*;
use vstd::string::*;
use crate::error::GorError;
use crate::request::is_success;

verus! {

/// The OAuth client ID of the `gor` app, registered for the device flow.
pub const CLIENT_ID: &'static str = "Iv23liqA1L1VQn1AOc1s";

/// The scopes asked for when none are given.
pub const DEFAULT_SCOPES: &'static str = "repo,read:org,workflow,gist";

/// The grant type of a device-flow token request.
pub const DEVICE_GRANT_TYPE: &'static str = "urn:ietf:params:oauth:grant-type:device_code";

/// Response from `POST /login/device/code`.
#[derive(Debug)]
pub struct DeviceCodeResponse {
    /// The device verification code (shown to the user).
    pub user_code: String,
    /// The device code (used for polling).
    pub device_code: String,
    /// The URL the user should visit to enter the code.
    pub verification_uri: String,
    /// The polling interval in seconds.
    pub interval: u64,
    /// The lifetime of the device code in seconds.
    pub expires_in: u64,
}

/// Response from `POST /login/oauth/access_token` (success).
#[derive(Debug)]
pub struct AccessTokenResponse {
    /// The OAuth access token.
    pub access_token: String,
    /// The token type (should be `bearer`).
    pub token_type: String,
    /// The scopes granted.
    pub scope: String,
}

/// Minimal user response from `GET /user` for token verification.
#[derive(Debug)]
pub struct UserResponse {
    /// The authenticated user's login name.
    pub login: String,
}

/// The scopes a device-code request asks for.
pub fn requested_scopes(scopes: Option<&str>) -> (r: &str)
    ensures
        r@ == (match scopes {
            Some(s) => s@,
            None => DEFAULT_SCOPES@,
        }),
{
    match scopes {
        Some(s) => s,
        None => DEFAULT_SCOPES,
    }
}

/// Whether an error is [`GorError::Auth`] with exactly `msg`.
pub open spec fn auth_error(r: Result<DeviceCodeResponse, GorError>, msg: Seq<char>) -> bool {
    r matches Err(GorError::Auth(m)) && m@ == msg
}

/// What a device-code request gives: the parsed response, or the refusal
/// with the status and the body's text, or the reason the body could not
/// be read.
pub fn device_code_result(
    status: u16,
    status_text: &str,
    body_text: &str,
    parsed: Result<DeviceCodeResponse, String>,
) -> (r: Result<DeviceCodeResponse, GorError>)
    ensures
        !is_success(status) ==> auth_error(r, "device code request failed ("@ + status_text@ + "): "@ + body_text@),
        is_success(status) ==> match parsed {
            Ok(d) => r == Ok::<DeviceCodeResponse, GorError>(d),
            Err(e) => auth_error(r, "failed to parse device code response: "@ + e@),
        },
{
    if !(200 <= status && status <= 299) {
        let mut m = "device code request failed (".to_owned();
        m.append(status_text);
        m.append("): ");
        m.append(body_text);
        return Err(GorError::Auth(m));
    }
    match parsed {
        Ok(d) => Ok(d),
        Err(e) => {
            let mut m = "failed to parse device code response: ".to_owned();
            m.append(e.as_str());
            Err(GorError::Auth(m))
        },
    }
}

// ---------------------------------------------------------------------------
// Polling for the token
// ---------------------------------------------------------------------------

/// The reply to one token request.
#[derive(Debug)]
pub enum PollReply {
    /// A success status: the OAuth `error` code when the body holds one
    /// (GitHub answers a pending authorization so), and the token response
    /// or why it could not be read.
    Granted { error: Option<String>, token: Result<AccessTokenResponse, String> },
    /// A failure status, with the OAuth `error` code when the body had one.
    Refused(Option<String>),
}

/// What the program tells the poller.
#[derive(Debug)]
pub enum PollEvent {
    /// Time to poll again; `past_deadline` when the device code's lifetime
    /// has run out.
    Tick { past_deadline: bool },
    /// The reply to the token request just sent.
    Reply(PollReply),
}

/// What the poller asks of the program.
#[derive(Debug)]
pub enum PollAction {
    /// Send the token request now.
    Send,
    /// Wait this many seconds, then tick.
    Wait(u64),
    /// The flow is over: the access token, or the error.
    Done(Result<String, GorError>),
}

/// The error code of a refusal (`unknown` when the body had none).
pub open spec fn refusal_code(code: Option<String>) -> Seq<char> {
    match code {
        Some(c) => c@,
        None => "unknown"@,
    }
}

/// Whether the poller is to keep polling after this refusal.
pub open spec fn keeps_polling(code: Seq<char>) -> bool {
    code == "authorization_pending"@ || code == "slow_down"@
}

/// How long the poller waits after a refusal that keeps it polling.
pub open spec fn wait_after(code: Seq<char>, interval: u64) -> int {
    if code == "slow_down"@ { interval + 5 } else { interval as int }
}

/// Whether `a` is what the poller does on the OAuth error code `c`.
pub open spec fn refusal_decision(interval: u64, c: Seq<char>, a: PollAction) -> bool {
    if keeps_polling(c) {
        a matches PollAction::Wait(s) && s == wait_after(c, interval)
    } else if c == "expired_token"@ {
        a matches PollAction::Done(Err(GorError::DeviceTimeout(m))) && m@ == "device code expired before authorization"@
    } else if c == "access_denied"@ {
        a matches PollAction::Done(Err(GorError::DeviceDeclined))
    } else {
        a matches PollAction::Done(Err(GorError::Auth(m))) && m@ == "OAuth error during polling: "@ + c
    }
}

/// The OAuth error code a reply carries, whatever its status (`unknown` for
/// a failure status without one); `None` for a success without one.
pub open spec fn reply_code(reply: PollReply) -> Option<Seq<char>> {
    match reply {
        PollReply::Granted { error: Some(c), .. } => Some(c@),
        PollReply::Granted { error: None, .. } => None,
        PollReply::Refused(code) => Some(refusal_code(code)),
    }
}

/// Whether `a` is what the poller does on `event`.
pub open spec fn poll_decision(interval: u64, event: PollEvent, a: PollAction) -> bool {
    match event {
        PollEvent::Tick { past_deadline } => if past_deadline {
            a matches PollAction::Done(Err(GorError::DeviceTimeout(m))) && m@ == "timed out waiting for authorization"@
        } else {
            a is Send
        },
        PollEvent::Reply(reply) => match reply_code(reply) {
            Some(c) => refusal_decision(interval, c, a),
            None => match reply {
                PollReply::Granted { token: Ok(t), .. } => a matches PollAction::Done(Ok(tok)) && tok@ == t.access_token@,
                PollReply::Granted { token: Err(e), .. } =>
                    a matches PollAction::Done(Err(GorError::Auth(m))) && m@ == "failed to parse access token response: "@ + e@,
                PollReply::Refused(_) => false,
            },
        },
    }
}

/// Whether a reply asks the poller to slow down.
pub open spec fn asks_slow_down(event: PollEvent) -> bool {
    event matches PollEvent::Reply(reply) && reply_code(reply) == Some("slow_down"@)
}

fn refusal_action(interval: u64, c: String) -> (a: PollAction)
    requires
        c@ == "slow_down"@ ==> interval + 5 <= u64::MAX,
    ensures
        refusal_decision(interval, c@, a),
{
    proof {
        reveal_strlit("slow_down");
        reveal_strlit("authorization_pending");
    }
    assert("authorization_pending"@ != "slow_down"@) by {
        assert("authorization_pending"@.len() != "slow_down"@.len());
    }
    if crate::text::str_eq(c.as_str(), "authorization_pending") {
        PollAction::Wait(interval)
    } else if crate::text::str_eq(c.as_str(), "slow_down") {
        PollAction::Wait(interval + 5)
    } else if crate::text::str_eq(c.as_str(), "expired_token") {
        PollAction::Done(Err(GorError::DeviceTimeout("device code expired before authorization".to_owned())))
    } else if crate::text::str_eq(c.as_str(), "access_denied") {
        PollAction::Done(Err(GorError::DeviceDeclined))
    } else {
        let mut m = "OAuth error during polling: ".to_owned();
        m.append(c.as_str());
        PollAction::Done(Err(GorError::Auth(m)))
    }
}

/// One step of polling for the token: given the polling interval and what
/// happened, what the program does next. An OAuth error code decides,
/// whatever the status of the reply that carries it.
pub fn poll_step(interval: u64, event: PollEvent) -> (a: PollAction)
    requires
        asks_slow_down(event) ==> interval + 5 <= u64::MAX,
    ensures
        poll_decision(interval, event, a),
{
    match event {
        PollEvent::Tick { past_deadline } => {
            if past_deadline {
                PollAction::Done(Err(GorError::DeviceTimeout("timed out waiting for authorization".to_owned())))
            } else {
                PollAction::Send
            }
        },
        PollEvent::Reply(PollReply::Granted { error: Some(c), .. }) => refusal_action(interval, c),
        PollEvent::Reply(PollReply::Granted { error: None, token: Ok(t) }) => PollAction::Done(Ok(t.access_token)),
        PollEvent::Reply(PollReply::Granted { error: None, token: Err(e) }) => {
            let mut m = "failed to parse access token response: ".to_owned();
            m.append(e.as_str());
            PollAction::Done(Err(GorError::Auth(m)))
        },
        PollEvent::Reply(PollReply::Refused(code)) => {
            let c: String = match code {
                Some(c) => c,
                None => {
                    proof {
                        reveal_strlit("unknown");
                        reveal_strlit("slow_down");
                    }
                    "unknown".to_owned()
                },
            };
            assert(c@ == refusal_code(code));
            refusal_action(interval, c)
        },
    }
}

/// The poller never sends without a tick, and never waits less than the
/// interval: every reply either ends the flow or waits at least
/// `interval` seconds before the next request.
pub proof fn law_poll_waits_at_least_interval(interval: u64, reply: PollReply, a: PollAction)
    requires
        poll_decision(interval, PollEvent::Reply(reply), a),
    ensures
        a is Done || (a matches PollAction::Wait(s) && s >= interval),
        a !is Send,
{
}

/// Once the device code's lifetime has run out the flow ends, and a
/// terminal OAuth error (anything but `authorization_pending` or
/// `slow_down`, whatever the status that carried it) ends it with an error.
pub proof fn law_poll_terminates(interval: u64, event: PollEvent, a: PollAction)
    requires
        poll_decision(interval, event, a),
        (event matches PollEvent::Tick { past_deadline } && past_deadline)
            || (event matches PollEvent::Reply(reply) && (reply_code(reply) matches Some(c) && !keeps_polling(c))),
    ensures
        a matches PollAction::Done(Err(_)),
{
}

/// An `authorization_pending` or `slow_down` answer keeps the poller
/// polling, whether it came with a success or a failure status.
pub proof fn law_pending_keeps_polling(interval: u64, reply: PollReply, a: PollAction)
    requires
        poll_decision(interval, PollEvent::Reply(reply), a),
        reply_code(reply) matches Some(c) && keeps_polling(c),
    ensures
        a matches PollAction::Wait(s) && s >= interval,
{
}

// ---------------------------------------------------------------------------
// Token verification
// ---------------------------------------------------------------------------

/// The `Authorization` header value for `token`.
pub fn bearer(token: &str) -> (r: String)
    ensures
        r@ == "Bearer "@ + token@,
{
    let mut r = "Bearer ".to_owned();
    r.append(token);
    r
}

/// What verifying a token gives for the reply to `GET /user`: the login,
/// or why the token was refused.
pub open spec fn verification(status: u16, status_text: Seq<char>, body_text: Seq<char>, parsed: Result<UserResponse, String>) -> Result<Seq<char>, Seq<char>> {
    if status == 401 {
        Err("token is invalid or expired (HTTP 401)"@)
    } else if status == 403 {
        Err("token lacks required permissions (HTTP 403)"@)
    } else if !is_success(status) {
        Err("token verification failed ("@ + status_text + "): "@ + body_text)
    } else {
        match parsed {
            Ok(u) => Ok(u.login@),
            Err(e) => Err("failed to parse user response: "@ + e@),
        }
    }
}

/// Reads the reply to `GET /user`: the authenticated login, or an
/// authentication error.
pub fn verify_result(status: u16, status_text: &str, body_text: &str, parsed: Result<UserResponse, String>) -> (r: Result<String, GorError>)
    ensures
        match verification(status, status_text@, body_text@, parsed) {
            Ok(login) => r matches Ok(l) && l@ == login,
            Err(m) => r matches Err(GorError::Auth(e)) && e@ == m,
        },
{
    if status == 401 {
        return Err(GorError::Auth("token is invalid or expired (HTTP 401)".to_owned()));
    }
    if status == 403 {
        return Err(GorError::Auth("token lacks required permissions (HTTP 403)".to_owned()));
    }
    if !(200 <= status && status <= 299) {
        let mut m = "token verification failed (".to_owned();
        m.append(status_text);
        m.append("): ");
        m.append(body_text);
        return Err(GorError::Auth(m));
    }
    match parsed {
        Ok(u) => Ok(u.login),
        Err(e) => {
            let mut m = "failed to parse user response: ".to_owned();
            m.append(e.as_str());
            Err(GorError::Auth(m))
        },
    }
}

} // verus!
