//! `gor auth`: what logging in and out, showing the status and the token,
//! and setting up git say and decide.
use vstd::prelude::*;
use vstd::string::*;
use vstd::utf8::*;
use crate::error::{GorError, error_text};
use crate::text::{join_strings, join_with, trimmed, trim_str, utf8_len};

verus! {

broadcast use vstd::utf8::encode_utf8_decode_utf8, vstd::utf8::encode_utf8_valid_utf8;

/// The host named, else `github.com`.
pub fn host_or_default(hostname: &Option<String>) -> (r: &str)
    ensures
        r@ == (match hostname {
            Some(h) => h@,
            None => "github.com"@,
        }),
{
    match hostname {
        Some(h) => h.as_str(),
        None => "github.com",
    }
}

/// `PREFIX HOST`-style lines of the auth commands.
pub open spec fn host_line(prefix: Seq<char>, host: Seq<char>, suffix: Seq<char>) -> Seq<char> {
    prefix + host + suffix
}

fn host_message(prefix: &str, host: &str, suffix: &str) -> (r: String)
    ensures
        r@ == host_line(prefix@, host@, suffix@),
        suffix@ == ""@ ==> r@ == prefix@ + host@,
{
    let mut m = prefix.to_owned();
    m.append(host);
    m.append(suffix);
    proof {
        reveal_strlit("");
        if suffix@ == ""@ {
            assert(m@ =~= prefix@ + host@);
        }
    }
    m
}

/// What `gor auth status` prints: the login the token belongs to, or that
/// it is refused, or that there is none.
pub open spec fn status_line(host: Seq<char>, token_present: bool, verified: Option<Result<String, GorError>>) -> Seq<char> {
    if !token_present {
        "Not logged in to "@ + host
    } else {
        match verified {
            Some(Ok(login)) => "Logged in to "@ + host + " as "@ + login@,
            _ => "Logged in to "@ + host + " but token is invalid or expired"@,
        }
    }
}

/// Builds [`status_line`]; `verified` is the outcome of verifying the
/// stored token (none when there is no token).
pub fn status_message(host: &str, verified: &Option<Result<String, GorError>>) -> (r: String)
    ensures
        r@ == status_line(host@, verified is Some, *verified),
{
    proof { reveal_strlit(""); }
    match verified {
        None => host_message("Not logged in to ", host, ""),
        Some(Ok(login)) => {
            let mut m = host_message("Logged in to ", host, " as ");
            m.append(login.as_str());
            m
        },
        Some(Err(_)) => host_message("Logged in to ", host, " but token is invalid or expired"),
    }
}

/// What `gor auth logout` prints.
pub fn logout_message(host: &str, authenticated: bool) -> (r: String)
    ensures
        r@ == (if authenticated { "Logged out of "@ + host@ } else { "Not logged in to "@ + host@ }),
{
    proof { reveal_strlit(""); }
    if authenticated {
        host_message("Logged out of ", host, "")
    } else {
        host_message("Not logged in to ", host, "")
    }
}

/// What a login prints once the token is stored.
pub fn authenticated_message(login: &str) -> (r: String)
    ensures
        r@ == "Authenticated as "@ + login@,
{
    let mut m = "Authenticated as ".to_owned();
    m.append(login);
    m
}

/// The token read for `--with-token`, checked: it must not be empty.
pub fn piped_token(text: &str) -> (r: Result<String, String>)
    ensures
        trimmed(text@).len() == 0 ==> (r matches Err(m) && m@ == "no token provided on stdin"@),
        trimmed(text@).len() > 0 ==> (r matches Ok(t) && t@ == trimmed(text@)),
{
    let t = trim_str(text);
    if t.as_str().is_empty() {
        Err("no token provided on stdin".to_owned())
    } else {
        Ok(t)
    }
}

/// An error of the device flow or of verification, as a command reports
/// it: `PREFIX: ERROR`.
pub fn wrapped_error(prefix: &str, e: &GorError) -> (r: String)
    ensures
        r@ == prefix@ + ": "@ + error_text(*e),
{
    let mut m = prefix.to_owned();
    m.append(": ");
    m.append(e.message().as_str());
    m
}

/// The scopes a token refresh asks for: the given ones joined by commas,
/// or none (the defaults) when none are given.
pub fn refresh_scopes(scopes: &Vec<String>) -> (r: Option<String>)
    ensures
        scopes@.len() == 0 ==> r is None,
        scopes@.len() > 0 ==> (r matches Some(s) && s@ == join_with(scopes@.map_values(|p: String| p@), ","@)),
{
    if scopes.len() == 0 {
        None
    } else {
        Some(join_strings(scopes, ","))
    }
}

/// The token `gor auth token` shows: the stored one, else `GITHUB_TOKEN`,
/// else `GH_TOKEN`; or the message when there is none.
pub fn token_to_show(host: &str, stored: Option<String>, github_token: Option<String>, gh_token: Option<String>)
    -> (r: Result<String, String>)
    ensures
        match (stored, github_token, gh_token) {
            (Some(t), _, _) => r matches Ok(x) && x@ == t@,
            (None, Some(t), _) => r matches Ok(x) && x@ == t@,
            (None, None, Some(t)) => r matches Ok(x) && x@ == t@,
            (None, None, None) => r matches Err(m)
                && m@ == "no token found for "@ + host@ + ". Run 'gor auth login' first or set GITHUB_TOKEN."@,
        },
{
    match stored {
        Some(t) => Ok(t),
        None => match github_token {
            Some(t) => Ok(t),
            None => match gh_token {
                Some(t) => Ok(t),
                None => Err(host_message("no token found for ", host, ". Run 'gor auth login' first or set GITHUB_TOKEN.")),
            },
        },
    }
}

/// The text of the first `n` bytes of `s`.
pub open spec fn first_bytes(s: Seq<char>, n: int) -> Seq<char> {
    decode_utf8(encode_utf8(s).subrange(0, n))
}

/// The text of the bytes of `s` from `n` on.
pub open spec fn bytes_from(s: Seq<char>, n: int) -> Seq<char> {
    decode_utf8(encode_utf8(s).subrange(n, encode_utf8(s).len() as int))
}

/// Whether the masked form of `token` can be cut out: its first and last
/// four bytes end and start at character boundaries.
pub open spec fn maskable(token: Seq<char>) -> bool {
    let b = encode_utf8(token);
    is_char_boundary(b, 4) && is_char_boundary(b, b.len() - 4)
}

/// How a token is shown: with `--secure`, a token longer than eight bytes
/// shows its first four and last four bytes around `...`; otherwise it is
/// shown whole.
pub open spec fn shown_token(token: Seq<char>, secure: bool) -> Seq<char> {
    if secure && utf8_len(token) > 8 {
        first_bytes(token, 4) + "..."@ + bytes_from(token, utf8_len(token) - 4)
    } else {
        token
    }
}

/// Builds [`shown_token`].
pub fn masked_token(token: &str, secure: bool) -> (r: String)
    requires
        secure && utf8_len(token@) > 8 ==> maskable(token@),
    ensures
        r@ == shown_token(token@, secure),
{
    let n = crate::cmd::util::byte_len_capped(token, 9);
    if secure && n > 8 {
        let (head, rest) = token.split_at(4);
        assert(head@ == decode_utf8(encode_utf8(head@)));
        let len = token.as_bytes().len();
        assert(len as nat == utf8_len(token@));
        let (_, tail) = token.split_at(len - 4);
        assert(tail@ == decode_utf8(encode_utf8(tail@)));
        let mut m = head.to_owned();
        m.append("...");
        m.append(tail);
        m
    } else {
        token.to_owned()
    }
}

// ---------------------------------------------------------------------------
// gor auth setup-git
// ---------------------------------------------------------------------------

/// The credential helper `gor` installs.
pub const HELPER: &'static str = "!gor auth git-credential";

/// The git configuration key of the helper for a host.
pub open spec fn credential_key(host: Seq<char>) -> Seq<char> {
    "credential.https://"@ + host + ".helper"@
}

/// Builds [`credential_key`].
pub fn credential_key_of(host: &str) -> (r: String)
    ensures
        r@ == credential_key(host@),
{
    host_message("credential.https://", host, ".helper")
}

/// What `git config --get` reported: whether it succeeded, and what it
/// printed.
#[derive(Debug)]
pub struct GitGet {
    pub success: bool,
    pub stdout: String,
}

/// What setting up git does for a host, given what `git config --get`
/// reported for the host's key (`None` when git could not be run).
#[derive(Debug)]
pub enum HelperPlan {
    /// gor is already the helper: say so and stop.
    AlreadyConfigured,
    /// Another helper is set: add gor beside it (`--add`).
    Add,
    /// No helper is set: set gor.
    SetHelper,
}

/// Decides the [`HelperPlan`].
pub open spec fn helper_plan(existing: Option<GitGet>) -> HelperPlan {
    match existing {
        Some(g) if g.success && trimmed(g.stdout@) == HELPER@ => HelperPlan::AlreadyConfigured,
        Some(g) if g.success && trimmed(g.stdout@).len() > 0 => HelperPlan::Add,
        _ => HelperPlan::SetHelper,
    }
}

/// Computes [`helper_plan`].
pub fn plan_helper(existing: &Option<GitGet>) -> (r: HelperPlan)
    ensures
        r == helper_plan(*existing),
{
    match existing {
        Some(g) => {
            if g.success {
                let t = trim_str(g.stdout.as_str());
                if crate::text::str_eq(t.as_str(), HELPER) {
                    return HelperPlan::AlreadyConfigured;
                }
                if !t.as_str().is_empty() {
                    return HelperPlan::Add;
                }
            }
            HelperPlan::SetHelper
        },
        None => HelperPlan::SetHelper,
    }
}

/// The arguments of `git` that set (or add) gor as the host's helper.
pub fn helper_args(host: &str, add: bool) -> (r: Vec<String>)
    ensures
        r@.map_values(|s: String| s@) == (if add {
            seq!["config"@, "--global"@, "--add"@, credential_key(host@), HELPER@]
        } else {
            seq!["config"@, "--global"@, credential_key(host@), HELPER@]
        }),
{
    let mut v: Vec<String> = Vec::new();
    v.push("config".to_owned());
    v.push("--global".to_owned());
    if add {
        v.push("--add".to_owned());
    }
    v.push(credential_key_of(host));
    v.push(HELPER.to_owned());
    proof {
        let w = v@.map_values(|s: String| s@);
        if add {
            assert(w =~= seq!["config"@, "--global"@, "--add"@, credential_key(host@), HELPER@]);
        } else {
            assert(w =~= seq!["config"@, "--global"@, credential_key(host@), HELPER@]);
        }
    }
    v
}

/// Whether the generic `credential.helper` is to be set: when git reports
/// none (or could not be asked).
pub fn needs_generic_helper(existing: &Option<GitGet>) -> (b: bool)
    ensures
        b == !(existing matches Some(g) && g.success && trimmed(g.stdout@).len() > 0),
{
    match existing {
        Some(g) => !(g.success && !trim_str(g.stdout.as_str()).as_str().is_empty()),
        None => true,
    }
}

/// The line that echoes a git command before it runs.
pub fn echo_command(args: &Vec<String>) -> (r: String)
    ensures
        r@ == "$ git "@ + join_with(args@.map_values(|s: String| s@), " "@),
{
    let mut m = "$ git ".to_owned();
    m.append(join_strings(args, " ").as_str());
    m
}

/// The failure of a git command: `git config failed: STDERR`.
pub fn git_failure(stderr: &str) -> (r: String)
    ensures
        r@ == "git config failed: "@ + stderr@,
{
    let mut m = "git config failed: ".to_owned();
    m.append(stderr);
    m
}

/// What setting up git prints when it is done, or when it had nothing to do.
pub fn setup_message(host: &str, already: bool) -> (r: String)
    ensures
        r@ == (if already {
            "git is already configured to use gor for "@ + host@ + " credentials"@
        } else {
            "\u{2713} git is now configured to use gor for "@ + host@ + " credentials"@
        }),
{
    if already {
        host_message("git is already configured to use gor for ", host, " credentials")
    } else {
        host_message("\u{2713} git is now configured to use gor for ", host, " credentials")
    }
}

} // verus!
