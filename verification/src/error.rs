//! The library's errors.
use vstd::prelude::*;
use vstd::string::*;

verus! {

/// What can go wrong in a library operation.
///
/// Each variant carries the text that describes the failure; the error
/// reads as its [`GorError::message`].
#[derive(Debug)]
pub enum GorError {
    /// An HTTP request to the GitHub API failed (the transport's own words).
    Http(String),
    /// Authentication failed (invalid or expired token).
    Auth(String),
    /// The requested resource was not found (404).
    NotFound(String),
    /// Rate limit exceeded (429 or secondary rate limit).
    RateLimit(String),
    /// Invalid input from the user (bad repo spec, etc.).
    InvalidInput(String),
    /// An I/O error occurred (its own words).
    Io(String),
    /// The device flow ran out of time.
    DeviceTimeout(String),
    /// The user declined the device authorization.
    DeviceDeclined,
}

/// The text of an error.
pub open spec fn error_text(e: GorError) -> Seq<char> {
    match e {
        GorError::Http(m) => "HTTP request failed: "@ + m@,
        GorError::Auth(m) => "authentication failed: "@ + m@,
        GorError::NotFound(m) => "not found: "@ + m@,
        GorError::RateLimit(m) => "rate limit exceeded: "@ + m@,
        GorError::InvalidInput(m) => "invalid input: "@ + m@,
        GorError::Io(m) => "I/O error: "@ + m@,
        GorError::DeviceTimeout(m) => "device authorization timed out: "@ + m@,
        GorError::DeviceDeclined => "device authorization was declined"@,
    }
}

impl GorError {
    /// The error as a sentence (`authentication failed: …`).
    pub fn message(&self) -> (r: String)
        ensures
            r@ == error_text(*self),
    {
        let (prefix, m): (&str, &str) = match self {
            GorError::Http(m) => ("HTTP request failed: ", m.as_str()),
            GorError::Auth(m) => ("authentication failed: ", m.as_str()),
            GorError::NotFound(m) => ("not found: ", m.as_str()),
            GorError::RateLimit(m) => ("rate limit exceeded: ", m.as_str()),
            GorError::InvalidInput(m) => ("invalid input: ", m.as_str()),
            GorError::Io(m) => ("I/O error: ", m.as_str()),
            GorError::DeviceTimeout(m) => ("device authorization timed out: ", m.as_str()),
            GorError::DeviceDeclined => ("device authorization was declined", ""),
        };
        let mut r = prefix.to_owned();
        r.append(m);
        proof { reveal_strlit(""); }
        r
    }
}

} // verus!
