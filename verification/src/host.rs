//! Multi-host support.
//!
//! Derives REST API base URLs for github.com and GitHub Enterprise Server
//! instances. All URL construction flows through [`Host`].
use vstd::prelude::*;
use vstd::string::*;
use crate::text::str_eq;

verus! {

/// The public host name.
pub open spec fn github_dot_com() -> Seq<char> {
    "github.com"@
}

/// The REST API base URL that belongs to a host name.
pub open spec fn api_base_for(hostname: Seq<char>) -> Seq<char> {
    if hostname == github_dot_com() {
        "https://api.github.com"@
    } else {
        "https://"@ + hostname + "/api/v3"@
    }
}

/// The abstract value of a [`Host`].
pub struct HostView {
    pub hostname: Seq<char>,
    pub api_base: Seq<char>,
}

/// Represents a GitHub host (github.com or a GHES instance).
#[derive(Debug)]
pub struct Host {
    hostname: String,
    api_base: String,
}

impl View for Host {
    type V = HostView;

    closed spec fn view(&self) -> HostView {
        HostView { hostname: self.hostname@, api_base: self.api_base@ }
    }
}

impl Host {
    /// Create a new `Host` for the given hostname.
    ///
    /// For `github.com` the API base is `https://api.github.com`; for any
    /// other host it is `https://<hostname>/api/v3`.
    pub fn new(hostname: &str) -> (h: Host)
        ensures
            h@.hostname == hostname@,
            h@.api_base == api_base_for(hostname@),
    {
        let api_base = if str_eq(hostname, "github.com") {
            "https://api.github.com".to_owned()
        } else {
            let mut b = "https://".to_owned();
            b.append(hostname);
            b.append("/api/v3");
            b
        };
        Host { hostname: hostname.to_owned(), api_base }
    }

    /// Returns the hostname (e.g. `github.com`).
    pub fn hostname(&self) -> (r: &str)
        ensures
            r@ == self@.hostname,
    {
        self.hostname.as_str()
    }

    /// Returns the REST API base URL (e.g. `https://api.github.com`).
    pub fn api_base(&self) -> (r: &str)
        ensures
            r@ == self@.api_base,
    {
        self.api_base.as_str()
    }

    /// Build a full API URL by joining the API base with the given path.
    pub fn api_url(&self, path: &str) -> (r: String)
        ensures
            r@ == self@.api_base + path@,
    {
        let mut u = self.api_base.clone();
        u.append(path);
        u
    }

    /// Build the OAuth device code URL for this host.
    pub fn device_code_url(&self) -> (r: String)
        ensures
            r@ == "https://"@ + self@.hostname + "/login/device/code"@,
    {
        let mut u = "https://".to_owned();
        u.append(self.hostname.as_str());
        u.append("/login/device/code");
        u
    }

    /// Build the OAuth access token URL for this host.
    pub fn access_token_url(&self) -> (r: String)
        ensures
            r@ == "https://"@ + self@.hostname + "/login/oauth/access_token"@,
    {
        let mut u = "https://".to_owned();
        u.append(self.hostname.as_str());
        u.append("/login/oauth/access_token");
        u
    }

    /// Build the device activation URL shown to the user.
    pub fn device_activation_url(&self) -> (r: String)
        ensures
            r@ == "https://"@ + self@.hostname + "/login/device"@,
    {
        let mut u = "https://".to_owned();
        u.append(self.hostname.as_str());
        u.append("/login/device");
        u
    }
}

impl Clone for Host {
    fn clone(&self) -> (r: Host)
        ensures
            r@ == self@,
    {
        Host { hostname: self.hostname.clone(), api_base: self.api_base.clone() }
    }
}

impl Default for Host {
    /// The github.com host.
    fn default() -> (h: Host)
        ensures
            h@.hostname == github_dot_com(),
            h@.api_base == api_base_for(github_dot_com()),
    {
        Host::new("github.com")
    }
}

} // verus!
