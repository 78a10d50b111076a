//! Command-line arguments, as plain values.
//!
//! The parser that fills these lives with the program; the library only
//! reads them.
use vstd::prelude::*;

verus! {

/// A fast, self-contained GitHub CLI: the parsed command line.
#[derive(Debug)]
pub struct Args {
    /// GitHub hostname for GitHub Enterprise Server (default: github.com).
    pub hostname: Option<String>,
    /// Subcommand to execute.
    pub command: Command,
}

/// Top-level subcommands.
#[derive(Debug)]
pub enum Command {
    /// Authenticate with a GitHub account.
    Auth(AuthCommand),
    /// Work with GitHub repositories.
    Repo(RepoCommand),
    /// Manage configuration values.
    Config(ConfigCommand),
}

/// Subcommands for `gor repo`.
#[derive(Debug)]
pub enum RepoCommand {
    /// View a repository's description, stats, and metadata.
    View {
        /// Repository to view (OWNER/REPO format).
        owner_repo: Option<String>,
        /// Open the repository in the default browser.
        web: bool,
        /// Output as JSON, optionally restricted to the named fields.
        json: Option<Vec<String>>,
        /// GitHub hostname for GitHub Enterprise Server.
        hostname: Option<String>,
    },
}

/// Subcommands for `gor auth`.
#[derive(Debug)]
pub enum AuthCommand {
    /// Log in to a GitHub account using the OAuth device flow.
    Login {
        /// GitHub hostname (default: github.com).
        hostname: Option<String>,
        /// Request specific OAuth scopes (comma-separated).
        scopes: Option<String>,
        /// Read token from stdin instead of starting the device flow.
        with_token: bool,
    },
    /// Log out of a GitHub account.
    Logout {
        /// GitHub hostname (default: github.com).
        hostname: Option<String>,
    },
    /// Show the current authentication status.
    Status {
        /// GitHub hostname (default: github.com).
        hostname: Option<String>,
    },
}

/// Subcommands for `gor config`.
#[derive(Debug)]
pub enum ConfigCommand {
    /// Get a config value.
    Get {
        /// Config key to read.
        key: String,
    },
    /// Set a config value.
    SetValue {
        /// Config key to set.
        key: String,
        /// Value to set.
        value: String,
    },
    /// List all config values.
    List,
}

/// Arguments of `gor api`.
#[derive(Debug)]
pub struct ApiCommand {
    /// The endpoint path, with or without a leading `/`.
    pub endpoint: String,
    /// The HTTP method (`GET` when empty).
    pub method: String,
    /// `key=value` form fields, URL-encoded into the body.
    pub fields: Vec<String>,
    /// `key=value` form fields, put into the body as they are.
    pub raw_fields: Vec<String>,
    /// Extra request headers, `Key: Value`.
    pub headers: Vec<String>,
    /// A file (or `@-` for stdin) whose contents are the body.
    pub input: Option<String>,
    /// Follow `Link` headers and collect every page.
    pub paginate: bool,
    /// GitHub hostname for GitHub Enterprise Server.
    pub hostname: Option<String>,
    /// A jq expression to filter the output through.
    pub jq: Option<String>,
    /// A template to format the output with.
    pub template: Option<String>,
    /// Print no status line.
    pub silent: bool,
    /// Print the response status line and headers.
    pub include_headers: bool,
}

/// Subcommands for `gor ssh-key`.
#[derive(Debug)]
pub enum SshKeyCommand {
    /// List the SSH keys of the authenticated user.
    List {
        /// Output as JSON, optionally restricted to the named fields.
        json: Option<Vec<String>>,
        /// GitHub hostname.
        hostname: Option<String>,
    },
    /// Add an SSH public key to the authenticated user's account.
    Add {
        /// A title for the key.
        title: String,
        /// A file holding the public key.
        file: Option<String>,
        /// The public key itself.
        body: Option<String>,
        /// GitHub hostname.
        hostname: Option<String>,
    },
}

/// Subcommands for `gor gpg-key`.
#[derive(Debug)]
pub enum GpgKeyCommand {
    /// List the GPG keys of the authenticated user.
    List {
        /// Output as JSON, optionally restricted to the named fields.
        json: Option<Vec<String>>,
        /// GitHub hostname.
        hostname: Option<String>,
    },
    /// Add a GPG public key to the authenticated user's account.
    Add {
        /// A file holding the armored public key.
        file: Option<String>,
        /// The armored public key itself.
        body: Option<String>,
        /// GitHub hostname.
        hostname: Option<String>,
    },
}

/// Subcommands for `gor cache`.
#[derive(Debug)]
pub enum CacheCommand {
    /// List the Actions caches of a repository.
    List {
        /// Repository (OWNER/REPO).
        repo: Option<String>,
        /// Output as JSON, optionally restricted to the named fields.
        json: Option<Vec<String>>,
        /// GitHub hostname.
        hostname: Option<String>,
    },
}

/// Subcommands for `gor run`.
#[derive(Debug)]
pub enum RunCommand {
    /// List recent workflow runs.
    List {
        /// Only runs of this workflow.
        workflow: Option<String>,
        /// Only runs on this branch.
        branch: Option<String>,
        /// Repository (OWNER/REPO).
        repo: Option<String>,
        /// The number of runs asked for.
        limit: u32,
        /// Output as JSON, optionally restricted to the named fields.
        json: Option<Vec<String>>,
        /// GitHub hostname.
        hostname: Option<String>,
    },
}

} // verus!
