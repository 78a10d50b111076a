//! # gor — GitHub on Rust
//!
//! The logic of a GitHub command-line client: API URLs for github.com and
//! Enterprise hosts, request bodies and paths, filters, formatting of dates,
//! counts and tables, configuration and token storage, and the decisions
//! each command takes between its requests.
use vstd::prelude::*;

pub mod auth;
pub mod cache;
pub mod cli;
pub mod cmd;
pub mod config;
pub mod error;
pub mod host;
pub mod json;
pub mod keys;
pub mod keyring_store;
pub mod label;
pub mod org;
pub mod output;
pub mod project;
pub mod repository;
pub mod request;
pub mod search;
pub mod secret;
pub mod strmap;
pub mod table;
pub mod text;
pub mod util;
pub mod variable;
pub mod workflow;

verus! {

/// The application: construct with [`Gor::new`]; the program parses the
/// command line and dispatches it.
#[derive(Debug)]
pub struct Gor;

impl Gor {
    /// Create a new `Gor` application instance.
    pub fn new() -> (g: Gor)
        ensures
            g == Gor,
    {
        Gor
    }
}

impl Default for Gor {
    fn default() -> (g: Gor)
        ensures
            g == Gor,
    {
        Gor::new()
    }
}

} // verus!
