//! Command logic: what each subcommand decides, apart from the I/O it drives.
pub mod alias;
pub mod api;
pub mod attestation;
pub mod auth;
pub mod browse;
pub mod cache;
pub mod classroom;
pub mod codespace;
pub mod config;
pub mod copilot;
pub mod extension;
pub mod finder;
pub mod flow;
pub mod gist;
pub mod issue;
pub mod keys;
pub mod label;
pub mod org;
pub mod pr;
pub mod project;
pub mod release;
pub mod repo;
pub mod ruleset;
pub mod runs;
pub mod scoped;
pub mod search;
pub mod store;
pub mod util;
pub mod workflow;
