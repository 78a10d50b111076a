//! Configuration values.
//!
//! The configuration (`~/.config/gor/config.yml`) holds global keys and
//! host-scoped overrides under a top-level `hosts` map. This module holds the
//! configuration's contents and the rules on them; loading and saving the
//! file is done by the caller.
use vstd::prelude::*;
use vstd::string::*;
use crate::strmap::StrMap;
use crate::text::str_eq;

verus! {

/// A configuration value, as YAML gives it; carried through unchanged.
#[verifier::external_type_specification]
#[verifier::external_body]
pub struct ExYamlValue(serde_yaml_ng::Value);

/// Top-level configuration structure.
#[derive(Debug)]
pub struct GorConfig {
    /// Global config keys (editor, browser, pager, git_protocol, prompt).
    pub global: StrMap<serde_yaml_ng::Value>,
    /// Host-scoped configuration overrides.
    pub hosts: StrMap<StrMap<serde_yaml_ng::Value>>,
}

/// The abstract value of a [`GorConfig`].
pub struct GorConfigView {
    pub global: Map<Seq<char>, serde_yaml_ng::Value>,
    pub hosts: Map<Seq<char>, Map<Seq<char>, serde_yaml_ng::Value>>,
}

impl View for GorConfig {
    type V = GorConfigView;

    open spec fn view(&self) -> GorConfigView {
        GorConfigView {
            global: self.global@,
            hosts: self.hosts@.map_values(|m: StrMap<serde_yaml_ng::Value>| m@),
        }
    }
}

impl Default for GorConfig {
    fn default() -> (c: GorConfig)
        ensures
            c@.global == Map::<Seq<char>, serde_yaml_ng::Value>::empty(),
            c@.hosts == Map::<Seq<char>, Map<Seq<char>, serde_yaml_ng::Value>>::empty(),
    {
        let c = GorConfig { global: StrMap::new(), hosts: StrMap::new() };
        assert(c@.hosts =~= Map::<Seq<char>, Map<Seq<char>, serde_yaml_ng::Value>>::empty());
        c
    }
}

/// Supported top-level config keys.
pub const SUPPORTED_KEYS: [&'static str; 5] = ["editor", "browser", "pager", "git_protocol", "prompt"];

/// Whether `key` is one of the supported config keys.
pub open spec fn is_supported_key(key: Seq<char>) -> bool {
    key == "editor"@ || key == "browser"@ || key == "pager"@ || key == "git_protocol"@ || key == "prompt"@
}

/// The value a config read gives: the host-scoped value when `host` is given
/// and holds the key, else the global one.
pub open spec fn lookup(c: GorConfigView, key: Seq<char>, host: Option<Seq<char>>) -> Option<serde_yaml_ng::Value> {
    match host {
        Some(h) if c.hosts.contains_key(h) && c.hosts[h].contains_key(key) => Some(c.hosts[h][key]),
        _ => if c.global.contains_key(key) { Some(c.global[key]) } else { None },
    }
}

/// The configuration after `key` is set to `value`, under `host` when given,
/// else globally.
pub open spec fn with_value(c: GorConfigView, key: Seq<char>, value: serde_yaml_ng::Value, host: Option<Seq<char>>) -> GorConfigView {
    match host {
        Some(h) => GorConfigView {
            global: c.global,
            hosts: c.hosts.insert(h, (if c.hosts.contains_key(h) { c.hosts[h] } else { Map::empty() }).insert(key, value)),
        },
        None => GorConfigView { global: c.global.insert(key, value), hosts: c.hosts },
    }
}

/// The characters of an optional string slice.
pub open spec fn opt_str_view(s: Option<&str>) -> Option<Seq<char>> {
    match s {
        Some(t) => Some(t@),
        None => None,
    }
}

/// What a reference to an optional value points at.
pub open spec fn opt_deref<'a>(r: Option<&'a serde_yaml_ng::Value>) -> Option<serde_yaml_ng::Value> {
    match r {
        Some(v) => Some(*v),
        None => None,
    }
}

/// Get a config value, checking host-scoped overrides first.
///
/// If `host` is provided, checks `hosts.<host>.<key>` first, then falls back
/// to the global key.
pub fn get<'a>(config: &'a GorConfig, key: &str, host: Option<&str>) -> (r: Option<&'a serde_yaml_ng::Value>)
    ensures
        opt_deref(r) == lookup(config@, key@, opt_str_view(host)),
{
    if let Some(h) = host {
        if let Some(host_config) = config.hosts.get(h) {
            if let Some(value) = host_config.get(key) {
                return Some(value);
            }
        }
    }
    config.global.get(key)
}

/// Set a config value. If `host` is provided, sets it under `hosts.<host>.<key>`.
pub fn set(config: &mut GorConfig, key: &str, value: serde_yaml_ng::Value, host: Option<&str>)
    ensures
        final(config)@ == with_value(old(config)@, key@, value, opt_str_view(host)),
{
    match host {
        Some(h) => {
            let mut inner = match config.hosts.remove(h) {
                Some(m) => m,
                None => StrMap::new(),
            };
            inner.insert(key.to_owned(), value);
            config.hosts.insert(h.to_owned(), inner);
            proof {
                assert(config@.hosts =~= with_value(old(config)@, key@, value, opt_str_view(host)).hosts);
            }
        },
        None => {
            config.global.insert(key.to_owned(), value);
        },
    }
}

/// The error text for an unknown key.
pub open spec fn unknown_key_message(key: Seq<char>) -> Seq<char> {
    "unknown config key '"@ + key + "'. Supported keys: editor, browser, pager, git_protocol, prompt"@
}

/// The error text for a bad `git_protocol` value.
pub open spec fn bad_protocol_message(value: Seq<char>) -> Seq<char> {
    "invalid value '"@ + value + "' for git_protocol: must be 'https' or 'ssh'"@
}

/// Validate a config key and value combination.
///
/// Fails for a key outside [`SUPPORTED_KEYS`] and for a `git_protocol`
/// value other than `https` or `ssh`.
pub fn validate(key: &str, value: &str) -> (r: Result<(), String>)
    ensures
        !is_supported_key(key@) ==> (r matches Err(m) && m@ == unknown_key_message(key@)),
        is_supported_key(key@) && key@ == "git_protocol"@ && value@ != "https"@ && value@ != "ssh"@
            ==> (r matches Err(m) && m@ == bad_protocol_message(value@)),
        is_supported_key(key@) && !(key@ == "git_protocol"@ && value@ != "https"@ && value@ != "ssh"@)
            ==> r is Ok,
{
    let supported = str_eq(key, "editor") || str_eq(key, "browser") || str_eq(key, "pager")
        || str_eq(key, "git_protocol") || str_eq(key, "prompt");
    if !supported {
        let mut m = "unknown config key '".to_owned();
        m.append(key);
        m.append("'. Supported keys: editor, browser, pager, git_protocol, prompt");
        return Err(m);
    }
    if str_eq(key, "git_protocol") && !str_eq(value, "https") && !str_eq(value, "ssh") {
        let mut m = "invalid value '".to_owned();
        m.append(value);
        m.append("' for git_protocol: must be 'https' or 'ssh'");
        return Err(m);
    }
    Ok(())
}

/// A value that was set is read back at the same scope.
pub proof fn law_read_after_set(c: GorConfigView, key: Seq<char>, value: serde_yaml_ng::Value, host: Option<Seq<char>>)
    ensures
        lookup(with_value(c, key, value, host), key, host) == Some(value),
{
}

/// A host-scoped value overrides the global one for that host; without one,
/// the host reads the global value.
pub proof fn law_host_override(c: GorConfigView, key: Seq<char>, host: Seq<char>)
    ensures
        c.hosts.contains_key(host) && c.hosts[host].contains_key(key)
            ==> lookup(c, key, Some(host)) == Some(c.hosts[host][key]),
        !(c.hosts.contains_key(host) && c.hosts[host].contains_key(key))
            ==> lookup(c, key, Some(host)) == lookup(c, key, None),
{
}

/// Setting a host-scoped value leaves global reads and other hosts' reads
/// unchanged; setting a global value leaves host-scoped overrides in place.
pub proof fn law_set_scopes_apart(
    c: GorConfigView,
    key: Seq<char>,
    value: serde_yaml_ng::Value,
    host: Seq<char>,
    other: Seq<char>,
    other_key: Seq<char>,
)
    requires
        other != host,
    ensures
        lookup(with_value(c, key, value, Some(host)), other_key, None) == lookup(c, other_key, None),
        lookup(with_value(c, key, value, Some(host)), other_key, Some(other)) == lookup(c, other_key, Some(other)),
        c.hosts.contains_key(host) && c.hosts[host].contains_key(other_key)
            ==> lookup(with_value(c, key, value, None), other_key, Some(host)) == Some(c.hosts[host][other_key]),
{
}

} // verus!
