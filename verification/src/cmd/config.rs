//! `gor config`: reading, setting and listing configuration values.
//!
//! The program loads the configuration file before a command and saves it
//! after a set; the functions here decide what is read, written and said.
use vstd::prelude::*;
use vstd::string::*;
use crate::config::{GorConfig, GorConfigView, lookup, opt_str_view, opt_deref, get};

verus! {

/// What `gor config get` ends with: the value (the program prints it), or
/// the message for a key that is not set.
pub fn get_value<'a>(config: &'a GorConfig, key: &str, hostname: Option<&str>) -> (r: Result<&'a serde_yaml_ng::Value, String>)
    ensures
        match lookup(config@, key@, opt_str_view(hostname)) {
            Some(v) => r matches Ok(x) && *x == v,
            None => r matches Err(m) && m@ == "config key '"@ + key@ + "' is not set"@,
        },
{
    match get(config, key, hostname) {
        Some(v) => Ok(v),
        None => {
            let mut m = "config key '".to_owned();
            m.append(key);
            m.append("' is not set");
            Err(m)
        },
    }
}

/// The line `gor config set` prints.
pub open spec fn set_line(key: Seq<char>, value: Seq<char>, hostname: Option<Seq<char>>) -> Seq<char> {
    "Set '"@ + key + "' to '"@ + value + "'"@ + match hostname {
        Some(h) => " for host '"@ + h + "'"@,
        None => Seq::empty(),
    }
}

/// Builds [`set_line`].
pub fn set_message(key: &str, value: &str, hostname: Option<&str>) -> (r: String)
    ensures
        r@ == set_line(key@, value@, opt_str_view(hostname)),
{
    let mut m = "Set '".to_owned();
    m.append(key);
    m.append("' to '");
    m.append(value);
    m.append("'");
    if let Some(h) = hostname {
        m.append(" for host '");
        m.append(h);
        m.append("'");
    }
    m
}

/// What `gor config list` prints.
#[derive(Debug)]
pub enum Listing {
    /// A comment line: nothing to show.
    Comment(String),
    /// The host's values, as YAML.
    HostValues,
    /// The whole configuration, as YAML.
    Everything,
}

/// What `gor config list` prints for a configuration: with a host, its
/// values, or a comment when it has none; without one, everything, or a
/// comment when nothing is set.
pub open spec fn listing_of(c: GorConfigView, hostname: Option<Seq<char>>, l: Listing) -> bool {
    match hostname {
        Some(h) => if c.hosts.contains_key(h) && c.hosts[h].dom() != Set::<Seq<char>>::empty() {
            l is HostValues
        } else {
            l matches Listing::Comment(m) && m@ == "# No host-scoped config for '"@ + h + "'"@
        },
        None => if c.global.dom() == Set::<Seq<char>>::empty() && c.hosts.dom() == Set::<Seq<char>>::empty() {
            l matches Listing::Comment(m) && m@ == "# No configuration set"@
        } else {
            l is Everything
        },
    }
}

/// Decides [`listing_of`].
pub fn listing(config: &GorConfig, hostname: Option<&str>) -> (r: Listing)
    ensures
        listing_of(config@, opt_str_view(hostname), r),
{
    match hostname {
        Some(h) => {
            let non_empty = match config.hosts.get(h) {
                Some(m) => {
                    assert(config@.hosts[h@] == m@);
                    !m.is_empty()
                },
                None => false,
            };
            if non_empty {
                Listing::HostValues
            } else {
                let mut m = "# No host-scoped config for '".to_owned();
                m.append(h);
                m.append("'");
                Listing::Comment(m)
            }
        },
        None => if config.global.is_empty() && config.hosts.is_empty() {
            assert(config@.hosts.dom() =~= config.hosts@.dom());
            Listing::Comment("# No configuration set".to_owned())
        } else {
            Listing::Everything
        },
    }
}

} // verus!
