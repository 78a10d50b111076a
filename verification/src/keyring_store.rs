//! Per-host token storage.
//!
//! Tokens and user logins are kept per host in a hosts file
//! (`~/.config/gor/hosts.yml`). This module holds the file's contents and the
//! operations on them; reading and writing the file is done by the caller.
use vstd::prelude::*;
use crate::strmap::StrMap;

verus! {

/// The characters of an optional string.
pub open spec fn opt_view(s: Option<String>) -> Option<Seq<char>> {
    match s {
        Some(t) => Some(t@),
        None => None,
    }
}

/// Per-host token storage.
#[derive(Debug)]
pub struct HostEntry {
    /// The OAuth access token.
    pub token: Option<String>,
    /// The authenticated user's login name.
    pub user: Option<String>,
}

/// The abstract value of a [`HostEntry`].
pub struct HostEntryView {
    pub token: Option<Seq<char>>,
    pub user: Option<Seq<char>>,
}

impl View for HostEntry {
    type V = HostEntryView;

    open spec fn view(&self) -> HostEntryView {
        HostEntryView { token: opt_view(self.token), user: opt_view(self.user) }
    }
}

impl Default for HostEntry {
    fn default() -> (e: HostEntry)
        ensures
            e@ == empty_entry(),
    {
        HostEntry { token: None, user: None }
    }
}

/// An entry with neither token nor user.
pub open spec fn empty_entry() -> HostEntryView {
    HostEntryView { token: None, user: None }
}

/// Top-level hosts file structure: entries keyed by hostname.
#[derive(Debug)]
pub struct HostsFile {
    /// Host-scoped entries keyed by hostname.
    pub hosts: StrMap<HostEntry>,
}

impl View for HostsFile {
    type V = Map<Seq<char>, HostEntryView>;

    open spec fn view(&self) -> Map<Seq<char>, HostEntryView> {
        self.hosts@.map_values(|e: HostEntry| e@)
    }
}

impl Default for HostsFile {
    fn default() -> (f: HostsFile)
        ensures
            f@ == Map::<Seq<char>, HostEntryView>::empty(),
    {
        let f = HostsFile { hosts: StrMap::new() };
        assert(f@ =~= Map::<Seq<char>, HostEntryView>::empty());
        f
    }
}

/// The entry stored for `host` (an empty one when there is none).
pub open spec fn entry_of(m: Map<Seq<char>, HostEntryView>, host: Seq<char>) -> HostEntryView {
    if m.contains_key(host) { m[host] } else { empty_entry() }
}

/// The token stored for `host`.
pub open spec fn stored_token(m: Map<Seq<char>, HostEntryView>, host: Seq<char>) -> Option<Seq<char>> {
    entry_of(m, host).token
}

/// The user login stored for `host`.
pub open spec fn stored_user(m: Map<Seq<char>, HostEntryView>, host: Seq<char>) -> Option<Seq<char>> {
    entry_of(m, host).user
}

/// The hosts after `token` is stored for `host`.
pub open spec fn with_token(m: Map<Seq<char>, HostEntryView>, host: Seq<char>, token: Seq<char>) -> Map<Seq<char>, HostEntryView> {
    m.insert(host, HostEntryView { token: Some(token), user: entry_of(m, host).user })
}

/// The hosts after `user` is stored for `host`.
pub open spec fn with_user(m: Map<Seq<char>, HostEntryView>, host: Seq<char>, user: Seq<char>) -> Map<Seq<char>, HostEntryView> {
    m.insert(host, HostEntryView { token: entry_of(m, host).token, user: Some(user) })
}

/// The hosts after the token of `host` is deleted: an existing entry loses
/// both its token and its user; other hosts are untouched.
pub open spec fn without_token(m: Map<Seq<char>, HostEntryView>, host: Seq<char>) -> Map<Seq<char>, HostEntryView> {
    if m.contains_key(host) { m.insert(host, empty_entry()) } else { m }
}

fn clone_opt(s: &Option<String>) -> (r: Option<String>)
    ensures
        opt_view(r) == opt_view(*s),
{
    match s {
        Some(t) => Some(t.clone()),
        None => None,
    }
}

/// Takes the entry of `host` out of `hosts` (an empty one when absent).
fn take_entry(hosts: &mut HostsFile, host: &str) -> (e: HostEntry)
    ensures
        e@ == entry_of(old(hosts)@, host@),
        final(hosts)@ == old(hosts)@.remove(host@),
{
    let r = hosts.hosts.remove(host);
    proof {
        assert(hosts@ =~= old(hosts)@.remove(host@));
    }
    match r {
        Some(e) => e,
        None => HostEntry::default(),
    }
}

fn put_entry(hosts: &mut HostsFile, host: &str, e: HostEntry)
    ensures
        final(hosts)@ == old(hosts)@.insert(host@, e@),
{
    hosts.hosts.insert(host.to_owned(), e);
    proof {
        assert(hosts@ =~= old(hosts)@.insert(host@, e@));
    }
}

/// Store an OAuth token for the given host.
pub fn set_token(hosts: &mut HostsFile, host: &str, token: &str)
    ensures
        final(hosts)@ == with_token(old(hosts)@, host@, token@),
{
    let mut e = take_entry(hosts, host);
    e.token = Some(token.to_owned());
    put_entry(hosts, host, e);
    proof {
        assert(hosts@ =~= with_token(old(hosts)@, host@, token@));
    }
}

/// Retrieve the OAuth token for the given host (`None` when none is stored).
pub fn get_token(hosts: &HostsFile, host: &str) -> (r: Option<String>)
    ensures
        opt_view(r) == stored_token(hosts@, host@),
{
    match hosts.hosts.get(host) {
        Some(e) => clone_opt(&e.token),
        None => None,
    }
}

/// Delete the OAuth token (and the user login) stored for the given host.
pub fn delete_token(hosts: &mut HostsFile, host: &str)
    ensures
        final(hosts)@ == without_token(old(hosts)@, host@),
{
    if hosts.hosts.contains_key(host) {
        let mut e = take_entry(hosts, host);
        e.token = None;
        e.user = None;
        put_entry(hosts, host, e);
        proof {
            assert(hosts@ =~= without_token(old(hosts)@, host@));
        }
    }
}

/// Store the authenticated user's login name for the given host.
pub fn set_user(hosts: &mut HostsFile, host: &str, user: &str)
    ensures
        final(hosts)@ == with_user(old(hosts)@, host@, user@),
{
    let mut e = take_entry(hosts, host);
    e.user = Some(user.to_owned());
    put_entry(hosts, host, e);
    proof {
        assert(hosts@ =~= with_user(old(hosts)@, host@, user@));
    }
}

/// Retrieve the stored user login for the given host.
pub fn get_user(hosts: &HostsFile, host: &str) -> (r: Option<String>)
    ensures
        opt_view(r) == stored_user(hosts@, host@),
{
    match hosts.hosts.get(host) {
        Some(e) => clone_opt(&e.user),
        None => None,
    }
}

/// A stored token is read back; storing it keeps the host's user login and
/// every other host's entry.
pub proof fn law_token_round_trip(m: Map<Seq<char>, HostEntryView>, host: Seq<char>, token: Seq<char>, other: Seq<char>)
    requires
        other != host,
    ensures
        stored_token(with_token(m, host, token), host) == Some(token),
        stored_user(with_token(m, host, token), host) == stored_user(m, host),
        entry_of(with_token(m, host, token), other) == entry_of(m, other),
{
}

/// A stored user login is read back; storing it keeps the host's token and
/// every other host's entry.
pub proof fn law_user_round_trip(m: Map<Seq<char>, HostEntryView>, host: Seq<char>, user: Seq<char>, other: Seq<char>)
    requires
        other != host,
    ensures
        stored_user(with_user(m, host, user), host) == Some(user),
        stored_token(with_user(m, host, user), host) == stored_token(m, host),
        entry_of(with_user(m, host, user), other) == entry_of(m, other),
{
}

/// After a delete no token and no user are stored for the host, and every
/// other host's entry is unchanged.
pub proof fn law_delete_clears(m: Map<Seq<char>, HostEntryView>, host: Seq<char>, other: Seq<char>)
    requires
        other != host,
    ensures
        stored_token(without_token(m, host), host) == None::<Seq<char>>,
        stored_user(without_token(m, host), host) == None::<Seq<char>>,
        entry_of(without_token(m, host), other) == entry_of(m, other),
{
}

/// Deleting after storing leaves no token, whatever was stored before.
pub proof fn law_set_then_delete(m: Map<Seq<char>, HostEntryView>, host: Seq<char>, token: Seq<char>)
    ensures
        stored_token(without_token(with_token(m, host, token), host), host) == None::<Seq<char>>,
{
}

} // verus!
