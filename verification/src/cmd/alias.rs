//! `gor alias`: command aliases kept in the configuration under `aliases`.
use vstd::prelude::*;
use vstd::string::*;
use crate::cmd::flow::{lines_of, one_line, push_line};
use crate::cmd::util::{truncate, truncated};
use crate::json::texts_of;
use crate::table::{pad_right, push_padded_right};
use crate::text::{join_strings, join_with};

verus! {

/// An alias as the configuration holds it: its name and its command, each
/// when it is text.
#[derive(Debug)]
pub struct AliasEntry {
    pub name: Option<String>,
    pub command: Option<String>,
}

/// A text, or `?` when there is none.
pub open spec fn or_question(t: Option<String>) -> Seq<char> {
    match t {
        Some(s) => s@,
        None => "?"@,
    }
}

/// One row of the alias table.
pub open spec fn alias_row(e: AliasEntry) -> Seq<char> {
    pad_right(truncated(or_question(e.name), 20), 20) + "  "@ + or_question(e.command)
}

/// What `gor alias list` prints: the table of the aliases, or a line
/// saying there are none when the configuration holds no alias mapping.
pub open spec fn alias_table(entries: Option<Vec<AliasEntry>>) -> Seq<Seq<char>> {
    match entries {
        None => seq!["No aliases configured."@],
        Some(es) => seq![pad_right("ALIAS"@, 20) + "  COMMAND"@] + es@.map_values(|e: AliasEntry| alias_row(e)),
    }
}

fn text_or_question(t: &Option<String>) -> (r: &str)
    ensures
        r@ == or_question(*t),
{
    match t {
        Some(s) => s.as_str(),
        None => "?",
    }
}

/// The lines of the alias list.
pub fn alias_table_lines(entries: &Option<Vec<AliasEntry>>) -> (r: Vec<String>)
    ensures
        lines_of(r@) == alias_table(*entries),
{
    let es = match entries {
        None => return one_line("No aliases configured.".to_owned()),
        Some(es) => es,
    };
    let mut header = String::new();
    push_padded_right(&mut header, "ALIAS", 20);
    header.append("  COMMAND");
    let mut lines = one_line(header);
    let mut i: usize = 0;
    while i < es.len()
        invariant
            i <= es@.len(),
            lines_of(lines@) == seq![pad_right("ALIAS"@, 20) + "  COMMAND"@]
                + es@.take(i as int).map_values(|e: AliasEntry| alias_row(e)),
        decreases es@.len() - i,
    {
        let mut line = String::new();
        push_padded_right(&mut line, truncate(text_or_question(&es[i].name), 20).as_str(), 20);
        line.append("  ");
        line.append(text_or_question(&es[i].command));
        push_line(&mut lines, line);
        assert(es@.take(i + 1).map_values(|e: AliasEntry| alias_row(e))
            =~= es@.take(i as int).map_values(|e: AliasEntry| alias_row(e)).push(alias_row(es@[i as int])));
        i = i + 1;
    }
    assert(es@.take(es@.len() as int) == es@);
    lines
}

/// The command an alias stands for: its words joined with spaces; there
/// must be at least one.
pub fn alias_command(words: &Vec<String>) -> (r: Result<String, String>)
    ensures
        words@.len() == 0 ==> (r matches Err(m) && m@ == "alias command is required"@),
        words@.len() > 0 ==> (r matches Ok(c) && c@ == join_with(texts_of(words@), " "@)),
{
    if words.len() == 0 {
        return Err("alias command is required".to_owned());
    }
    let c = join_strings(words, " ");
    assert(words@.map_values(|p: String| p@) == texts_of(words@));
    Ok(c)
}

/// What `gor alias set` prints.
pub fn alias_set_message(name: &str, command: &str) -> (r: String)
    ensures
        r@ == "Alias '"@ + name@ + "' set to '"@ + command@ + "'"@,
{
    let mut m = "Alias '".to_owned();
    m.append(name);
    m.append("' set to '");
    m.append(command);
    m.append("'");
    m
}

} // verus!
