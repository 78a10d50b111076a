//! `gor extension`: extensions, listed from the repositories the user owns.
use vstd::prelude::*;
use vstd::string::*;
use crate::cmd::classroom::list_output;
use crate::cmd::flow::{Step, array_items, fails_with, http_failure, http_failure_message, json_output, lines_of,
    one_line, push_line, take_items};
use crate::cmd::keys::{dash, or_text};
use crate::cmd::util::{truncate, truncated};
use crate::json::{Json, str_member};
use crate::request::{ApiResponse, is_success};
use crate::table::{pad_right, push_padded_right};

verus! {

/// The path that lists the candidates: the user's own repositories.
pub open spec fn list_path() -> Seq<char> {
    "/user/repos?type=owner&per_page=100&sort=full_name"@
}

/// One row of the extension table.
pub open spec fn extension_row(r: Json) -> Seq<char> {
    pad_right(truncated(or_text(str_member(r, "full_name"@), dash()), 30), 30) + "  "@
        + truncated(or_text(str_member(r, "description"@), dash()), 50)
}

/// What the extension list prints.
pub open spec fn extension_table(rs: Seq<Json>) -> Seq<Seq<char>> {
    if rs.len() == 0 {
        seq!["No extensions found."@]
    } else {
        seq![pad_right("NAME"@, 30) + "  DESCRIPTION"@] + rs.map_values(|r: Json| extension_row(r))
    }
}

fn text_or<'a>(t: Option<&'a str>, d: &'a str) -> (r: &'a str)
    ensures
        r@ == or_text(match t { Some(x) => Some(x@), None => None }, d@),
{
    match t {
        Some(x) => x,
        None => d,
    }
}

/// The lines of the extension list.
pub fn extension_table_lines(rs: &Vec<Json>) -> (r: Vec<String>)
    ensures
        lines_of(r@) == extension_table(rs@),
{
    if rs.len() == 0 {
        return one_line("No extensions found.".to_owned());
    }
    let mut header = String::new();
    push_padded_right(&mut header, "NAME", 30);
    header.append("  DESCRIPTION");
    let mut lines = one_line(header);
    let mut i: usize = 0;
    while i < rs.len()
        invariant
            i <= rs@.len(),
            rs@.len() > 0,
            lines_of(lines@) == seq![pad_right("NAME"@, 30) + "  DESCRIPTION"@]
                + rs@.take(i as int).map_values(|x: Json| extension_row(x)),
        decreases rs@.len() - i,
    {
        let mut line = String::new();
        push_padded_right(&mut line, truncate(text_or(rs[i].str_member("full_name"), "\u{2014}"), 30).as_str(), 30);
        line.append("  ");
        line.append(truncate(text_or(rs[i].str_member("description"), "\u{2014}"), 50).as_str());
        push_line(&mut lines, line);
        assert(rs@.take(i + 1).map_values(|x: Json| extension_row(x))
            =~= rs@.take(i as int).map_values(|x: Json| extension_row(x)).push(extension_row(rs@[i as int])));
        i = i + 1;
    }
    assert(rs@.take(rs@.len() as int) == rs@);
    lines
}

/// What `gor extension list` ends with, given the reply to its request.
pub open spec fn list_ending(json: Option<Vec<String>>, resp: ApiResponse, step: Step) -> bool {
    if !is_success(resp.status) {
        fails_with(step, http_failure("failed to list extensions"@, resp.status_text@))
    } else {
        match array_items(resp.body) {
            None => fails_with(step, "failed to parse response"@),
            Some(items) => list_output(json, items@, extension_table(items@), step),
        }
    }
}

/// Reads the reply to the extension listing.
pub fn list_result(json: &Option<Vec<String>>, resp: ApiResponse) -> (r: Step)
    ensures
        list_ending(*json, resp, r),
{
    if !(200 <= resp.status && resp.status <= 299) {
        return Step::Fail(http_failure_message("failed to list extensions", resp.status_text.as_str()));
    }
    match take_items(resp.body) {
        None => Step::Fail("failed to parse response".to_owned()),
        Some(rs) => if json.is_some() {
            Step::PrintJson(json_output(Json::Array(rs), json))
        } else {
            Step::Print(extension_table_lines(&rs))
        },
    }
}

/// What `gor extension remove` prints: whether extension `name` was there
/// to remove.
pub fn removal_message(name: &str, installed: bool) -> (r: String)
    ensures
        installed ==> r@ == "Extension '"@ + name@ + "' removed."@,
        !installed ==> r@ == "Extension '"@ + name@ + "' is not installed."@,
{
    let mut m = "Extension '".to_owned();
    m.append(name);
    if installed {
        m.append("' removed.");
    } else {
        m.append("' is not installed.");
    }
    m
}

} // verus!
