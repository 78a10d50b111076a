//! `gor classroom`: GitHub Classroom classrooms and their assignments.
use vstd::prelude::*;
use vstd::string::*;
use crate::cmd::flow::{Step, array_items, asks_fields, fails_with, http_failure, http_failure_message, json_output,
    lines_of, one_line, prints, push_line, take_items};
use crate::cmd::keys::{dash, or_text};
use crate::cmd::util::{truncate, truncated};
use crate::cmd::workflow::or_zero;
use crate::json::{Json, JsonValue, member, str_member, u64_member, value_of, values_of};
use crate::output::{decimal, decimal_string};
use crate::request::{ApiResponse, is_success};
use crate::table::{pad_right, push_padded_right};

verus! {

/// The header line of the classroom table.
pub open spec fn classroom_header() -> Seq<char> {
    pad_right("ID"@, 8) + "  "@ + pad_right("NAME"@, 30) + "  ORGANIZATION"@
}

/// One row of the classroom table.
pub open spec fn classroom_row(c: Json) -> Seq<char> {
    pad_right(decimal(or_zero(u64_member(c, "id"@)) as nat), 8) + "  "@
        + pad_right(truncated(or_text(str_member(c, "name"@), dash()), 30), 30) + "  "@
        + or_text(str_member(member(c, "organization"@), "login"@), dash())
}

/// What the classroom list prints.
pub open spec fn classroom_table(cs: Seq<Json>) -> Seq<Seq<char>> {
    if cs.len() == 0 {
        seq!["No classrooms found."@]
    } else {
        seq![classroom_header()] + cs.map_values(|c: Json| classroom_row(c))
    }
}

/// The header line of the assignment table.
pub open spec fn assignment_header() -> Seq<char> {
    pad_right("ID"@, 8) + "  "@ + pad_right("TITLE"@, 30) + "  "@ + pad_right("DEADLINE"@, 20) + "  INVITED"@
}

/// One row of the assignment table.
pub open spec fn assignment_row(a: Json) -> Seq<char> {
    pad_right(decimal(or_zero(u64_member(a, "id"@)) as nat), 8) + "  "@
        + pad_right(truncated(or_text(str_member(a, "title"@), dash()), 30), 30) + "  "@
        + pad_right(or_text(str_member(a, "deadline"@), dash()), 20) + "  "@
        + decimal(or_zero(u64_member(a, "invitations_count"@)) as nat)
}

/// What the assignment list of classroom `id` prints.
pub open spec fn assignment_table(id: u64, as_: Seq<Json>) -> Seq<Seq<char>> {
    if as_.len() == 0 {
        seq!["No assignments found for classroom "@ + decimal(id as nat) + "."@]
    } else {
        seq![assignment_header()] + as_.map_values(|a: Json| assignment_row(a))
    }
}

fn text_or<'a>(t: Option<&'a str>, d: &'a str) -> (r: &'a str)
    ensures
        r@ == or_text(match t { Some(x) => Some(x@), None => None }, d@),
{
    match t {
        Some(x) => x,
        None => d,
    }
}

fn number_or_zero(j: &Json, key: &str) -> (r: String)
    ensures
        r@ == decimal(or_zero(u64_member(*j, key@)) as nat),
{
    let n = match j.u64_member(key) {
        Some(n) => n,
        None => 0,
    };
    decimal_string(n)
}

fn classroom_row_line(c: &Json) -> (r: String)
    ensures
        r@ == classroom_row(*c),
{
    let org = match c.get("organization") {
        Some(o) => o.str_member("login"),
        None => {
            assert(str_member(Json::Null, "login"@) is None);
            None
        },
    };
    let mut line = String::new();
    push_padded_right(&mut line, number_or_zero(c, "id").as_str(), 8);
    line.append("  ");
    push_padded_right(&mut line, truncate(text_or(c.str_member("name"), "\u{2014}"), 30).as_str(), 30);
    line.append("  ");
    line.append(text_or(org, "\u{2014}"));
    line
}

/// The lines of the classroom list.
pub fn classroom_table_lines(cs: &Vec<Json>) -> (r: Vec<String>)
    ensures
        lines_of(r@) == classroom_table(cs@),
{
    if cs.len() == 0 {
        return one_line("No classrooms found.".to_owned());
    }
    let mut header = String::new();
    push_padded_right(&mut header, "ID", 8);
    header.append("  ");
    push_padded_right(&mut header, "NAME", 30);
    header.append("  ORGANIZATION");
    let mut lines = one_line(header);
    let mut i: usize = 0;
    while i < cs.len()
        invariant
            i <= cs@.len(),
            cs@.len() > 0,
            lines_of(lines@) == seq![classroom_header()] + cs@.take(i as int).map_values(|x: Json| classroom_row(x)),
        decreases cs@.len() - i,
    {
        push_line(&mut lines, classroom_row_line(&cs[i]));
        assert(cs@.take(i + 1).map_values(|x: Json| classroom_row(x))
            =~= cs@.take(i as int).map_values(|x: Json| classroom_row(x)).push(classroom_row(cs@[i as int])));
        i = i + 1;
    }
    assert(cs@.take(cs@.len() as int) == cs@);
    lines
}

fn assignment_row_line(a: &Json) -> (r: String)
    ensures
        r@ == assignment_row(*a),
{
    let mut line = String::new();
    push_padded_right(&mut line, number_or_zero(a, "id").as_str(), 8);
    line.append("  ");
    push_padded_right(&mut line, truncate(text_or(a.str_member("title"), "\u{2014}"), 30).as_str(), 30);
    line.append("  ");
    push_padded_right(&mut line, text_or(a.str_member("deadline"), "\u{2014}"), 20);
    line.append("  ");
    line.append(number_or_zero(a, "invitations_count").as_str());
    line
}

/// The lines of the assignment list of classroom `id`.
pub fn assignment_table_lines(id: u64, as_: &Vec<Json>) -> (r: Vec<String>)
    ensures
        lines_of(r@) == assignment_table(id, as_@),
{
    if as_.len() == 0 {
        let mut m = "No assignments found for classroom ".to_owned();
        m.append(decimal_string(id).as_str());
        m.append(".");
        return one_line(m);
    }
    let mut header = String::new();
    push_padded_right(&mut header, "ID", 8);
    header.append("  ");
    push_padded_right(&mut header, "TITLE", 30);
    header.append("  ");
    push_padded_right(&mut header, "DEADLINE", 20);
    header.append("  INVITED");
    let mut lines = one_line(header);
    let mut i: usize = 0;
    while i < as_.len()
        invariant
            i <= as_@.len(),
            as_@.len() > 0,
            lines_of(lines@) == seq![assignment_header()] + as_@.take(i as int).map_values(|x: Json| assignment_row(x)),
        decreases as_@.len() - i,
    {
        push_line(&mut lines, assignment_row_line(&as_[i]));
        assert(as_@.take(i + 1).map_values(|x: Json| assignment_row(x))
            =~= as_@.take(i as int).map_values(|x: Json| assignment_row(x)).push(assignment_row(as_@[i as int])));
        i = i + 1;
    }
    assert(as_@.take(as_@.len() as int) == as_@);
    lines
}

/// What `--json` prints of a list, or the table `lines` without it.
pub open spec fn list_output(json: Option<Vec<String>>, items: Seq<Json>, lines: Seq<Seq<char>>, step: Step) -> bool {
    if json is Some {
        step matches Step::PrintJson(j) && (if asks_fields(json) {
            j matches Json::Object(out) && out@.len() == 0
        } else {
            value_of(j) == JsonValue::Array(values_of(items))
        })
    } else {
        prints(step, lines)
    }
}

/// What `gor classroom list` ends with, given the reply to its request.
pub open spec fn list_ending(json: Option<Vec<String>>, resp: ApiResponse, step: Step) -> bool {
    if !is_success(resp.status) {
        fails_with(step, http_failure("failed to list classrooms"@, resp.status_text@))
    } else {
        match array_items(resp.body) {
            None => fails_with(step, "failed to parse response"@),
            Some(items) => list_output(json, items@, classroom_table(items@), step),
        }
    }
}

/// Reads the reply to the classroom listing.
pub fn list_result(json: &Option<Vec<String>>, resp: ApiResponse) -> (r: Step)
    ensures
        list_ending(*json, resp, r),
{
    if !(200 <= resp.status && resp.status <= 299) {
        return Step::Fail(http_failure_message("failed to list classrooms", resp.status_text.as_str()));
    }
    match take_items(resp.body) {
        None => Step::Fail("failed to parse response".to_owned()),
        Some(cs) => if json.is_some() {
            Step::PrintJson(json_output(Json::Array(cs), json))
        } else {
            Step::Print(classroom_table_lines(&cs))
        },
    }
}

/// The path that lists the assignments of classroom `id`.
pub open spec fn assignments_path_of(id: u64) -> Seq<char> {
    "/classrooms/"@ + decimal(id as nat) + "/assignments"@
}

/// Builds [`assignments_path_of`].
pub fn assignments_path(id: u64) -> (r: String)
    ensures
        r@ == assignments_path_of(id),
{
    let mut p = "/classrooms/".to_owned();
    p.append(decimal_string(id).as_str());
    p.append("/assignments");
    p
}

/// What `gor classroom assignments` ends with, given the reply to its
/// request.
pub open spec fn assignments_ending(id: u64, json: Option<Vec<String>>, resp: ApiResponse, step: Step) -> bool {
    if !is_success(resp.status) {
        fails_with(step, http_failure("failed to list assignments"@, resp.status_text@))
    } else {
        match array_items(resp.body) {
            None => fails_with(step, "failed to parse response"@),
            Some(items) => list_output(json, items@, assignment_table(id, items@), step),
        }
    }
}

/// Reads the reply to the assignment listing.
pub fn assignments_result(id: u64, json: &Option<Vec<String>>, resp: ApiResponse) -> (r: Step)
    ensures
        assignments_ending(id, *json, resp, r),
{
    if !(200 <= resp.status && resp.status <= 299) {
        return Step::Fail(http_failure_message("failed to list assignments", resp.status_text.as_str()));
    }
    match take_items(resp.body) {
        None => Step::Fail("failed to parse response".to_owned()),
        Some(as_) => if json.is_some() {
            Step::PrintJson(json_output(Json::Array(as_), json))
        } else {
            Step::Print(assignment_table_lines(id, &as_))
        },
    }
}

} // verus!
