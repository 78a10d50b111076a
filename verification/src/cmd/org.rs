//! `gor org`: the organizations of the signed-in user.
use vstd::prelude::*;
use vstd::string::*;
use crate::cmd::flow::{Step, array_items, asks_fields, fails_with, http_failure, http_failure_message, json_output,
    lines_of, shows_json, one_line, prints, push_line, take_items};
use crate::cmd::keys::{dash, or_text};
use crate::cmd::util::{truncate, truncated};
use crate::json::{Json, JsonValue, str_member, u64_member, value_of, values_of};
use crate::output::{decimal, decimal_string};
use crate::cmd::workflow::or_zero;
use crate::org::at_most;
use crate::request::{ApiResponse, is_success};
use crate::table::{pad_right, push_padded_right};

verus! {

/// The header line of the organization table.
pub open spec fn org_header() -> Seq<char> {
    pad_right("LOGIN"@, 20) + "  "@ + pad_right("DESCRIPTION"@, 50)
}

/// One row of the organization table.
pub open spec fn org_row(o: Json) -> Seq<char> {
    pad_right(or_text(str_member(o, "login"@), dash()), 20) + "  "@
        + pad_right(truncated(or_text(str_member(o, "description"@), dash()), 50), 50)
}

/// What the organization list prints: the table, or a line saying there is
/// none.
pub open spec fn org_table(os: Seq<Json>) -> Seq<Seq<char>> {
    if os.len() == 0 {
        seq!["No organizations found."@]
    } else {
        seq![org_header()] + os.map_values(|o: Json| org_row(o))
    }
}

fn text_or<'a>(t: Option<&'a str>, d: &'a str) -> (r: &'a str)
    ensures
        r@ == or_text(match t { Some(x) => Some(x@), None => None }, d@),
{
    match t {
        Some(x) => x,
        None => d,
    }
}

fn org_row_line(o: &Json) -> (r: String)
    ensures
        r@ == org_row(*o),
{
    let mut line = String::new();
    push_padded_right(&mut line, text_or(o.str_member("login"), "\u{2014}"), 20);
    line.append("  ");
    push_padded_right(&mut line, truncate(text_or(o.str_member("description"), "\u{2014}"), 50).as_str(), 50);
    line
}

/// The lines of the organization list.
pub fn org_table_lines(os: &Vec<Json>) -> (r: Vec<String>)
    ensures
        lines_of(r@) == org_table(os@),
{
    if os.len() == 0 {
        return one_line("No organizations found.".to_owned());
    }
    let mut header = String::new();
    push_padded_right(&mut header, "LOGIN", 20);
    header.append("  ");
    push_padded_right(&mut header, "DESCRIPTION", 50);
    let mut lines = one_line(header);
    let mut i: usize = 0;
    while i < os.len()
        invariant
            i <= os@.len(),
            os@.len() > 0,
            lines_of(lines@) == seq![org_header()] + os@.take(i as int).map_values(|x: Json| org_row(x)),
        decreases os@.len() - i,
    {
        let row = org_row_line(&os[i]);
        push_line(&mut lines, row);
        assert(os@.take(i + 1).map_values(|x: Json| org_row(x))
            =~= os@.take(i as int).map_values(|x: Json| org_row(x)).push(org_row(os@[i as int])));
        i = i + 1;
    }
    assert(os@.take(os@.len() as int) == os@);
    lines
}

/// What `gor org list` ends with, given the reply to its request.
pub open spec fn list_ending(limit: u32, json: Option<Vec<String>>, resp: ApiResponse, step: Step) -> bool {
    if !is_success(resp.status) {
        fails_with(step, http_failure("failed to list organizations"@, resp.status_text@))
    } else {
        match array_items(resp.body) {
            None => fails_with(step, "failed to parse orgs response"@),
            Some(items) => {
                let os = at_most(items@, limit);
                if json is Some {
                    step matches Step::PrintJson(j) && (if asks_fields(json) {
                        j matches Json::Object(out) && out@.len() == 0
                    } else {
                        value_of(j) == JsonValue::Array(values_of(os))
                    })
                } else {
                    prints(step, org_table(os))
                }
            },
        }
    }
}

/// Reads the reply to the organization listing.
pub fn list_result(limit: u32, json: &Option<Vec<String>>, resp: ApiResponse) -> (r: Step)
    ensures
        list_ending(limit, *json, resp, r),
{
    if !(200 <= resp.status && resp.status <= 299) {
        return Step::Fail(http_failure_message("failed to list organizations", resp.status_text.as_str()));
    }
    let ghost body = resp.body;
    match take_items(resp.body) {
        None => Step::Fail("failed to parse orgs response".to_owned()),
        Some(items) => {
            let mut os = items;
            os.truncate(limit as usize);
            assert(os@ =~= at_most(array_items(body)->0@, limit));
            if json.is_some() {
                Step::PrintJson(json_output(Json::Array(os), json))
            } else {
                Step::Print(org_table_lines(&os))
            }
        },
    }
}

/// What `gor org view` prints of an organization.
pub open spec fn org_view(o: Json) -> Seq<Seq<char>> {
    seq![
        "  Name: "@ + or_text(str_member(o, "name"@), dash()),
        "  Description: "@ + or_text(str_member(o, "description"@), "No description"@),
        "  Location: "@ + or_text(str_member(o, "location"@), dash()),
        "  Website: "@ + or_text(str_member(o, "blog"@), dash()),
        "  Email: "@ + or_text(str_member(o, "email"@), dash()),
        "  Members: "@ + decimal(or_zero(u64_member(o, "members_count"@)) as nat),
        "  Public repos: "@ + decimal(or_zero(u64_member(o, "public_repos"@)) as nat),
    ]
}

fn labelled(label: &str, text: &str) -> (r: String)
    ensures
        r@ == label@ + text@,
{
    let mut l = label.to_owned();
    l.append(text);
    l
}

/// The lines that view an organization.
pub fn org_view_lines(o: &Json) -> (r: Vec<String>)
    ensures
        lines_of(r@) == org_view(*o),
{
    let members = match o.u64_member("members_count") {
        Some(n) => n,
        None => 0,
    };
    let repos = match o.u64_member("public_repos") {
        Some(n) => n,
        None => 0,
    };
    let mut lines = one_line(labelled("  Name: ", text_or(o.str_member("name"), "\u{2014}")));
    push_line(&mut lines, labelled("  Description: ", text_or(o.str_member("description"), "No description")));
    push_line(&mut lines, labelled("  Location: ", text_or(o.str_member("location"), "\u{2014}")));
    push_line(&mut lines, labelled("  Website: ", text_or(o.str_member("blog"), "\u{2014}")));
    push_line(&mut lines, labelled("  Email: ", text_or(o.str_member("email"), "\u{2014}")));
    push_line(&mut lines, labelled("  Members: ", decimal_string(members).as_str()));
    push_line(&mut lines, labelled("  Public repos: ", decimal_string(repos).as_str()));
    assert(lines_of(lines@) =~= org_view(*o));
    lines
}

/// What `gor org view` does with an organization it read: with `--web`,
/// opens its page when it has one; with `--json`, prints it; else prints
/// its view.
pub fn view_step(o: Json, web: bool, json: &Option<Vec<String>>) -> (r: Step)
    ensures
        web && str_member(o, "html_url"@) is Some ==> (r matches Step::Open(u) && u@ == str_member(o, "html_url"@)->0),
        !(web && str_member(o, "html_url"@) is Some) && json is Some ==> (r matches Step::PrintJson(j) && shows_json(o, *json, j)),
        !(web && str_member(o, "html_url"@) is Some) && json is None ==> prints(r, org_view(o)),
{
    if web {
        if let Some(u) = o.str_member("html_url") {
            return Step::Open(u.to_owned());
        }
    }
    if json.is_some() {
        Step::PrintJson(json_output(o, json))
    } else {
        Step::Print(org_view_lines(&o))
    }
}

} // verus!
