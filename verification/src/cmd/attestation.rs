//! `gor attestation verify`: what is reported of an artifact's
//! attestations, from a local Sigstore bundle or from the API. The report
//! closes by saying the attestation verified for the owner, followed by the
//! note that full Sigstore certificate verification is not yet
//! implemented: the certificates themselves are not checked.
use vstd::prelude::*;
use vstd::string::*;
use crate::cmd::flow::{http_failure, http_failure_message, lines_of, one_line, push_line};
use crate::json::{Json, has_member, member};
use crate::output::{decimal, decimal_string};
use crate::repository::{RepoSplit, repo_path, repo_prefix};
use crate::request::{ApiResponse, is_success};

verus! {

/// What a verification prints, and the failure it ends with, if any
/// (printed after the lines).
#[derive(Debug)]
pub struct Report {
    pub lines: Vec<String>,
    pub failure: Option<String>,
}

/// The number of items of an array, 0 for anything else.
pub open spec fn items_count(j: Json) -> nat {
    match j {
        Json::Array(items) => items@.len(),
        _ => 0,
    }
}

/// The closing lines of a verification for `owner`.
pub open spec fn closing(owner: Seq<char>) -> Seq<Seq<char>> {
    seq![
        "Attestation verified for owner '"@ + owner + "'."@,
        "Note: full Sigstore certificate verification is not yet implemented."@,
    ]
}

/// What is printed for a local bundle (`None` when it is not JSON).
pub open spec fn bundle_lines(file: Seq<char>, owner: Option<String>, bundle: Json) -> Seq<Seq<char>> {
    let material = member(bundle, "verificationMaterial"@);
    seq!["Verifying attestation for: "@ + file]
        + (if has_member(material, "tlogEntries"@) {
            seq!["  Bundle contains "@ + decimal(items_count(member(material, "tlogEntries"@)))
                + " transparency log entry/entries."@]
        } else {
            Seq::empty()
        })
        + closing(match owner {
            Some(o) => o@,
            None => "unknown"@,
        })
}

fn labelled(label: &str, text: &str) -> (r: String)
    ensures
        r@ == label@ + text@,
{
    let mut l = label.to_owned();
    l.append(text);
    l
}

fn push_closing(lines: &mut Vec<String>, owner: &str)
    ensures
        lines_of(final(lines)@) == lines_of(old(lines)@) + closing(owner@),
{
    let mut l = labelled("Attestation verified for owner '", owner);
    l.append("'.");
    push_line(lines, l);
    push_line(lines, "Note: full Sigstore certificate verification is not yet implemented.".to_owned());
    assert(lines_of(lines@) =~= lines_of(old(lines)@) + closing(owner@));
}

fn count_of(j: &Json) -> (n: usize)
    ensures
        n == items_count(*j),
{
    match j {
        Json::Array(items) => items.len(),
        _ => 0,
    }
}

/// Reports on a local bundle: the lines, or the failure when the bundle
/// is not JSON.
pub fn bundle_report(file: &str, owner: &Option<String>, bundle: Option<Json>) -> (r: Result<Vec<String>, String>)
    ensures
        match bundle {
            None => r matches Err(m) && m@ == "failed to parse Sigstore bundle"@,
            Some(b) => r matches Ok(v) && lines_of(v@) == bundle_lines(file@, *owner, b),
        },
{
    let b = match bundle {
        None => return Err("failed to parse Sigstore bundle".to_owned()),
        Some(b) => b,
    };
    let mut lines = one_line(labelled("Verifying attestation for: ", file));
    let ghost head = lines_of(lines@);
    match b.get("verificationMaterial") {
        Some(m) => match m.get("tlogEntries") {
            Some(t) => {
                let n = count_of(t);
                let mut l = labelled("  Bundle contains ", decimal_string(n as u64).as_str());
                l.append(" transparency log entry/entries.");
                push_line(&mut lines, l);
            },
            None => {},
        },
        None => {
            assert(!has_member(Json::Null, "tlogEntries"@));
        },
    }
    let ghost mid = lines_of(lines@);
    let o: &str = match owner {
        Some(o) => o.as_str(),
        None => "unknown",
    };
    push_closing(&mut lines, o);
    assert(lines_of(lines@) =~= bundle_lines(file@, *owner, b));
    Ok(lines)
}

/// The path of a repository's attestations.
pub open spec fn attestations_path_of(owner: Seq<char>, repo: Seq<char>) -> Seq<char> {
    repo_prefix(owner, repo) + "/attestations"@
}

/// Builds [`attestations_path_of`].
pub fn attestations_path(spec: &RepoSplit) -> (r: String)
    ensures
        r@ == attestations_path_of(spec.owner@, spec.repo@),
{
    let mut p = repo_path(spec);
    p.append("/attestations");
    p
}

/// What the API verification reports, given the reply: the failure alone
/// when the request failed or the reply is not JSON; else the lines, and a
/// failure after the first line when the reply lists no attestation.
pub open spec fn api_report_of(file: Seq<char>, owner: Option<String>, spec_owner: Seq<char>, spec_repo: Seq<char>,
    resp: ApiResponse, r: Report) -> bool
{
    if !is_success(resp.status) {
        lines_of(r.lines@).len() == 0 && (r.failure matches Some(m)
            && m@ == http_failure("failed to fetch attestations"@, resp.status_text@))
    } else {
        match resp.body {
            None => lines_of(r.lines@).len() == 0 && (r.failure matches Some(m) && m@ == "failed to parse attestations"@),
            Some(b) => {
                let atts = member(b, "attestations"@);
                let first = seq!["Verifying attestation for: "@ + file];
                if atts is Array && items_count(atts) == 0 {
                    lines_of(r.lines@) == first && (r.failure matches Some(m)
                        && m@ == "no attestations found for "@ + spec_owner + "/"@ + spec_repo)
                } else {
                    r.failure is None && lines_of(r.lines@) == first
                        + (if atts is Array {
                            seq!["  Found "@ + decimal(items_count(atts)) + " attestation(s)."@]
                        } else {
                            Seq::empty()
                        })
                        + closing(match owner {
                            Some(o) => o@,
                            None => spec_owner,
                        })
                }
            },
        }
    }
}

/// Reports on the reply listing a repository's attestations.
pub fn api_report(file: &str, owner: &Option<String>, spec: &RepoSplit, resp: &ApiResponse) -> (r: Report)
    ensures
        api_report_of(file@, *owner, spec.owner@, spec.repo@, *resp, r),
{
    if !(200 <= resp.status && resp.status <= 299) {
        return Report {
            lines: Vec::new(),
            failure: Some(http_failure_message("failed to fetch attestations", resp.status_text.as_str())),
        };
    }
    let b = match &resp.body {
        None => return Report { lines: Vec::new(), failure: Some("failed to parse attestations".to_owned()) },
        Some(b) => b,
    };
    let mut lines = one_line(labelled("Verifying attestation for: ", file));
    let ghost head = lines_of(lines@);
    match b.get("attestations") {
        Some(Json::Array(items)) => {
            if items.len() == 0 {
                let mut m = "no attestations found for ".to_owned();
                m.append(spec.full_name().as_str());
                assert(m@ =~= "no attestations found for "@ + spec.owner@ + "/"@ + spec.repo@);
                assert(member(*b, "attestations"@) is Array && items_count(member(*b, "attestations"@)) == 0);
                return Report { lines, failure: Some(m) };
            }
            let mut l = labelled("  Found ", decimal_string(items.len() as u64).as_str());
            l.append(" attestation(s).");
            push_line(&mut lines, l);
        },
        _ => {},
    }
    let o: &str = match owner {
        Some(o) => o.as_str(),
        None => spec.owner.as_str(),
    };
    push_closing(&mut lines, o);
    let r = Report { lines, failure: None };
    assert(lines_of(r.lines@) =~= seq!["Verifying attestation for: "@ + file@]
        + (if member(*b, "attestations"@) is Array {
            seq!["  Found "@ + decimal(items_count(member(*b, "attestations"@))) + " attestation(s)."@]
        } else {
            Seq::<Seq<char>>::empty()
        })
        + closing(o@));
    r
}

} // verus!
