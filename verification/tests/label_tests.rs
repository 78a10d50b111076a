use gor::label::{
    clone_plan, create_body, filter_labels, label_path, list_path, tally, update_body, update_request, CloneResult,
    CloneStep, CreateOptions, Label, ListOptions, UpdateOptions,
};
use gor::json::Json;
use gor::repository::RepoSplit;

fn label(name: &str, color: &str, description: Option<&str>) -> Label {
    Label { name: name.to_string(), color: color.to_string(), description: description.map(String::from) }
}

fn spec() -> RepoSplit {
    RepoSplit { owner: "o".to_string(), repo: "r".to_string() }
}

#[test]
fn clone_result_default() {
    let r = CloneResult { created: 0, updated: 0, skipped: 0 };
    assert_eq!(r.created, 0);
    assert_eq!(r.updated, 0);
    assert_eq!(r.skipped, 0);
}

#[test]
fn list_options_default() {
    let opts = ListOptions::default();
    assert!(opts.search.is_none());
    assert_eq!(opts.limit, 0);
}

#[test]
fn create_options_default() {
    let opts = CreateOptions::default();
    assert!(opts.color.is_none());
    assert!(opts.description.is_none());
}

#[test]
fn update_options_default() {
    let opts = UpdateOptions::default();
    assert!(opts.new_name.is_none());
    assert!(opts.color.is_none());
    assert!(opts.description.is_none());
}

#[test]
fn list_path_caps_page_size() {
    let opts = ListOptions { search: None, limit: 250 };
    assert_eq!(list_path(&spec(), &opts), "/repos/o/r/labels?per_page=100");
    let opts = ListOptions { search: None, limit: 7 };
    assert_eq!(list_path(&spec(), &opts), "/repos/o/r/labels?per_page=7");
}

#[test]
fn filter_labels_search_and_limit() {
    let labels = vec![label("Bug", "d73a4a", None), label("docs", "0075ca", None), label("debug", "ffffff", None)];
    let opts = ListOptions { search: Some("BUG".to_string()), limit: 30 };
    let kept = filter_labels(labels.clone(), &opts);
    let names: Vec<&str> = kept.iter().map(|l| l.name.as_str()).collect();
    assert_eq!(names, vec!["Bug", "debug"]);
    let opts = ListOptions { search: None, limit: 2 };
    assert_eq!(filter_labels(labels, &opts).len(), 2);
}

#[test]
fn label_path_encodes_name() {
    assert_eq!(label_path(&spec(), "in progress"), "/repos/o/r/labels/in%20progress");
}

#[test]
fn create_and_update_bodies() {
    match create_body("bug", &CreateOptions::default()) {
        Json::Object(entries) => {
            assert_eq!(entries.len(), 2);
            assert_eq!(entries[1].0, "color");
            assert!(matches!(&entries[1].1, Json::String(c) if c == "ededed"));
        }
        _ => panic!("object expected"),
    }
    match update_body(&UpdateOptions::default()) {
        Err(gor::error::GorError::InvalidInput(m)) => {
            assert_eq!(m, "no changes specified; use --rename, --color, or --description")
        }
        _ => panic!("invalid input expected"),
    }
    let opts = UpdateOptions { new_name: None, color: Some("abcdef".to_string()), description: None };
    match update_body(&opts) {
        Ok(Json::Object(entries)) => {
            assert_eq!(entries.len(), 1);
            assert_eq!(entries[0].0, "color");
        }
        _ => panic!("object expected"),
    }
}

#[test]
fn clone_plan_and_tally() {
    let source = vec![label("bug", "d73a4a", Some("b")), label("new", "000000", None), label("wip", "111111", None)];
    let existing = vec!["bug".to_string(), "wip".to_string()];
    let plan = clone_plan(&source, &existing, false);
    assert!(matches!(plan[0], CloneStep::Skip));
    assert!(matches!(plan[1], CloneStep::Create { .. }));
    assert!(matches!(plan[2], CloneStep::Skip));
    let r = tally(&plan, &vec![true, true, true]);
    assert_eq!(r, CloneResult { created: 1, updated: 0, skipped: 2 });

    let forced = clone_plan(&source, &existing, true);
    assert!(matches!(forced[0], CloneStep::Update { .. }));
    let r = tally(&forced, &vec![true, false, true]);
    assert_eq!(r, CloneResult { created: 0, updated: 2, skipped: 1 });
}

#[test]
fn label_update_request_is_refused_without_changes() {
    match update_request(&spec(), "bug fix", &UpdateOptions::default()) {
        Err(gor::error::GorError::InvalidInput(m)) => {
            assert_eq!(m, "no changes specified; use --rename, --color, or --description")
        }
        _ => panic!("invalid input expected, and no request"),
    }
    let opts = UpdateOptions { new_name: Some("defect".to_string()), color: None, description: None };
    match update_request(&spec(), "bug fix", &opts) {
        Ok(req) => {
            assert!(matches!(req.method, gor::request::Method::Patch));
            assert_eq!(req.path, "/repos/o/r/labels/bug%20fix");
            assert!(matches!(&req.body, gor::request::RequestBody::JsonBytes(Json::Object(e)) if e.len() == 1 && e[0].0 == "new_name"));
        }
        Err(_) => panic!("request expected"),
    }
}
