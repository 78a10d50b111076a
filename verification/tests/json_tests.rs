use gor::json::{Json, JsonNumber, collect_member_texts, collect_nested_texts, copy_json, select_fields, take_member};

fn conv(v: &serde_json::Value) -> Json {
    match v {
        serde_json::Value::Null => Json::Null,
        serde_json::Value::Bool(b) => Json::Bool(*b),
        serde_json::Value::Number(n) => Json::Number(JsonNumber { text: n.to_string(), as_u64: n.as_u64() }),
        serde_json::Value::String(s) => Json::String(s.clone()),
        serde_json::Value::Array(a) => Json::Array(a.iter().map(conv).collect()),
        serde_json::Value::Object(m) => Json::Object(m.iter().map(|(k, v)| (k.clone(), conv(v))).collect()),
    }
}

fn j(text: &str) -> Json {
    conv(&serde_json::from_str::<serde_json::Value>(text).expect("valid JSON"))
}

fn keys(v: &Json) -> Vec<String> {
    match v {
        Json::Object(e) => e.iter().map(|(k, _)| k.clone()).collect(),
        _ => panic!("not an object"),
    }
}

#[test]
fn select_fields_keeps_named_fields_in_asked_order() {
    let obj = j(r#"{"name":"hello","stars":42,"private":false}"#);
    let out = select_fields(obj, &vec!["stars".to_string(), "name".to_string()]);
    assert_eq!(keys(&out), vec!["stars".to_string(), "name".to_string()]);
    assert_eq!(out.str_member("name"), Some("hello"));
    assert_eq!(out.u64_member("stars"), Some(42));
}

#[test]
fn select_fields_skips_missing_and_repeated_fields() {
    let obj = j(r#"{"name":"hello"}"#);
    let out = select_fields(obj, &vec!["name".to_string(), "missing".to_string(), "name".to_string()]);
    assert_eq!(keys(&out), vec!["name".to_string()]);
}

#[test]
fn select_fields_of_an_array_is_an_empty_object() {
    let arr = j(r#"[{"name":"a"},{"name":"b"}]"#);
    let out = select_fields(arr, &vec!["name".to_string()]);
    assert_eq!(keys(&out), Vec::<String>::new());
}

#[test]
fn take_member_moves_the_first_entry_out() {
    let obj = j(r#"{"items":[1,2],"other":true}"#);
    match take_member(obj, "items") {
        Json::Array(v) => assert_eq!(v.len(), 2),
        _ => panic!("expected an array"),
    }
    assert!(matches!(take_member(j(r#"{"a":1}"#), "b"), Json::Null));
    assert!(matches!(take_member(j("[1]"), "a"), Json::Null));
}

#[test]
fn copy_json_gives_an_equal_document() {
    let doc = j(r#"{"a":[1,"x",null,{"b":false}],"c":"d"}"#);
    let copy = copy_json(&doc);
    assert_eq!(format!("{:?}", copy), format!("{:?}", doc));
    let cloned = doc.clone();
    assert_eq!(format!("{:?}", cloned), format!("{:?}", doc));
}

#[test]
fn member_texts_skip_items_without_the_key() {
    let items = match j(r#"[{"name":"bug"},{"color":"red"},{"name":"docs"}]"#) {
        Json::Array(v) => v,
        _ => unreachable!(),
    };
    assert_eq!(collect_member_texts(&items, "name"), vec!["bug".to_string(), "docs".to_string()]);
}

#[test]
fn nested_texts_of_a_missing_array_are_empty() {
    let issue = j(r#"{"labels":[{"name":"a"},{"name":"b"}],"assignees":null}"#);
    assert_eq!(collect_nested_texts(&issue, "labels", "name"), vec!["a".to_string(), "b".to_string()]);
    assert!(collect_nested_texts(&issue, "assignees", "login").is_empty());
}
