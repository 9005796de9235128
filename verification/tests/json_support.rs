//! Lookups in JSON documents.

use ratcrate::json::{at, get, items, is_null, text, text_or_default, unsigned, Json, JsonNumber};

fn obj(pairs: Vec<(&str, Json)>) -> Json {
    Json::Object(pairs.into_iter().map(|(k, v)| (k.to_string(), v)).collect())
}

fn string(s: &str) -> Json {
    Json::Str(s.to_string())
}

fn number(n: u64) -> Json {
    Json::Number(JsonNumber { text: n.to_string(), unsigned: Some(n) })
}

#[test]
fn member_lookup_reads_nested_values() {
    let doc = obj(vec![
        ("data", Json::Array(vec![obj(vec![("id", string("42")), ("n", number(7))])])),
        ("next", Json::Null),
    ]);
    let first = at(get(Some(&doc), "data"), 0);
    assert_eq!(text(get(first, "id")), Some("42".to_string()));
    assert_eq!(unsigned(get(first, "n")), Some(7));
    assert_eq!(text(get(first, "missing")), None);
    assert!(at(get(Some(&doc), "data"), 1).is_none());
    assert!(is_null(get(Some(&doc), "next")));
    assert!(is_null(get(Some(&doc), "absent")));
    assert_eq!(items(get(Some(&doc), "data")).map(|v| v.len()), Some(1));
}

#[test]
fn wrong_kinds_read_as_absent() {
    let doc = obj(vec![("title", number(3)), ("count", string("3"))]);
    assert_eq!(text(get(Some(&doc), "title")), None);
    assert_eq!(unsigned(get(Some(&doc), "count")), None);
    assert_eq!(text_or_default(get(Some(&doc), "title"), "Unknown"), "Unknown");
    let float = Json::Number(JsonNumber { text: "1.5".to_string(), unsigned: None });
    assert_eq!(unsigned(Some(&float)), None);
    assert!(get(Some(&string("x")), "title").is_none());
}
