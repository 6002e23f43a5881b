use dstack_backend::json::{parse, parse_text, Json};

fn object(members: Vec<(&str, Json)>) -> Json {
    Json::Object(members.into_iter().map(|(k, v)| (k.to_string(), v)).collect())
}

#[test]
fn parse_reads_every_kind_of_value() {
    let doc = parse(br#"{"a":null,"b":true,"c":3,"d":-4,"e":1.5,"f":"x","g":[1,"y"]}"#).unwrap();
    assert_eq!(doc.member("a"), Some(&Json::Null));
    assert_eq!(doc.member("b"), Some(&Json::Bool(true)));
    assert_eq!(doc.member("c"), Some(&Json::Unsigned(3)));
    assert_eq!(doc.member("d"), Some(&Json::Signed(-4)));
    assert_eq!(doc.member("e"), Some(&Json::Float("1.5".to_string())));
    assert_eq!(doc.member("f"), Some(&Json::Text("x".to_string())));
    assert_eq!(
        doc.member("g"),
        Some(&Json::Array(vec![Json::Unsigned(1), Json::Text("y".to_string())]))
    );
    assert_eq!(doc.member("h"), None);
}

#[test]
fn parse_rejects_what_is_no_json() {
    assert_eq!(parse(b""), None);
    assert_eq!(parse(b"{"), None);
    assert_eq!(parse(b"not json"), None);
    assert_eq!(parse(b"{\"a\":1} trailing"), None);
    assert_eq!(parse_text("[1,"), None);
}

#[test]
fn parse_is_not_the_identity_on_its_input() {
    let doc = parse_text("  [ true ]  ").unwrap();
    assert_eq!(doc, Json::Array(vec![Json::Bool(true)]));
}

#[test]
fn to_text_writes_compact_json() {
    let doc = object(vec![
        ("b", Json::Array(vec![Json::Unsigned(1), Json::Null])),
        ("a", Json::Text("q\"uote".to_string())),
    ]);
    assert_eq!(doc.to_text(), r#"{"a":"q\"uote","b":[1,null]}"#);
    assert_eq!(Json::Signed(-7).to_text(), "-7");
    assert_eq!(Json::Float("2.5".to_string()).to_text(), "2.5");
    assert_eq!(Json::Bool(false).to_text(), "false");
}

#[test]
fn to_pretty_text_writes_indented_json() {
    let doc = object(vec![("pubkeys", Json::Array(vec![]))]);
    assert_eq!(doc.to_pretty_text(), "{\n  \"pubkeys\": []\n}");
    let doc = object(vec![("a", Json::Unsigned(1))]);
    assert_eq!(doc.to_pretty_text(), "{\n  \"a\": 1\n}");
}

#[test]
fn text_round_trip_keeps_the_document() {
    let doc = object(vec![
        ("a", Json::Text("x".to_string())),
        ("b", Json::Array(vec![Json::Bool(true), Json::Signed(-1), Json::Unsigned(2)])),
    ]);
    assert_eq!(parse_text(&doc.to_text()), Some(object(vec![
        ("a", Json::Text("x".to_string())),
        ("b", Json::Array(vec![Json::Bool(true), Json::Signed(-1), Json::Unsigned(2)])),
    ])));
}

#[test]
fn member_takes_the_last_of_equal_keys() {
    let doc = object(vec![("k", Json::Unsigned(1)), ("k", Json::Unsigned(2))]);
    assert_eq!(doc.member("k"), Some(&Json::Unsigned(2)));
    assert_eq!(Json::Null.member("k"), None);
    assert_eq!(Json::Array(vec![]).member("k"), None);
}

#[test]
fn typed_members() {
    let doc = object(vec![
        ("t", Json::Text("x".to_string())),
        ("b", Json::Bool(true)),
        ("a", Json::Array(vec![Json::Null])),
    ]);
    assert_eq!(doc.text_member("t"), Some(&"x".to_string()));
    assert_eq!(doc.text_member("b"), None);
    assert_eq!(doc.text_member("missing"), None);
    assert_eq!(doc.bool_member("b"), Some(true));
    assert_eq!(doc.bool_member("t"), None);
    assert_eq!(doc.array_member("a"), Some(&vec![Json::Null]));
    assert_eq!(doc.array_member("t"), None);
    assert_eq!(Json::Text("x".to_string()).as_text(), Some(&"x".to_string()));
    assert_eq!(Json::Null.as_text(), None);
    assert_eq!(Json::Bool(false).as_bool(), Some(false));
    assert_eq!(Json::Null.as_bool(), None);
    assert_eq!(Json::Null.as_array(), None);
}
