use cofer::json::{clone_opt, push_member, Json};

fn text(s: &str) -> Json {
    Json::Str(s.to_string())
}

fn object(members: Vec<(&str, Json)>) -> Json {
    Json::Object(members.into_iter().map(|(k, v)| (k.to_string(), v)).collect())
}

#[test]
fn parse_reads_every_kind_of_value() {
    let doc = Json::parse(r#"{"n":null,"b":false,"i":-7,"f":1.5,"s":"x","a":[1,"y"],"o":{"k":2}}"#)
        .unwrap();
    assert_eq!(doc.get("n"), Some(&Json::Null));
    assert_eq!(doc.get("b"), Some(&Json::Bool(false)));
    assert_eq!(doc.get("i"), Some(&Json::Int(-7)));
    assert_eq!(doc.get("f"), Some(&Json::Decimal("1.5".to_string())));
    assert_eq!(doc.get("s"), Some(&text("x")));
    assert_eq!(doc.get("a"), Some(&Json::Array(vec![Json::Int(1), text("y")])));
    assert_eq!(doc.get("o"), Some(&object(vec![("k", Json::Int(2))])));
    assert_eq!(doc.get("missing"), None);
}

#[test]
fn parse_keeps_large_numbers_as_text() {
    let doc = Json::parse("18446744073709551615").unwrap();
    assert_eq!(doc, Json::Decimal("18446744073709551615".to_string()));
    assert_eq!(doc.render(), "18446744073709551615");
    assert_eq!(Json::parse("9223372036854775807").unwrap(), Json::Int(i64::MAX));
}

#[test]
fn parse_rejects_what_is_not_json() {
    assert!(Json::parse("invalid json").is_err());
    assert!(Json::parse("").is_err());
    assert!(Json::parse("{").is_err());
    assert!(Json::parse("{ invalid json }").is_err());
    let reason = Json::parse("[1,").unwrap_err();
    assert!(!reason.is_empty());
}

#[test]
fn render_is_compact_and_orders_members_by_key() {
    let doc = object(vec![
        ("zeta", Json::Int(1)),
        ("alpha", Json::Array(vec![Json::Null, Json::Bool(true), text("a\"b")])),
        ("mid", object(vec![("b", Json::Int(2)), ("a", Json::Int(1))])),
    ]);
    assert_eq!(doc.render(), r#"{"alpha":[null,true,"a\"b"],"mid":{"a":1,"b":2},"zeta":1}"#);
    assert_eq!(Json::Int(i64::MIN).render(), "-9223372036854775808");
    assert_eq!(Json::Decimal("2.50".to_string()).render(), "2.5");
    assert_eq!(Json::Decimal("not a number".to_string()).render(), "null");
}

#[test]
fn render_then_parse_gives_the_document_back() {
    let doc = object(vec![
        ("a", Json::Int(1)),
        ("b", Json::Array(vec![text("x"), Json::Null])),
        ("c", object(vec![("d", Json::Bool(true))])),
    ]);
    assert_eq!(Json::parse(&doc.render()).unwrap(), doc);
}

#[test]
fn a_later_member_replaces_an_earlier_one() {
    let doc = object(vec![("k", Json::Int(1)), ("other", Json::Null), ("k", Json::Int(2))]);
    assert_eq!(doc.get("k"), Some(&Json::Int(2)));
    assert_eq!(doc.render(), r#"{"k":2,"other":null}"#);
}

#[test]
fn accessors_tell_the_kinds_apart() {
    let s = text("hello");
    assert_eq!(s.as_str(), Some("hello"));
    assert_eq!(s.get("x"), None);
    assert_eq!(s.as_array(), None);
    assert_eq!(s.as_object(), None);
    assert_eq!(Json::Int(1).as_str(), None);

    let doc = object(vec![("name", text("n")), ("count", Json::Int(3))]);
    assert_eq!(doc.get_str("name"), Some("n"));
    assert_eq!(doc.get_str("count"), None);
    assert_eq!(doc.get_str("absent"), None);
    assert_eq!(doc.as_object().map(|m| m.len()), Some(2));

    let list = Json::Array(vec![Json::Int(1), Json::Int(2)]);
    assert_eq!(list.as_array(), Some(&vec![Json::Int(1), Json::Int(2)]));
    assert_eq!(list.get("0"), None);
}

#[test]
fn clone_copies_the_whole_tree() {
    let doc = object(vec![
        ("a", Json::Array(vec![object(vec![("deep", text("v"))]), Json::Decimal("1e3".to_string())])),
        ("b", Json::Bool(false)),
    ]);
    assert_eq!(doc.clone(), doc);
    assert_eq!(clone_opt(&Some(doc.clone())), Some(doc));
    assert_eq!(clone_opt(&None), None);
}

#[test]
fn push_member_appends() {
    let mut members: Vec<(String, Json)> = Vec::new();
    push_member(&mut members, "a", Json::Int(1));
    push_member(&mut members, "b", Json::Int(2));
    assert_eq!(
        members,
        vec![("a".to_string(), Json::Int(1)), ("b".to_string(), Json::Int(2))]
    );
}
