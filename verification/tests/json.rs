use suzume::json::find_member;
use suzume::Json;

fn text(value: &str) -> Json {
    Json::Text(value.to_owned())
}

fn object(members: Vec<(&str, Json)>) -> Json {
    Json::Object(members.into_iter().map(|(name, value)| (name.to_owned(), value)).collect())
}

#[test]
fn get_finds_a_member_by_name() {
    let document = object(vec![("a", text("x")), ("b", Json::Number(Some(2))), ("", Json::Null)]);
    assert_eq!(document.get("a"), Some(&text("x")));
    assert_eq!(document.get("b"), Some(&Json::Number(Some(2))));
    assert_eq!(document.get(""), Some(&Json::Null));
    assert_eq!(document.get("c"), None);
    assert_eq!(document.get("A"), None);
}

#[test]
fn get_takes_the_first_member_of_a_name() {
    let document = object(vec![("a", text("first")), ("a", text("second"))]);
    assert_eq!(document.get("a"), Some(&text("first")));
    let members = vec![("k".to_owned(), Json::Bool(true)), ("k".to_owned(), Json::Bool(false))];
    assert_eq!(find_member(&members, "k"), Some(&Json::Bool(true)));
    assert_eq!(find_member(&members, "j"), None);
    assert_eq!(find_member(&Vec::new(), "k"), None);
}

#[test]
fn only_an_object_has_members() {
    for value in [
        Json::Null,
        Json::Bool(true),
        Json::Number(Some(1)),
        text("a"),
        Json::Array(vec![object(vec![("a", Json::Null)])]),
    ] {
        assert_eq!(value.get("a"), None);
        assert_eq!(value.text_of("a"), None);
        assert_eq!(value.integer_of("a"), None);
    }
}

#[test]
fn each_kind_of_value_answers_for_itself() {
    assert_eq!(text("a").as_text(), Some("a"));
    assert_eq!(text("").as_text(), Some(""));
    assert_eq!(Json::Null.as_text(), None);
    assert_eq!(Json::Number(Some(1)).as_text(), None);

    assert_eq!(Json::Number(Some(-3)).as_integer(), Some(-3));
    assert_eq!(Json::Number(Some(i64::MIN)).as_integer(), Some(i64::MIN));
    assert_eq!(Json::Number(None).as_integer(), None);
    assert_eq!(text("3").as_integer(), None);
    assert_eq!(Json::Bool(true).as_integer(), None);

    assert_eq!(Json::Array(vec![Json::Null]).as_items(), Some(&vec![Json::Null]));
    assert_eq!(Json::Array(vec![]).as_items(), Some(&vec![]));
    assert_eq!(object(vec![]).as_items(), None);
    assert_eq!(text("[]").as_items(), None);
}

#[test]
fn members_are_read_by_kind() {
    let document = object(vec![
        ("name", text("suzume")),
        ("count", Json::Number(Some(7))),
        ("ratio", Json::Number(None)),
        ("none", Json::Null),
    ]);
    assert_eq!(document.text_of("name"), Some("suzume".to_owned()));
    assert_eq!(document.text_of("count"), None);
    assert_eq!(document.text_of("none"), None);
    assert_eq!(document.text_of("missing"), None);
    assert_eq!(document.integer_of("count"), Some(7));
    assert_eq!(document.integer_of("ratio"), None);
    assert_eq!(document.integer_of("name"), None);
    assert_eq!(document.integer_of("missing"), None);
}
