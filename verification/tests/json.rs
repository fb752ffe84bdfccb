use llm_relay::json::Json;

fn text(s: &str) -> Json {
    Json::Text(s.to_string())
}

fn object(fields: Vec<(&str, Json)>) -> Json {
    Json::Object(fields.into_iter().map(|(k, v)| (k.to_string(), v)).collect())
}

#[test]
fn parse_reads_the_scalars() {
    assert_eq!(Json::parse("null"), Some(Json::Null));
    assert_eq!(Json::parse("true"), Some(Json::Bool(true)));
    assert_eq!(Json::parse("false"), Some(Json::Bool(false)));
    assert_eq!(Json::parse("\"hi\""), Some(text("hi")));
    assert_eq!(Json::parse(" 12 "), Some(Json::Unsigned(12)));
}

#[test]
fn parse_tells_the_three_kinds_of_number_apart() {
    assert_eq!(Json::parse("0"), Some(Json::Unsigned(0)));
    assert_eq!(Json::parse("18446744073709551615"), Some(Json::Unsigned(u64::MAX)));
    assert_eq!(Json::parse("-1"), Some(Json::Negative(-1)));
    assert_eq!(Json::parse("-9223372036854775808"), Some(Json::Negative(i64::MIN)));
    assert_eq!(Json::parse("0.5"), Some(Json::Real("0.5".to_string())));
    assert_eq!(Json::parse("3.0"), Some(Json::Real("3.0".to_string())));
    assert_eq!(Json::parse("1e2"), Some(Json::Real("100.0".to_string())));
}

#[test]
fn parse_unescapes_strings() {
    assert_eq!(Json::parse(r#""a\"b\\c\ndé""#), Some(text("a\"b\\c\nd\u{e9}")));
}

#[test]
fn parse_reads_arrays_in_order() {
    assert_eq!(
        Json::parse("[1, \"two\", null, [true]]"),
        Some(Json::Array(vec![
            Json::Unsigned(1),
            text("two"),
            Json::Null,
            Json::Array(vec![Json::Bool(true)]),
        ]))
    );
    assert_eq!(Json::parse("[]"), Some(Json::Array(vec![])));
}

#[test]
fn parse_reads_objects_with_their_fields_sorted_by_key() {
    assert_eq!(
        Json::parse(r#"{"b": 1, "a": {"z": null}, "c": "x"}"#),
        Some(object(vec![
            ("a", object(vec![("z", Json::Null)])),
            ("b", Json::Unsigned(1)),
            ("c", text("x")),
        ]))
    );
    assert_eq!(Json::parse("{}"), Some(object(vec![])));
}

#[test]
fn parse_keeps_the_last_of_two_fields_with_one_key() {
    assert_eq!(Json::parse(r#"{"a": 1, "a": 2}"#), Some(object(vec![("a", Json::Unsigned(2))])));
}

#[test]
fn parse_refuses_what_is_not_a_document() {
    assert_eq!(Json::parse(""), None);
    assert_eq!(Json::parse("   "), None);
    assert_eq!(Json::parse("{"), None);
    assert_eq!(Json::parse("{\"a\": }"), None);
    assert_eq!(Json::parse("[1, 2,]"), None);
    assert_eq!(Json::parse("nul"), None);
    assert_eq!(Json::parse("'single'"), None);
    assert_eq!(Json::parse("{} trailing"), None);
    assert_eq!(Json::parse("<html>502</html>"), None);
}

#[test]
fn member_finds_a_field_by_its_key() {
    let doc = object(vec![("a", Json::Unsigned(1)), ("b", text("x"))]);
    assert_eq!(doc.member("a"), Some(&Json::Unsigned(1)));
    assert_eq!(doc.member("b"), Some(&text("x")));
    assert_eq!(doc.member("c"), None);
    assert_eq!(doc.member(""), None);
    assert_eq!(doc.member("A"), None);
}

#[test]
fn member_takes_the_first_of_equal_keys() {
    let doc = object(vec![("a", Json::Unsigned(1)), ("a", Json::Unsigned(2))]);
    assert_eq!(doc.member("a"), Some(&Json::Unsigned(1)));
}

#[test]
fn member_of_anything_but_an_object_is_none() {
    assert_eq!(Json::Null.member("a"), None);
    assert_eq!(text("a").member("a"), None);
    assert_eq!(Json::Array(vec![text("a")]).member("a"), None);
    assert_eq!(Json::Unsigned(0).member("0"), None);
}

#[test]
fn element_takes_an_item_by_its_index() {
    let doc = Json::Array(vec![text("x"), Json::Null]);
    assert_eq!(doc.element(0), Some(&text("x")));
    assert_eq!(doc.element(1), Some(&Json::Null));
    assert_eq!(doc.element(2), None);
    assert_eq!(doc.element(usize::MAX), None);
    assert_eq!(Json::Array(vec![]).element(0), None);
}

#[test]
fn element_of_anything_but_an_array_is_none() {
    assert_eq!(object(vec![("0", text("x"))]).element(0), None);
    assert_eq!(text("abc").element(0), None);
    assert_eq!(Json::Null.element(0), None);
}

#[test]
fn as_text_gives_the_string_of_a_string_only() {
    assert_eq!(text("hello").as_text(), Some("hello"));
    assert_eq!(text("").as_text(), Some(""));
    assert_eq!(Json::Null.as_text(), None);
    assert_eq!(Json::Unsigned(1).as_text(), None);
    assert_eq!(Json::Real("1.5".to_string()).as_text(), None);
    assert_eq!(Json::Array(vec![text("a")]).as_text(), None);
}

#[test]
fn as_count_gives_integers_that_fit_32_bits() {
    assert_eq!(Json::Unsigned(0).as_count(), Some(0));
    assert_eq!(Json::Unsigned(3).as_count(), Some(3));
    assert_eq!(Json::Unsigned(4_294_967_295).as_count(), Some(u32::MAX));
    assert_eq!(Json::Unsigned(4_294_967_296).as_count(), None);
    assert_eq!(Json::Unsigned(u64::MAX).as_count(), None);
    assert_eq!(Json::Negative(-1).as_count(), None);
    assert_eq!(Json::Negative(5).as_count(), Some(5));
    assert_eq!(Json::Real("3.0".to_string()).as_count(), None);
    assert_eq!(text("3").as_count(), None);
    assert_eq!(Json::Null.as_count(), None);
}
