use audit_viewer::json::{
    cell, member_cell, member_i64, parse_bytes, parse_text, Json, JsonNumber,
};

fn number(text: &str, integer: Option<i64>) -> Json {
    Json::Number(JsonNumber { text: text.to_string(), integer })
}

#[test]
fn scalars_are_parsed() {
    assert_eq!(parse_bytes(b"null"), Some(Json::Null));
    assert_eq!(parse_bytes(b"true"), Some(Json::Bool(true)));
    assert_eq!(parse_bytes(b" \"a\\u00e9\" "), Some(Json::Text("aé".to_string())));
    assert_eq!(parse_bytes(b"42"), Some(number("42", Some(42))));
    assert_eq!(parse_bytes(b"-7"), Some(number("-7", Some(-7))));
    assert_eq!(
        parse_bytes(b"-9223372036854775808"),
        Some(number("-9223372036854775808", Some(i64::MIN)))
    );
}

#[test]
fn numbers_beyond_i64_keep_their_text() {
    assert_eq!(
        parse_bytes(b"9223372036854775807"),
        Some(number("9223372036854775807", Some(i64::MAX)))
    );
    assert_eq!(
        parse_bytes(b"9223372036854775808"),
        Some(number("9223372036854775808", None))
    );
    assert_eq!(parse_bytes(b"1.5"), Some(number("1.5", None)));
}

#[test]
fn arrays_and_objects_are_parsed() {
    assert_eq!(
        parse_text("[1, {\"b\": [], \"a\": false}]"),
        Some(Json::Array(vec![
            number("1", Some(1)),
            Json::Object(vec![
                ("a".to_string(), Json::Bool(false)),
                ("b".to_string(), Json::Array(vec![])),
            ]),
        ]))
    );
}

#[test]
fn a_repeated_name_stands_once() {
    let doc = parse_text("{\"a\": 1, \"a\": 2}").unwrap();
    assert_eq!(doc, Json::Object(vec![("a".to_string(), number("2", Some(2)))]));
}

#[test]
fn what_is_no_json_is_refused() {
    assert_eq!(parse_bytes(b""), None);
    assert_eq!(parse_bytes(b"{"), None);
    assert_eq!(parse_bytes(b"1 2"), None);
    assert_eq!(parse_bytes(b"\"\xff\""), None);
    assert_eq!(parse_text("kind"), None);
}

#[test]
fn cells_show_scalars_only() {
    assert_eq!(cell(&Json::Text("x".to_string())), "x");
    assert_eq!(cell(&number("1.5", None)), "1.5");
    assert_eq!(cell(&Json::Bool(true)), "true");
    assert_eq!(cell(&Json::Bool(false)), "false");
    assert_eq!(cell(&Json::Null), "");
    assert_eq!(cell(&Json::Array(vec![Json::Bool(true)])), "");
    assert_eq!(cell(&Json::Object(vec![])), "");
}

#[test]
fn integer_cell_is_in_decimal() {
    let doc = parse_text("{\"n\": -120}").unwrap();
    assert_eq!(member_cell(&doc, "n"), "-120");
    assert_eq!(member_i64(&doc, "n"), Some(-120));
}

#[test]
fn members_are_found_under_their_names() {
    let doc = parse_text("{\"one\": 1, \"two\": \"2\", \"three\": null}").unwrap();
    assert_eq!(doc.get("one"), Some(&number("1", Some(1))));
    assert_eq!(doc.get("three"), Some(&Json::Null));
    assert_eq!(doc.get("four"), None);
    assert_eq!(Json::Array(vec![]).get("one"), None);
    assert_eq!(member_cell(&doc, "two"), "2");
    assert_eq!(member_cell(&doc, "three"), "");
    assert_eq!(member_cell(&doc, "four"), "");
    assert_eq!(member_i64(&doc, "one"), Some(1));
    assert_eq!(member_i64(&doc, "two"), None);
    assert_eq!(member_i64(&doc, "four"), None);
}

#[test]
fn the_first_of_equal_names_counts() {
    let doc = Json::Object(vec![
        ("a".to_string(), Json::Bool(true)),
        ("a".to_string(), Json::Bool(false)),
    ]);
    assert_eq!(doc.get("a"), Some(&Json::Bool(true)));
}

#[test]
fn no_number_has_an_empty_cell() {
    for text in ["0", "-0", "0.0", "1e300", "-1.5e-9", "18446744073709551615"] {
        assert!(!cell(&parse_text(text).unwrap()).is_empty(), "{}", text);
    }
}
