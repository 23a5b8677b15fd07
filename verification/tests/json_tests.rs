use polymarket_scanner::json::{
    array_text, member_text, object_text, parse_scalar_array, parse_string_array, scalars_of, texts_of,
    JsonItem,
};

fn strings(v: &[&str]) -> Vec<String> {
    v.iter().map(|s| s.to_string()).collect()
}

#[test]
fn string_array_is_read() {
    assert_eq!(parse_string_array("[\"Yes\", \"No\"]"), Some(strings(&["Yes", "No"])));
    assert_eq!(parse_string_array("[]"), Some(Vec::new()));
    assert_eq!(parse_string_array("[\"a\\\"b\"]"), Some(strings(&["a\"b"])));
}

#[test]
fn string_array_refuses_other_elements() {
    assert_eq!(parse_string_array("[0.5, 0.5]"), None);
    assert_eq!(parse_string_array("[\"Yes\", 1]"), None);
    assert_eq!(parse_string_array("[\"Yes\", null]"), None);
    assert_eq!(parse_string_array("[[\"Yes\"]]"), None);
}

#[test]
fn string_array_refuses_what_is_no_array() {
    assert_eq!(parse_string_array(""), None);
    assert_eq!(parse_string_array("\"Yes\""), None);
    assert_eq!(parse_string_array("{\"a\": 1}"), None);
    assert_eq!(parse_string_array("[\"Yes\""), None);
    assert_eq!(parse_string_array("[\"Yes\"] x"), None);
}

#[test]
fn scalar_array_takes_strings_and_numbers() {
    assert_eq!(parse_scalar_array("[\"0.5\", \"0.5\"]"), Some(strings(&["0.5", "0.5"])));
    assert_eq!(parse_scalar_array("[0.5, 0.25]"), Some(strings(&["0.5", "0.25"])));
    assert_eq!(parse_scalar_array("[1, \"0\", -3]"), Some(strings(&["1", "0", "-3"])));
    assert_eq!(parse_scalar_array("[]"), Some(Vec::new()));
}

#[test]
fn scalar_array_refuses_the_rest() {
    assert_eq!(parse_scalar_array("[true]"), None);
    assert_eq!(parse_scalar_array("[null]"), None);
    assert_eq!(parse_scalar_array("[[1]]"), None);
    assert_eq!(parse_scalar_array("[{}]"), None);
    assert_eq!(parse_scalar_array("0.5"), None);
    assert_eq!(parse_scalar_array("not json"), None);
}

#[test]
fn items_are_told_apart() {
    let items = vec![JsonItem::Text("a".to_string()), JsonItem::Number("1".to_string())];
    assert_eq!(texts_of(&items), None);
    assert_eq!(scalars_of(&items), Some(strings(&["a", "1"])));
    let with_other = vec![JsonItem::Text("a".to_string()), JsonItem::Other];
    assert_eq!(texts_of(&with_other), None);
    assert_eq!(scalars_of(&with_other), None);
    let only_text = vec![JsonItem::Text("a".to_string()), JsonItem::Text("b".to_string())];
    assert_eq!(texts_of(&only_text), Some(strings(&["a", "b"])));
    assert_eq!(texts_of(&Vec::new()), Some(Vec::new()));
}

#[test]
fn member_is_found() {
    let text = "{\"volume\": \"10\", \"n\": 3, \"timestamp\": \"t\"}";
    assert_eq!(member_text(text, "volume"), Some(Some("10".to_string())));
    assert_eq!(member_text(text, "timestamp"), Some(Some("t".to_string())));
}

#[test]
fn member_that_is_no_string_or_not_there() {
    let text = "{\"volume\": \"10\", \"n\": 3}";
    assert_eq!(member_text(text, "n"), Some(None));
    assert_eq!(member_text(text, "other"), Some(None));
    assert_eq!(member_text("[1, 2]", "volume"), Some(None));
    assert_eq!(member_text("\"volume\"", "volume"), Some(None));
}

#[test]
fn member_of_what_is_not_json() {
    assert_eq!(member_text("", "volume"), None);
    assert_eq!(member_text("{\"volume\": ", "volume"), None);
    assert_eq!(member_text("volume", "volume"), None);
}

#[test]
fn object_is_written_and_read_back() {
    let members = vec![
        ("outcome_prices".to_string(), "[\"0.5\"]".to_string()),
        ("volume".to_string(), "10".to_string()),
    ];
    let text = object_text(&members).unwrap();
    assert!(text.starts_with('{'));
    assert!(text.ends_with('}'));
    assert!(text.contains("\"volume\":\"10\""));
    assert!(text.contains("\"outcome_prices\":\"[\\\"0.5\\\"]\""));
    assert_eq!(member_text(&text, "volume"), Some(Some("10".to_string())));
    assert_eq!(member_text(&text, "outcome_prices"), Some(Some("[\"0.5\"]".to_string())));
    assert_eq!(member_text(&text, "timestamp"), Some(None));
}

#[test]
fn empty_object_is_written() {
    assert_eq!(object_text(&Vec::new()), Some("{}".to_string()));
}

#[test]
fn array_is_written_and_read_back() {
    assert_eq!(array_text(&strings(&["0.5", "0.25"])), Some("[\"0.5\",\"0.25\"]".to_string()));
    assert_eq!(array_text(&Vec::new()), Some("[]".to_string()));
    let odd = strings(&["a\"b", "c\\d", "\u{e9}"]);
    let text = array_text(&odd).unwrap();
    assert_eq!(parse_string_array(&text), Some(odd));
}
