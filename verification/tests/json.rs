use dcollector::json::{parse_document, Json};

fn number(whole: i64) -> Json {
    Json::Number { whole: Some(whole), double: Some((whole as f64).to_bits()) }
}

#[test]
fn parse_document_reads_every_kind_of_value() {
    assert_eq!(parse_document("null"), Json::Null);
    assert_eq!(parse_document("true"), Json::Bool(true));
    assert_eq!(parse_document("false"), Json::Bool(false));
    assert_eq!(parse_document("35"), number(35));
    assert_eq!(parse_document("-7"), number(-7));
    assert_eq!(
        parse_document("1.5"),
        Json::Number { whole: None, double: Some(1.5f64.to_bits()) }
    );
    assert_eq!(
        parse_document("18446744073709551615"),
        Json::Number { whole: None, double: Some((u64::MAX as f64).to_bits()) }
    );
    assert_eq!(parse_document("\"a\\nb\""), Json::Text(String::from("a\nb")));
    assert_eq!(parse_document("[]"), Json::Array(vec![]));
    assert_eq!(
        parse_document("[1, [2], \"3\"]"),
        Json::Array(vec![number(1), Json::Array(vec![number(2)]), Json::Text(String::from("3"))])
    );
    assert_eq!(parse_document("{}"), Json::Object(vec![]));
    assert_eq!(
        parse_document(r#"{"a": {"b": null}, "c": [true]}"#),
        Json::Object(vec![
            (String::from("a"), Json::Object(vec![(String::from("b"), Json::Null)])),
            (String::from("c"), Json::Array(vec![Json::Bool(true)])),
        ])
    );
}

#[test]
fn parse_document_reads_no_document_as_null() {
    for text in ["", " ", "{", "}", "[1,]", "{\"a\"}", "nul", "1 2", "'a'", "{\"a\": 1,}"] {
        assert_eq!(parse_document(text), Json::Null, "{:?}", text);
    }
}

#[test]
fn an_object_holds_each_name_once() {
    assert_eq!(
        parse_document(r#"{"a": 1, "a": 2}"#),
        Json::Object(vec![(String::from("a"), number(2))])
    );
}

#[test]
fn get_finds_members_by_name() {
    let document = parse_document(r#"{"temperature": {"current": 35}, "name": "ada0"}"#);
    assert_eq!(document.get("name"), Some(&Json::Text(String::from("ada0"))));
    assert_eq!(document.get("nam"), None);
    assert_eq!(document.get("names"), None);
    assert_eq!(document.get_nested("temperature", "current"), Some(&number(35)));
    assert_eq!(document.get_nested("temperature", "highest"), None);
    assert_eq!(document.get_nested("name", "current"), None);
    assert_eq!(document.get_nested("humidity", "current"), None);
    assert_eq!(Json::Null.get("name"), None);
    assert_eq!(Json::Array(vec![number(1)]).get("0"), None);
}

#[test]
fn get_takes_the_first_member_of_a_name() {
    let document =
        Json::Object(vec![(String::from("a"), number(1)), (String::from("a"), number(2))]);
    assert_eq!(document.get("a"), Some(&number(1)));
}

#[test]
fn values_are_read_as_what_they_are() {
    assert_eq!(number(5).as_whole(), Some(5));
    assert_eq!(number(5).as_double(), Some(5.0f64.to_bits()));
    assert_eq!(parse_document("2.5").as_whole(), None);
    assert_eq!(parse_document("2.5").as_double(), Some(2.5f64.to_bits()));
    assert_eq!(Json::Text(String::from("5")).as_whole(), None);
    assert_eq!(Json::Text(String::from("5")).as_double(), None);
    assert_eq!(Json::Null.as_whole(), None);
    assert_eq!(Json::Bool(true).as_double(), None);
    assert!(Json::Text(String::from("x")).text_is(&String::from("x")));
    assert!(!Json::Text(String::from("x")).text_is(&String::from("y")));
    assert!(!number(1).text_is(&String::from("1")));
    assert_eq!(Json::Array(vec![number(1)]).as_items(), Some(&vec![number(1)]));
    assert_eq!(Json::Object(vec![]).as_items(), None);
    assert_eq!(Json::Null.as_items(), None);
}
