use wallet::json::Json;

#[test]
fn parse_reads_each_kind_of_value() {
    let json = Json::parse(br#"{"b": [1, -2, 3.5, true, null, "x"], "a": {"k": "v"}}"#).unwrap();
    assert_eq!(
        json,
        Json::Obj(vec![
            ("a".to_string(), Json::Obj(vec![("k".to_string(), Json::Str("v".to_string()))])),
            (
                "b".to_string(),
                Json::Arr(vec![
                    Json::Int(1),
                    Json::Int(-2),
                    Json::Num("3.5".to_string()),
                    Json::Bool(true),
                    Json::Null,
                    Json::Str("x".to_string()),
                ]),
            ),
        ])
    );
}

#[test]
fn parse_keeps_large_numbers_as_text() {
    let json = Json::parse(b"[9223372036854775807, 9223372036854775808]").unwrap();
    assert_eq!(
        json,
        Json::Arr(vec![Json::Int(i64::MAX), Json::Num("9223372036854775808".to_string())])
    );
}

#[test]
fn parse_refuses_what_is_no_json() {
    let error = Json::parse(b"{\"a\": ").unwrap_err();
    assert!(!error.is_empty());
    assert!(Json::parse(b"").is_err());
    assert!(Json::parse(&[0xff, 0xfe]).is_err());
}

#[test]
fn print_writes_compact_text() {
    let json = Json::Obj(vec![
        ("name".to_string(), Json::Str("a \"b\"".to_string())),
        ("n".to_string(), Json::Int(-7)),
        ("x".to_string(), Json::Num("2.5".to_string())),
        ("list".to_string(), Json::Arr(vec![Json::Bool(false), Json::Null])),
    ]);
    let text = String::from_utf8(json.print().unwrap()).unwrap();
    assert_eq!(text, r#"{"list":[false,null],"n":-7,"name":"a \"b\"","x":2.5}"#);
}

#[test]
fn print_writes_null_for_text_that_is_no_number() {
    let json = Json::Arr(vec![Json::Num("twelve".to_string())]);
    assert_eq!(json.print().unwrap(), b"[null]".to_vec());
}

#[test]
fn print_then_parse_gives_the_value_back() {
    let json = Json::Obj(vec![
        ("a".to_string(), Json::Arr(vec![Json::Int(1), Json::Str("two".to_string())])),
        ("b".to_string(), Json::Obj(vec![("c".to_string(), Json::Null)])),
    ]);
    let bytes = json.print().unwrap();
    assert_eq!(Json::parse(&bytes).unwrap(), json);
}

#[test]
fn get_takes_the_first_member_with_the_key() {
    let json = Json::Obj(vec![
        ("k".to_string(), Json::Int(1)),
        ("k".to_string(), Json::Int(2)),
        ("l".to_string(), Json::Int(3)),
    ]);
    assert_eq!(json.get("k"), Some(&Json::Int(1)));
    assert_eq!(json.get("l"), Some(&Json::Int(3)));
    assert_eq!(json.get("m"), None);
    assert_eq!(Json::Int(1).get("k"), None);
}

#[test]
fn fields_are_read_by_their_type() {
    let json = Json::parse(br#"{"s": "text", "n": 5, "z": null, "l": ["a", "b"], "m": ["a", 1]}"#)
        .unwrap();
    assert_eq!(json.text_field("s"), Some("text".to_string()));
    assert_eq!(json.text_field("n"), None);
    assert_eq!(json.text_field("missing"), None);
    assert_eq!(json.optional_text_field("s"), Ok(Some("text".to_string())));
    assert_eq!(json.optional_text_field("z"), Ok(None));
    assert_eq!(json.optional_text_field("missing"), Ok(None));
    assert_eq!(json.optional_text_field("n"), Err(()));
    assert_eq!(json.int_field("n"), Some(5));
    assert_eq!(json.int_field("s"), None);
    assert_eq!(json.optional_int_field("z"), Ok(None));
    assert_eq!(json.optional_int_field("s"), Err(()));
    assert_eq!(json.texts_field("l"), Some(vec!["a".to_string(), "b".to_string()]));
    assert_eq!(json.texts_field("m"), None);
    assert_eq!(json.field_or_null("missing"), Json::Null);
    assert_eq!(json.field_or_null("n"), Json::Int(5));
}

#[test]
fn small_integers_are_held_to_their_range() {
    let json = Json::parse(br#"{"ok": 2147483647, "low": -2147483648, "big": 2147483648}"#).unwrap();
    assert_eq!(json.optional_small_int_field("ok"), Ok(Some(i32::MAX)));
    assert_eq!(json.optional_small_int_field("low"), Ok(Some(i32::MIN)));
    assert_eq!(json.optional_small_int_field("big"), Err(()));
    assert_eq!(json.optional_small_int_field("missing"), Ok(None));
}

#[test]
fn duplicate_copies_the_whole_tree() {
    let json = Json::parse(br#"{"a": [1, {"b": [true, "c"]}], "d": 2.5}"#).unwrap();
    assert_eq!(json.duplicate(), json);
    assert_eq!(json.clone(), json);
}

#[test]
fn parse_hands_on_the_message_of_the_parser() {
    assert_eq!(
        Json::parse(b"{"),
        Err("EOF while parsing an object at line 1 column 1".to_string())
    );
    assert_eq!(Json::parse(b""), Err("EOF while parsing a value at line 1 column 0".to_string()));
    assert_eq!(Json::parse(b"[1,]"), Err("trailing comma at line 1 column 4".to_string()));
}
