use graphql_boundary::value::Value;

fn text(s: &str) -> String {
    s.to_string()
}

#[test]
fn text_of_scalars() {
    assert_eq!(Value::Null.to_text(), "null");
    assert_eq!(Value::Boolean(true).to_text(), "true");
    assert_eq!(Value::Boolean(false).to_text(), "false");
    assert_eq!(Value::Number(0).to_text(), "0");
    assert_eq!(Value::Number(7).to_text(), "7");
    assert_eq!(Value::Number(-7).to_text(), "-7");
    assert_eq!(Value::Number(1234567890).to_text(), "1234567890");
    assert_eq!(Value::String(text("abc")).to_text(), "\"abc\"");
    assert_eq!(Value::String(String::new()).to_text(), "\"\"");
}

#[test]
fn text_of_the_least_and_the_greatest_number() {
    assert_eq!(Value::Number(i64::MAX).to_text(), "9223372036854775807");
    assert_eq!(Value::Number(i64::MIN).to_text(), "-9223372036854775808");
    assert_eq!(Value::Number(i64::MIN + 1).to_text(), "-9223372036854775807");
}

#[test]
fn text_of_numbers_is_that_of_the_json_writer() {
    for n in [0i64, 1, -1, 9, 10, -10, 99, 100, 4096, -65535, i64::MAX, i64::MIN] {
        assert_eq!(Value::Number(n).to_text(), serde_json::to_string(&n).unwrap());
    }
}

#[test]
fn text_of_a_raw_value_is_its_own_text() {
    assert_eq!(Value::Raw(text("{\"a\": [1, 2]}")).to_text(), "{\"a\": [1, 2]}");
    assert_eq!(Value::Raw(text("not \"json\"\n")).to_text(), "not \"json\"\n");
    assert_eq!(Value::Raw(String::new()).to_text(), "");
}

#[test]
fn text_of_strings_escapes_quotes_backslashes_and_controls() {
    assert_eq!(Value::String(text("\"")).to_text(), "\"\\\"\"");
    assert_eq!(Value::String(text("\\")).to_text(), "\"\\\\\"");
    assert_eq!(Value::String(text("\n\r\t")).to_text(), "\"\\n\\r\\t\"");
    assert_eq!(Value::String(text("\u{8}\u{c}")).to_text(), "\"\\b\\f\"");
    assert_eq!(Value::String(text("\u{0}\u{1f}\u{b}")).to_text(), "\"\\u0000\\u001f\\u000b\"");
    assert_eq!(Value::String(text("/ \u{7f} \u{e9} \u{4e16}")).to_text(), "\"/ \u{7f} \u{e9} \u{4e16}\"");
}

#[test]
fn text_of_every_character_is_that_of_the_json_writer() {
    for code in (0u32..0x300).chain([0x2028, 0x2029, 0xfffd, 0x1f600, 0x10ffff]) {
        if let Some(c) = char::from_u32(code) {
            let s = format!("a{}z", c);
            assert_eq!(Value::String(s.clone()).to_text(), serde_json::to_string(&s).unwrap(), "code {}", code);
        }
    }
}

#[test]
fn text_of_lists() {
    assert_eq!(Value::List(vec![]).to_text(), "[]");
    assert_eq!(Value::List(vec![Value::Null]).to_text(), "[null]");
    assert_eq!(
        Value::List(vec![Value::Number(1), Value::String(text("b")), Value::Boolean(true)]).to_text(),
        "[1,\"b\",true]"
    );
    assert_eq!(Value::List(vec![Value::List(vec![]), Value::List(vec![Value::Number(2)])]).to_text(), "[[],[2]]");
}

#[test]
fn text_of_objects() {
    assert_eq!(Value::Object(vec![]).to_text(), "{}");
    assert_eq!(Value::Object(vec![(text("a"), Value::Number(1))]).to_text(), "{\"a\":1}");
    let nested = Value::Object(vec![
        (text("a\"b"), Value::List(vec![Value::Null, Value::Raw(text("{ \"r\" : 1 }"))])),
        (text("c"), Value::Object(vec![(text("d"), Value::String(text("e")))])),
        (text("a\"b"), Value::Boolean(false)),
    ]);
    assert_eq!(
        nested.to_text(),
        "{\"a\\\"b\":[null,{ \"r\" : 1 }],\"c\":{\"d\":\"e\"},\"a\\\"b\":false}"
    );
}

#[test]
fn text_without_raw_parts_reads_back_as_the_same_json() {
    let value = Value::Object(vec![
        (text("list"), Value::List(vec![Value::Number(-1), Value::Null, Value::Boolean(true)])),
        (text("s"), Value::String(text("line\nbreak \"quoted\" \u{1} \u{e9}"))),
    ]);
    let read: serde_json::Value = serde_json::from_str(&value.to_text()).unwrap();
    assert_eq!(read["list"][0].as_i64(), Some(-1));
    assert!(read["list"][1].is_null());
    assert_eq!(read["list"][2].as_bool(), Some(true));
    assert_eq!(read["s"].as_str(), Some("line\nbreak \"quoted\" \u{1} \u{e9}"));
}
