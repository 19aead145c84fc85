use graphql_boundary::base::{InputType, OutputType};
use graphql_boundary::error::InputValueError;
use graphql_boundary::raw::RawType;
use graphql_boundary::registry::Registry;
use graphql_boundary::value::Value;

fn text(s: &str) -> String {
    s.to_string()
}

#[test]
fn raw_roundtrip_is_identity() {
    let raw: RawType<String> = RawType::new(text("{\"a\":[1,2,3]}"));
    assert_eq!(raw.to_value(), Value::Raw(text("{\"a\":[1,2,3]}")));
}

#[test]
fn raw_roundtrip_keeps_quotes_and_escapes() {
    let payload = "\"line\\nbreak\" \u{e9}\u{4e16}\t\\";
    let raw: RawType<String> = RawType::new(text(payload));
    assert_eq!(raw.to_value(), Value::Raw(text(payload)));
}

#[test]
fn raw_roundtrip_of_empty_text() {
    let raw: RawType<String> = RawType::new(String::new());
    assert_eq!(raw.to_value(), Value::Raw(String::new()));
}

#[test]
fn input_names_are_those_of_the_inner_type() {
    assert_eq!(
        <RawType<String> as InputType>::qualified_type_name(),
        <String as InputType>::qualified_type_name()
    );
    assert_eq!(<RawType<String> as InputType>::qualified_type_name(), "String!");
    assert_eq!(<RawType<String> as InputType>::unqualified_type_name(), "String!");
}

#[test]
fn output_names_are_those_of_the_inner_type() {
    assert_eq!(
        <RawType<String> as OutputType>::qualified_type_name(),
        <String as OutputType>::qualified_type_name()
    );
    assert_eq!(<RawType<String> as OutputType>::qualified_type_name(), "String!");
    assert_eq!(<RawType<String> as OutputType>::unqualified_type_name(), "String!");
}

#[test]
fn nested_adapters_keep_the_innermost_name() {
    assert_eq!(<RawType<RawType<String>> as InputType>::qualified_type_name(), "String!");
    assert_eq!(<RawType<RawType<String>> as OutputType>::qualified_type_name(), "String!");
}

#[test]
fn string_names() {
    assert_eq!(<String as InputType>::unqualified_type_name(), "String");
    assert_eq!(<String as InputType>::qualified_type_name(), "String!");
    assert_eq!(<String as OutputType>::unqualified_type_name(), "String");
    assert_eq!(<String as OutputType>::qualified_type_name(), "String!");
}

#[test]
fn registration_is_that_of_the_inner_type() {
    let mut by_adapter = Registry::new();
    let name = <RawType<String> as InputType>::create_type_info(&mut by_adapter);
    assert_eq!(name, "String!");

    let mut by_inner = Registry::new();
    let inner_name = <String as InputType>::create_type_info(&mut by_inner);
    assert_eq!(inner_name, "String!");

    assert_eq!(by_adapter.len(), 1);
    assert_eq!(by_inner.len(), 1);
    assert!(by_adapter.contains(&text("String")));
    assert!(!by_adapter.contains(&text("String!")));
}

#[test]
fn registration_as_output_is_that_of_the_inner_type() {
    let mut registry = Registry::new();
    let name = <RawType<String> as OutputType>::create_type_info(&mut registry);
    assert_eq!(name, "String!");
    assert_eq!(registry.len(), 1);
    assert!(registry.contains(&text("String")));
}

#[test]
fn registering_twice_adds_nothing() {
    let mut registry = Registry::new();
    <RawType<String> as InputType>::create_type_info(&mut registry);
    <String as OutputType>::create_type_info(&mut registry);
    <RawType<String> as OutputType>::create_type_info(&mut registry);
    assert_eq!(registry.len(), 1);
}

#[test]
fn parse_takes_raw_text_as_it_is() {
    let parsed = <RawType<String> as InputType>::parse(Some(Value::Raw(text("{\"id\": 7}"))));
    let raw = parsed.ok().expect("a raw value is accepted");
    assert_eq!(raw.to_value(), Value::Raw(text("{\"id\": 7}")));
}

#[test]
fn parse_does_not_validate_raw_text() {
    let parsed = <RawType<String> as InputType>::parse(Some(Value::Raw(text("{not json"))));
    let raw = parsed.ok().expect("a raw value is accepted unseen");
    assert_eq!(raw.to_value(), Value::Raw(text("{not json")));
}

#[test]
fn parse_failure_is_that_of_the_inner_type() {
    let alone = <String as InputType>::parse(Some(Value::Number(1)));
    let wrapped = <RawType<String> as InputType>::parse(Some(Value::Number(1)));
    let alone = alone.err().expect("a number is no string");
    let wrapped = wrapped.err().expect("a number is no string");
    assert_eq!(wrapped.message(), alone.message());
    assert_eq!(wrapped.message(), "Expected input type \"String\"");
}

#[test]
fn parse_of_an_absent_value_is_the_inner_parse_of_it() {
    let alone = <String as InputType>::parse(None);
    let wrapped = <RawType<String> as InputType>::parse(None);
    let alone = alone.err().expect("nothing is no string");
    let wrapped = wrapped.err().expect("nothing is no string");
    assert_eq!(wrapped.into_message(), alone.into_message());
}

#[test]
fn parse_of_null_is_the_inner_parse_of_null() {
    let alone = <String as InputType>::parse(Some(Value::Null));
    let wrapped = <RawType<String> as InputType>::parse(Some(Value::Null));
    assert_eq!(wrapped.unwrap_err().message(), alone.unwrap_err().message());
}

#[test]
fn parse_takes_what_the_inner_type_takes() {
    let wrapped = <RawType<String> as InputType>::parse(Some(Value::String(text("plain"))));
    let raw = wrapped.ok().expect("a string is accepted as the inner type accepts it");
    assert_eq!(raw.to_value(), Value::Raw(text("\"plain\"")));
}

#[test]
fn parse_holds_the_json_text_of_what_the_inner_type_took() {
    let wrapped = <RawType<String> as InputType>::parse(Some(Value::String(text("a \"b\"\n\\"))));
    let raw = wrapped.ok().expect("accepted");
    assert_eq!(raw.to_value(), Value::Raw(text("\"a \\\"b\\\"\\n\\\\\"")));
}

#[test]
fn parse_fails_exactly_when_the_value_is_not_raw_and_the_inner_type_refuses() {
    let values = || {
        vec![
            None,
            Some(Value::Null),
            Some(Value::Number(-3)),
            Some(Value::Boolean(false)),
            Some(Value::String(text("s"))),
            Some(Value::List(vec![])),
            Some(Value::Object(vec![])),
            Some(Value::Raw(text("raw"))),
        ]
    };
    for (for_inner, for_adapter) in values().into_iter().zip(values()) {
        let raw = matches!(for_adapter, Some(Value::Raw(_)));
        let inner = <String as InputType>::parse(for_inner);
        let adapter = <RawType<String> as InputType>::parse(for_adapter);
        assert_eq!(adapter.is_err(), !raw && inner.is_err());
        if let (Err(inner), Err(adapter)) = (inner, adapter) {
            assert_eq!(adapter.message(), inner.message());
            assert_eq!(adapter.path(), inner.path());
        }
    }
}

#[test]
fn parse_through_a_nested_adapter() {
    let parsed = <RawType<RawType<String>> as InputType>::parse(Some(Value::Raw(text("[1]"))));
    assert_eq!(parsed.ok().expect("raw").to_value(), Value::Raw(text("[1]")));

    let refused = <RawType<RawType<String>> as InputType>::parse(Some(Value::Boolean(true)));
    assert_eq!(refused.err().expect("no string").message(), "Expected input type \"String\"");
}

#[test]
fn from_parsed_takes_over_a_raw_value() {
    let inner = <RawType<String> as InputType>::parse(Some(Value::Raw(text("null"))));
    let outer: Result<RawType<RawType<String>>, _> = RawType::from_parsed(inner);
    assert_eq!(outer.ok().expect("raw").to_value(), Value::Raw(text("null")));
}

#[test]
fn from_parsed_keeps_the_message_of_a_failure() {
    let inner = <String as InputType>::parse(Some(Value::List(vec![Value::Null])));
    let outer: Result<RawType<String>, _> = RawType::from_parsed(inner);
    assert_eq!(outer.err().expect("a list is no string").message(), "Expected input type \"String\"");
}

#[test]
fn from_parsed_takes_over_a_value_that_is_not_raw() {
    let inner = <String as InputType>::parse(Some(Value::String(text("x"))));
    let outer: Result<RawType<String>, _> = RawType::from_parsed(inner);
    assert_eq!(outer.ok().expect("taken").to_value(), Value::Raw(text("\"x\"")));
}

#[test]
fn from_parsed_keeps_the_path_of_a_failure() {
    let inner: Result<String, InputValueError<String>> =
        Err(InputValueError::custom(text("bad")).nested(text("b")).nested(text("a")));
    let outer: Result<RawType<String>, _> = RawType::from_parsed(inner);
    let error = outer.err().expect("a failure stays a failure");
    assert_eq!(error.message(), "bad");
    assert_eq!(error.path(), &vec![text("a"), text("b")]);
}

#[test]
fn as_raw_value_is_the_adapter_itself() {
    let raw: RawType<String> = RawType::new(text("42"));
    let seen = raw.as_raw_value().expect("always there");
    assert!(std::ptr::eq(seen, &raw));
    assert_eq!(seen.to_value(), Value::Raw(text("42")));
}

#[test]
fn resolve_gives_the_text_as_a_raw_value() {
    let raw: RawType<String> = RawType::new(text("{\"ok\":true}"));
    assert_eq!(raw.resolve(), Ok(Value::Raw(text("{\"ok\":true}"))));
}

#[test]
fn string_travels_as_a_string_value() {
    let s = text("hello");
    assert_eq!(s.to_value(), Value::String(text("hello")));
    assert_eq!(s.resolve(), Ok(Value::String(text("hello"))));
    assert_eq!(<String as InputType>::parse(Some(Value::String(text("hello")))).ok(), Some(text("hello")));
    assert_eq!(s.as_raw_value(), Some(&text("hello")));
}

#[test]
fn value_default_is_null() {
    assert_eq!(Value::default(), Value::Null);
    assert!(!Value::default().is_raw());
    assert!(Value::Raw(String::new()).is_raw());
    assert!(!Value::Object(vec![(text("a"), Value::Number(1))]).is_raw());
}
