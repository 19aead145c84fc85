use graphql_boundary::error::{InputValueError, ServerError};
use graphql_boundary::registry::Registry;

#[test]
fn new_registry_is_empty() {
    let registry = Registry::new();
    assert_eq!(registry.len(), 0);
    assert!(!registry.contains(&"String".to_string()));
}

#[test]
fn register_adds_a_name_once() {
    let mut registry = Registry::new();
    registry.register("Int".to_string());
    registry.register("String".to_string());
    registry.register("Int".to_string());
    assert_eq!(registry.len(), 2);
    assert!(registry.contains(&"Int".to_string()));
    assert!(registry.contains(&"String".to_string()));
    assert!(!registry.contains(&"int".to_string()));
}

#[test]
fn custom_error_holds_its_message() {
    let error: InputValueError<String> = InputValueError::custom("bad".to_string());
    assert_eq!(error.message(), "bad");
    assert_eq!(error.into_message(), "bad");
}

#[test]
fn propagate_keeps_the_message() {
    let error: InputValueError<String> = InputValueError::custom("bad value at a.b".to_string());
    let moved: InputValueError<u8> = error.propagate();
    assert_eq!(moved.message(), "bad value at a.b");
}

#[test]
fn server_error_holds_its_message() {
    assert_eq!(ServerError::new("boom".to_string()).message, "boom");
}

#[test]
fn custom_error_stands_at_the_root() {
    let error: InputValueError<String> = InputValueError::custom("bad".to_string());
    assert!(error.path().is_empty());
}

#[test]
fn nested_puts_a_segment_before_the_path() {
    let error: InputValueError<String> = InputValueError::custom("bad".to_string())
        .nested("inner".to_string())
        .nested("outer".to_string());
    assert_eq!(error.path(), &vec!["outer".to_string(), "inner".to_string()]);
    assert_eq!(error.message(), "bad");
}

#[test]
fn propagate_keeps_the_path() {
    let error: InputValueError<String> =
        InputValueError::custom("bad".to_string()).nested("field".to_string());
    let moved: InputValueError<u8> = error.propagate();
    assert_eq!(moved.path(), &vec!["field".to_string()]);
    assert_eq!(moved.message(), "bad");
}
