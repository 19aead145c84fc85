//! The built-in string scalar.

use crate::base::{InputType, OutputType};
use crate::error::{InputValueError, InputValueResult, Refusal, ServerResult};
use crate::registry::{with_type, Registry};
use crate::value::{string_text, Value};
use std::borrow::Cow;
use vstd::prelude::*;
use vstd::string::*;

verus! {

/// The message with which anything but a string is refused as a string.
pub open spec fn not_a_string_message() -> Seq<char> {
    "Expected input type \"String\""@
}

/// Strings are given as string values and as nothing else.
impl InputType for String {
    type RawValueType = String;

    open spec fn unqualified_type_name_spec() -> Seq<char> {
        "String"@
    }

    open spec fn qualified_type_name_spec() -> Seq<char> {
        "String!"@
    }

    open spec fn registered(names: Seq<Seq<char>>) -> Seq<Seq<char>> {
        with_type(names, "String"@)
    }

    open spec fn parsed(value: Option<Value>) -> Result<Seq<char>, Refusal> {
        match value {
            Some(Value::String(text)) => Ok(string_text(text@)),
            _ => Err(Refusal { message: not_a_string_message(), path: Seq::empty() }),
        }
    }

    open spec fn wire_value(&self) -> Value {
        Value::String(*self)
    }

    fn unqualified_type_name() -> (name: Cow<'static, str>) {
        Cow::Borrowed("String")
    }

    fn qualified_type_name() -> (name: String) {
        String::from_str("String!")
    }

    fn create_type_info(registry: &mut Registry) -> (name: String) {
        registry.register(String::from_str("String"));
        String::from_str("String!")
    }

    fn parse(value: Option<Value>) -> (result: InputValueResult<Self>) {
        match value {
            Some(Value::String(text)) => Ok(text),
            _ => Err(InputValueError::custom(String::from_str("Expected input type \"String\""))),
        }
    }

    fn to_value(&self) -> (value: Value) {
        Value::String(self.clone())
    }

    fn as_raw_value(&self) -> (raw: Option<&String>)
        ensures
            raw == Some(self),
    {
        Some(self)
    }
}

/// Strings are given out as string values.
impl OutputType for String {
    open spec fn unqualified_type_name_spec() -> Seq<char> {
        "String"@
    }

    open spec fn qualified_type_name_spec() -> Seq<char> {
        "String!"@
    }

    open spec fn registered(names: Seq<Seq<char>>) -> Seq<Seq<char>> {
        with_type(names, "String"@)
    }

    fn unqualified_type_name() -> (name: Cow<'static, str>) {
        Cow::Borrowed("String")
    }

    fn qualified_type_name() -> (name: String) {
        String::from_str("String!")
    }

    fn create_type_info(registry: &mut Registry) -> (name: String) {
        registry.register(String::from_str("String"));
        String::from_str("String!")
    }

    fn resolve(&self) -> (result: ServerResult<Value>)
        ensures
            result == Ok::<Value, crate::error::ServerError>(Value::String(*self)),
    {
        Ok(Value::String(self.clone()))
    }
}

} // verus!
