//! What a type must offer to stand in a schema as the type of an input or of
//! an output.

use crate::error::{InputValueResult, Refusal, ServerResult};
use crate::registry::Registry;
use crate::value::{json_text, Value};
use std::borrow::Cow;
use vstd::prelude::*;

verus! {

/// A type whose values can be given as input.
pub trait InputType: Sized {
    /// The type that holds the value itself, where this one wraps another.
    type RawValueType;

    /// The name of the type.
    spec fn unqualified_type_name_spec() -> Seq<char>;

    /// The name of the type as the schema writes it where the type is used.
    spec fn qualified_type_name_spec() -> Seq<char>;

    /// The names in a registry that held `names`, once the type has
    /// registered itself there.
    spec fn registered(names: Seq<Seq<char>>) -> Seq<Seq<char>>;

    /// What parsing makes of `value`: a value of the type, told by its JSON
    /// text in the form in which it travels, or the message and the path
    /// with which `value` is refused.
    spec fn parsed(value: Option<Value>) -> Result<Seq<char>, Refusal>;

    /// The value in the form in which it travels.
    spec fn wire_value(&self) -> Value;

    /// The name of the type.
    fn unqualified_type_name() -> (name: Cow<'static, str>)
        ensures
            name@ == Self::unqualified_type_name_spec(),
    ;

    /// The name of the type as the schema writes it where the type is used.
    fn qualified_type_name() -> (name: String)
        ensures
            name@ == Self::qualified_type_name_spec(),
    ;

    /// Registers the type and gives its qualified name.
    fn create_type_info(registry: &mut Registry) -> (name: String)
        ensures
            final(registry)@ == Self::registered(old(registry)@),
            old(registry).well_formed() ==> final(registry).well_formed(),
            name@ == Self::qualified_type_name_spec(),
    ;

    /// Parses an input value, which may be absent.
    fn parse(value: Option<Value>) -> (result: InputValueResult<Self>)
        ensures
            result matches Ok(parsed) ==> Self::parsed(value) == Ok::<Seq<char>, Refusal>(
                json_text(parsed.wire_value()),
            ),
            result matches Err(error) ==> Self::parsed(value) == Err::<Seq<char>, Refusal>(error@),
    ;

    /// The value in the form in which it travels.
    fn to_value(&self) -> (value: Value)
        ensures
            value == self.wire_value(),
    ;

    /// The value itself, where this one wraps another.
    fn as_raw_value(&self) -> Option<&Self::RawValueType>;
}

/// A type whose values can be given as output.
pub trait OutputType {
    /// The name of the type.
    spec fn unqualified_type_name_spec() -> Seq<char>;

    /// The name of the type as the schema writes it where the type is used.
    spec fn qualified_type_name_spec() -> Seq<char>;

    /// The names in a registry that held `names`, once the type has
    /// registered itself there.
    spec fn registered(names: Seq<Seq<char>>) -> Seq<Seq<char>>;

    /// The name of the type.
    fn unqualified_type_name() -> (name: Cow<'static, str>)
        ensures
            name@ == Self::unqualified_type_name_spec(),
    ;

    /// The name of the type as the schema writes it where the type is used.
    fn qualified_type_name() -> (name: String)
        ensures
            name@ == Self::qualified_type_name_spec(),
    ;

    /// Registers the type and gives its qualified name.
    fn create_type_info(registry: &mut Registry) -> (name: String)
        ensures
            final(registry)@ == Self::registered(old(registry)@),
            old(registry).well_formed() ==> final(registry).well_formed(),
            name@ == Self::qualified_type_name_spec(),
    ;

    /// Resolves the value to the form in which it travels.
    fn resolve(&self) -> ServerResult<Value>;
}

} // verus!
