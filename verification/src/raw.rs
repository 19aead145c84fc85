//! Values that are serialized already.

use crate::base::{InputType, OutputType};
use crate::error::{InputValueResult, Refusal, ServerResult};
use crate::registry::Registry;
use crate::value::{json_text, Value};
use std::borrow::Cow;
use std::marker::PhantomData;
use vstd::prelude::*;
use vstd::string::*;

verus! {

/// A value of the type `T` that is held as text, serialized already.
///
/// To the schema it is `T` itself. A raw value on the way in is taken as it
/// is, and `T` has no part in it; any other value is left to `T` and then
/// held as the JSON text of what `T` made of it. On the way out the text is
/// given as it is, as a raw value.
#[derive(Debug)]
pub struct RawType<T>(String, PhantomData<T>);

impl<T> View for RawType<T> {
    type V = Seq<char>;

    /// The characters of the text.
    closed spec fn view(&self) -> Seq<char> {
        self.0@
    }
}

impl<T> RawType<T> {
    /// The text that the value holds.
    pub closed spec fn text(self) -> String {
        self.0
    }

    /// The value that holds `data`.
    pub closed spec fn spec_new(data: String) -> Self {
        RawType(data, PhantomData)
    }

    /// A value that holds the text `data`.
    pub fn new(data: String) -> (raw: Self)
        ensures
            raw == Self::spec_new(data),
            raw.text() == data,
            raw@ == data@,
    {
        RawType(data, PhantomData)
    }

    /// A value holds the text that it was made of.
    pub proof fn lemma_text_of_new(data: String)
        ensures
            Self::spec_new(data).text() == data,
            Self::spec_new(data)@ == data@,
    {
    }

    /// A value is the one made of its text.
    pub proof fn lemma_new_of_text(self)
        ensures
            Self::spec_new(self.text()) == self,
            self.text()@ == self@,
    {
    }
}

impl<T: InputType> RawType<T> {
    /// Takes over the outcome of `T`'s parsing. A failure stays what it is,
    /// with its message and its path. A value of `T` is held as the JSON
    /// text of the form in which it travels, which for a raw value is its
    /// own text.
    pub fn from_parsed(parsed: InputValueResult<T>) -> (result: InputValueResult<Self>)
        ensures
            result is Err <==> parsed is Err,
            parsed matches Err(error) ==> (result matches Err(same) && same@ == error@),
            parsed matches Ok(inner) ==> (result matches Ok(raw) && raw@ == json_text(
                inner.wire_value(),
            )),
    {
        match parsed {
            Ok(inner) => Ok(RawType::new(inner.to_value().to_text())),
            Err(error) => Err(error.propagate()),
        }
    }
}

impl<T: InputType> InputType for RawType<T> {
    type RawValueType = Self;

    open spec fn unqualified_type_name_spec() -> Seq<char> {
        T::qualified_type_name_spec()
    }

    open spec fn qualified_type_name_spec() -> Seq<char> {
        T::qualified_type_name_spec()
    }

    open spec fn registered(names: Seq<Seq<char>>) -> Seq<Seq<char>> {
        T::registered(names)
    }

    open spec fn parsed(value: Option<Value>) -> Result<Seq<char>, Refusal> {
        match value {
            Some(Value::Raw(text)) => Ok(text@),
            other => T::parsed(other),
        }
    }

    open spec fn wire_value(&self) -> Value {
        Value::Raw(self.text())
    }

    /// The qualified name of `T`.
    fn unqualified_type_name() -> (name: Cow<'static, str>) {
        Cow::Owned(T::qualified_type_name())
    }

    /// The qualified name of `T`.
    fn qualified_type_name() -> (name: String) {
        T::qualified_type_name()
    }

    /// Registers `T`, and nothing else, and gives the qualified name of `T`.
    fn create_type_info(registry: &mut Registry) -> (name: String) {
        T::create_type_info(registry);
        Self::qualified_type_name()
    }

    /// A raw value is taken as it is, without a look at its text. Any other
    /// value, and an absent one, goes to `T`'s parsing as it came, and the
    /// outcome of that is taken over: parsing fails exactly when the value
    /// is not raw and `T` refuses it, and then with what `T`'s error tells.
    fn parse(value: Option<Value>) -> (result: InputValueResult<Self>)
        ensures
            value matches Some(Value::Raw(text)) ==> (result matches Ok(raw) && raw@ == text@),
            result is Err <==> !(value matches Some(Value::Raw(_))) && T::parsed(value) is Err,
            result matches Err(error) ==> T::parsed(value) == Err::<Seq<char>, Refusal>(error@),
            result matches Ok(raw) ==> Self::parsed(value) == Ok::<Seq<char>, Refusal>(raw@),
    {
        match value {
            Some(Value::Raw(text)) => Ok(RawType::new(text)),
            other => Self::from_parsed(T::parse(other)),
        }
    }

    /// The text, as a raw value.
    fn to_value(&self) -> (value: Value)
        ensures
            value.raw_text() == Some(self@),
    {
        Value::Raw(self.0.clone())
    }

    /// The value itself: it is in its final form.
    fn as_raw_value(&self) -> (raw: Option<&Self>)
        ensures
            raw == Some(self),
    {
        Some(self)
    }
}

/// Text that a value is made of comes back as it went in, as a raw value:
/// nothing is added, taken away or escaped.
pub proof fn lemma_raw_roundtrip<T: InputType>(data: String)
    ensures
        RawType::<T>::spec_new(data).wire_value() == Value::Raw(data),
        RawType::<T>::spec_new(data).wire_value().raw_text() == Some(data@),
{
    RawType::<T>::lemma_text_of_new(data);
}

/// As an input, a raw value bears the qualified name of the type it stands
/// for, under both of its names, and registers what that type registers.
pub proof fn lemma_input_is_transparent<T: InputType>(names: Seq<Seq<char>>)
    ensures
        RawType::<T>::qualified_type_name_spec() == T::qualified_type_name_spec(),
        RawType::<T>::unqualified_type_name_spec() == T::qualified_type_name_spec(),
        RawType::<T>::registered(names) == T::registered(names),
{
}

/// As an output, a raw value bears the qualified name of the type it stands
/// for, under both of its names, and registers what that type registers.
pub proof fn lemma_output_is_transparent<T: OutputType>(names: Seq<Seq<char>>)
    ensures
        RawType::<T>::qualified_type_name_spec() == T::qualified_type_name_spec(),
        RawType::<T>::unqualified_type_name_spec() == T::qualified_type_name_spec(),
        RawType::<T>::registered(names) == T::registered(names),
{
}

/// Parsing fails exactly when the value is not raw and `T` refuses it, and
/// then with what `T`'s error tells; so an absent value is taken exactly when
/// `T` takes an absent value.
pub proof fn lemma_parse_failure_is_inner<T: InputType>(value: Option<Value>)
    ensures
        RawType::<T>::parsed(value) is Err <==> !(value matches Some(Value::Raw(_)))
            && T::parsed(value) is Err,
        RawType::<T>::parsed(value) is Err ==> RawType::<T>::parsed(value) == T::parsed(value),
        RawType::<T>::parsed(None) == T::parsed(None),
{
}

/// A value that is not raw and that `T` takes is held as the JSON text of
/// what `T` made of it.
pub proof fn lemma_parse_success_is_inner<T: InputType>(value: Option<Value>)
    requires
        !(value matches Some(Value::Raw(_))),
    ensures
        RawType::<T>::parsed(value) == T::parsed(value),
{
}

/// A raw value is taken whatever its text and whatever `T` would make of it.
pub proof fn lemma_parse_raw<T: InputType>(text: String)
    ensures
        RawType::<T>::parsed(Some(Value::Raw(text))) == Ok::<Seq<char>, Refusal>(text@),
{
}

impl<T: OutputType> OutputType for RawType<T> {
    open spec fn unqualified_type_name_spec() -> Seq<char> {
        T::qualified_type_name_spec()
    }

    open spec fn qualified_type_name_spec() -> Seq<char> {
        T::qualified_type_name_spec()
    }

    open spec fn registered(names: Seq<Seq<char>>) -> Seq<Seq<char>> {
        T::registered(names)
    }

    /// The qualified name of `T`.
    fn unqualified_type_name() -> (name: Cow<'static, str>) {
        Cow::Owned(T::qualified_type_name())
    }

    /// The qualified name of `T`.
    fn qualified_type_name() -> (name: String) {
        T::qualified_type_name()
    }

    /// Registers `T`, and nothing else, and gives the qualified name of `T`.
    fn create_type_info(registry: &mut Registry) -> (name: String) {
        T::create_type_info(registry);
        T::qualified_type_name()
    }

    /// The text, as a raw value. `T` is not asked, and nothing can fail.
    fn resolve(&self) -> (result: ServerResult<Value>)
        ensures
            result == Ok::<Value, crate::error::ServerError>(Value::Raw(self.text())),
            result matches Ok(value) && value.raw_text() == Some(self@),
    {
        Ok(Value::Raw(self.0.clone()))
    }
}

} // verus!
