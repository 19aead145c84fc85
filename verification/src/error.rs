//! The errors of parsing input values and of resolving fields.

use std::marker::PhantomData;
use vstd::prelude::*;

verus! {

/// What an error of parsing tells: its message, and the path to the place
/// in the input where the refused value stands.
pub struct Refusal {
    /// The message.
    pub message: Seq<char>,
    /// The path, from the outermost segment to the innermost.
    pub path: Seq<Seq<char>>,
}

/// Why a value was refused as input for the type `T`.
#[derive(Debug)]
pub struct InputValueError<T> {
    message: String,
    path: Vec<String>,
    phantom: PhantomData<T>,
}

impl<T> View for InputValueError<T> {
    type V = Refusal;

    /// The message and the path of the error.
    closed spec fn view(&self) -> Refusal {
        Refusal {
            message: self.message@,
            path: Seq::new(self.path@.len(), |i: int| self.path@[i]@),
        }
    }
}

impl<T> InputValueError<T> {
    /// An error with the message `message`, at the root of the input.
    pub fn custom(message: String) -> (error: Self)
        ensures
            error@ == (Refusal { message: message@, path: Seq::empty() }),
    {
        let error = InputValueError { message, path: Vec::new(), phantom: PhantomData };
        assert(error@.path =~= Seq::<Seq<char>>::empty());
        error
    }

    /// The same error, one level further in: `segment` is put before the
    /// path.
    pub fn nested(self, segment: String) -> (error: Self)
        ensures
            error@ == (Refusal { message: self@.message, path: seq![segment@] + self@.path }),
    {
        let mut path = self.path;
        path.insert(0, segment);
        let error = InputValueError { message: self.message, path, phantom: PhantomData };
        assert(error@.path =~= seq![segment@] + self@.path);
        error
    }

    /// The message of the error.
    pub fn message(&self) -> (message: &String)
        ensures
            message@ == self@.message,
    {
        &self.message
    }

    /// The path of the error.
    pub fn path(&self) -> (path: &Vec<String>)
        ensures
            path@.len() == self@.path.len(),
            forall|i: int| 0 <= i < path@.len() ==> (#[trigger] path@[i])@ == self@.path[i],
    {
        &self.path
    }

    /// Takes the message out of the error.
    pub fn into_message(self) -> (message: String)
        ensures
            message@ == self@.message,
    {
        self.message
    }

    /// The same error, raised for a type `U` that stands for `T`: the
    /// message and the path are kept as they are.
    pub fn propagate<U>(self) -> (error: InputValueError<U>)
        ensures
            error@ == self@,
    {
        InputValueError { message: self.message, path: self.path, phantom: PhantomData }
    }
}

/// What parsing an input value for the type `T` gives.
pub type InputValueResult<T> = Result<T, InputValueError<T>>;

/// An error that a query ended with.
#[derive(Debug, PartialEq, Eq)]
pub struct ServerError {
    /// What went wrong.
    pub message: String,
}

impl ServerError {
    /// An error with the message `message`.
    pub fn new(message: String) -> (error: Self)
        ensures
            error.message == message,
    {
        ServerError { message }
    }
}

/// What resolving a field gives.
pub type ServerResult<T> = Result<T, ServerError>;

} // verus!
