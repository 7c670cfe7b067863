//! What can go wrong while a player's attributes are read.

use vstd::prelude::*;

use crate::value::ValueKind;

verus! {

/// What a field accepts from the bus.
#[derive(Clone, Copy, Debug, PartialEq, Eq, Structural)]
pub enum Expected {
    /// A boolean.
    Bool,
    /// A signed 32-bit integer.
    Int32,
    /// A 64-bit integer, signed or unsigned.
    Integer64,
    /// A double-precision number.
    Double,
    /// A string.
    Text,
    /// An object path or a string.
    Identifier,
    /// An array of strings.
    TextList,
    /// A dictionary with strings for keys.
    Dictionary,
}

/// Why an attribute map was turned down.
#[derive(Debug, PartialEq, Eq)]
pub enum DecodeError {
    /// A required field, named here, is absent.
    MissingField(String),
    /// The named field holds a value of a type that it does not accept.
    TypeMismatch(String, Expected, ValueKind),
    /// The named enumeration holds no member of its vocabulary. Given second
    /// is the string that it holds, and the empty string where it holds a
    /// value that is no string.
    InvalidEnum(String, String),
}

/// A [`DecodeError`] with its strings as sequences of characters.
pub enum DecodeErrorView {
    MissingField(Seq<char>),
    TypeMismatch(Seq<char>, Expected, ValueKind),
    InvalidEnum(Seq<char>, Seq<char>),
}

impl View for DecodeError {
    type V = DecodeErrorView;

    open spec fn view(&self) -> DecodeErrorView {
        match self {
            DecodeError::MissingField(name) => DecodeErrorView::MissingField(name@),
            DecodeError::TypeMismatch(name, expected, actual) => DecodeErrorView::TypeMismatch(
                name@,
                *expected,
                *actual,
            ),
            DecodeError::InvalidEnum(name, raw) => DecodeErrorView::InvalidEnum(name@, raw@),
        }
    }
}

impl Clone for DecodeError {
    fn clone(&self) -> (copy: DecodeError)
        ensures
            copy@ == self@,
    {
        match self {
            DecodeError::MissingField(name) => DecodeError::MissingField(name.clone()),
            DecodeError::TypeMismatch(name, expected, actual) => DecodeError::TypeMismatch(
                name.clone(),
                *expected,
                *actual,
            ),
            DecodeError::InvalidEnum(name, raw) => DecodeError::InvalidEnum(
                name.clone(),
                raw.clone(),
            ),
        }
    }
}

impl DecodeError {
    /// The error for a required field that is absent.
    pub fn missing(name: &str) -> (e: DecodeError)
        ensures
            e@ == DecodeErrorView::MissingField(name@),
    {
        DecodeError::MissingField(name.to_owned())
    }

    /// The error for a field that holds a value of the wrong type.
    pub fn mismatch(name: &str, expected: Expected, actual: ValueKind) -> (e: DecodeError)
        ensures
            e@ == DecodeErrorView::TypeMismatch(name@, expected, actual),
    {
        DecodeError::TypeMismatch(name.to_owned(), expected, actual)
    }

    /// The error for a field that holds a string outside its vocabulary.
    pub fn invalid(name: &str, raw: &str) -> (e: DecodeError)
        ensures
            e@ == DecodeErrorView::InvalidEnum(name@, raw@),
    {
        DecodeError::InvalidEnum(name.to_owned(), raw.to_owned())
    }

    /// The name of the field that the error is about.
    pub fn field(&self) -> (name: &str)
        ensures
            name@ == match self@ {
                DecodeErrorView::MissingField(n) => n,
                DecodeErrorView::TypeMismatch(n, _, _) => n,
                DecodeErrorView::InvalidEnum(n, _) => n,
            },
    {
        match self {
            DecodeError::MissingField(name) => name.as_str(),
            DecodeError::TypeMismatch(name, _, _) => name.as_str(),
            DecodeError::InvalidEnum(name, _) => name.as_str(),
        }
    }
}

/// Why the registry could not do what was asked.
#[derive(Clone, Copy, Debug, PartialEq, Eq, Structural)]
pub enum RegistryError {
    /// No player is known under the given name.
    NotFound,
}

/// What reading yields, as contracts see it.
pub type Read<T> = Result<T, DecodeErrorView>;

/// The result of reading something, with the value and the error as their
/// mathematical models.
pub open spec fn outcome<T: DeepView>(r: Result<T, DecodeError>) -> Read<T::V> {
    match r {
        Ok(t) => Ok(t.deep_view()),
        Err(e) => Err(e@),
    }
}

} // verus!
