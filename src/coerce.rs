use vstd::prelude::*;
use vstd::string::StringExecFns;
use vstd::string::to_string_from_display_ensures;
use std::fmt::Display;
use crate::decimal::{decimal_string, decimal_text};

verus! {

/// What an input value was when it was neither text nor a value of the
/// expected native kind.
#[derive(Clone, Copy, Debug, PartialEq, Eq)]
pub enum Shape {
    Boolean,
    Null,
    Integer,
    Float,
    List,
    Object,
    Other,
}

/// An input value as the reader found it: text, a native value of kind `N`,
/// or something that is neither (recorded by its shape).
#[derive(Debug)]
pub enum Classified<N> {
    AsString(String),
    AsNumber(N),
    Unmatched(Shape),
}

/// Why a coercion failed.
#[derive(Debug, PartialEq, Eq)]
pub enum CoerceError {
    /// The input was neither text nor a value of the expected kind.
    StructuralMismatch(String),
    /// The input was text that the target type could not parse; the message is
    /// the parser's own.
    ParseFailure(String),
}

/// How a shape is named in a mismatch message.
pub open spec fn shape_name(shape: Shape) -> Seq<char> {
    match shape {
        Shape::Boolean => "a boolean"@,
        Shape::Null => "null"@,
        Shape::Integer => "an integer"@,
        Shape::Float => "a floating point number"@,
        Shape::List => "a sequence"@,
        Shape::Object => "a map"@,
        Shape::Other => "an unsupported value"@,
    }
}

/// The message of a structural mismatch on an input of the given shape.
pub open spec fn mismatch_message(shape: Shape) -> Seq<char> {
    "invalid type: "@ + shape_name(shape) + ", expected a string or a number"@
}

/// `e` reports a structural mismatch on an input of the given shape.
pub open spec fn is_mismatch(e: CoerceError, shape: Shape) -> bool {
    e matches CoerceError::StructuralMismatch(m) && m@ == mismatch_message(shape)
}

fn shape_str(shape: Shape) -> (r: &'static str)
    ensures
        r@ == shape_name(shape),
{
    match shape {
        Shape::Boolean => "a boolean",
        Shape::Null => "null",
        Shape::Integer => "an integer",
        Shape::Float => "a floating point number",
        Shape::List => "a sequence",
        Shape::Object => "a map",
        Shape::Other => "an unsupported value",
    }
}

/// The structural-mismatch error for an input of the given shape.
pub fn structural_mismatch(shape: Shape) -> (e: CoerceError)
    ensures
        is_mismatch(e, shape),
{
    let mut m = String::new();
    m.append("invalid type: ");
    m.append(shape_str(shape));
    m.append(", expected a string or a number");
    CoerceError::StructuralMismatch(m)
}

/// `r` is what the coercion returns when parsing the text gave `parsed`: the
/// parsed value itself, or a parse failure whose message is the display text
/// of the parser's error.
pub open spec fn outcome_of<T, E: Display>(parsed: Result<T, E>, r: Result<T, CoerceError>) -> bool {
    match parsed {
        Ok(v) => r == Ok::<T, CoerceError>(v),
        Err(e) => r matches Err(CoerceError::ParseFailure(m)) && to_string_from_display_ensures::<E>(&e, m),
    }
}

/// Turns the outcome of parsing text into the coercion's result: a parsed
/// value is returned as it is, and a parse error becomes a parse failure
/// that carries the error's own message.
pub fn parse_outcome<T, E: Display>(parsed: Result<T, E>) -> (r: Result<T, CoerceError>)
    ensures
        outcome_of(parsed, r),
{
    match parsed {
        Ok(v) => Ok(v),
        Err(e) => Err(CoerceError::ParseFailure(e.to_string())),
    }
}

/// Coerces text or an integer into text: text is returned unchanged, and an
/// integer becomes its canonical decimal text.
pub fn deserialize_string_from_number(input: Classified<i64>) -> (r: Result<String, CoerceError>)
    ensures
        match input {
            Classified::AsString(s) => r == Ok::<String, CoerceError>(s),
            Classified::AsNumber(n) => r matches Ok(t) && t@ == decimal_text(n as int),
            Classified::Unmatched(shape) => r matches Err(e) && is_mismatch(e, shape),
        },
{
    match input {
        Classified::AsString(s) => Ok(s),
        Classified::AsNumber(n) => Ok(decimal_string(n)),
        Classified::Unmatched(shape) => Err(structural_mismatch(shape)),
    }
}

/// Coerces text or a native value into a `T`: a native value is returned
/// unchanged, and text is handed to `parse` (the target type's text parser),
/// whose error becomes a parse failure carrying that error's message.
pub fn deserialize_number_from_string<T, E: Display, F: FnOnce(String) -> Result<T, E>>(
    input: Classified<T>,
    parse: F,
) -> (r: Result<T, CoerceError>)
    requires
        input matches Classified::AsString(s) ==> parse.requires((s,)),
    ensures
        match input {
            Classified::AsString(s) => exists|parsed: Result<T, E>|
                parse.ensures((s,), parsed) && #[trigger] outcome_of(parsed, r),
            Classified::AsNumber(v) => r == Ok::<T, CoerceError>(v),
            Classified::Unmatched(shape) => r matches Err(e) && is_mismatch(e, shape),
        },
{
    match input {
        Classified::AsString(s) => parse_outcome(parse(s)),
        Classified::AsNumber(v) => Ok(v),
        Classified::Unmatched(shape) => Err(structural_mismatch(shape)),
    }
}

} // verus!
