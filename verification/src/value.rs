//! Dynamically typed values, as callers hand them to the gateway and get
//! them back.

use vstd::prelude::*;
use crate::binary64::Binary64;

verus! {

/// `serde_json`'s `Value`, declared so that it can be carried through. The
/// verifier sees nothing inside it.
#[verifier::external_type_specification]
#[verifier::external_body]
pub struct ExJsonValue(serde_json::Value);

/// The compact JSON text of a value, as `serde_json` prints it.
pub uninterp spec fn json_text(value: serde_json::Value) -> Seq<char>;

/// Prints a JSON value with `serde_json`'s `Display` impl, through
/// `to_string`. It is trusted that the text depends on the value alone; the
/// text itself is only named, by [`json_text`].
#[verifier::external_body]
pub(crate) fn render_json(value: &serde_json::Value) -> (text: String)
    ensures
        text@ == json_text(*value),
{
    value.to_string()
}

/// `serde_json`'s derived `Clone` for its `Value`. It is trusted that the
/// copy cannot be told from the value it was made of.
pub assume_specification[ <serde_json::Value as Clone>::clone ](value: &serde_json::Value) -> (copy:
    serde_json::Value)
    ensures
        copy == *value,
;

/// A dynamically typed value.
#[derive(Debug, PartialEq)]
pub enum DynValue {
    /// No value.
    Null,
    Bool(bool),
    /// A 64-bit signed integer.
    Int(i64),
    /// A 64-bit floating-point number.
    Float(Binary64),
    Text(String),
    /// A structured value, an array or an object, that the gateway treats as
    /// nothing but its JSON text.
    Complex(serde_json::Value),
}

/// What a [`DynValue`] stands for. A complex value stands for its text.
#[verifier::ext_equal]
pub enum Dynamic {
    Null,
    Bool(bool),
    Int(i64),
    Float(Binary64),
    Text(Seq<char>),
    Complex(Seq<char>),
}

impl View for DynValue {
    type V = Dynamic;

    open spec fn view(&self) -> Dynamic {
        match *self {
            DynValue::Null => Dynamic::Null,
            DynValue::Bool(b) => Dynamic::Bool(b),
            DynValue::Int(i) => Dynamic::Int(i),
            DynValue::Float(x) => Dynamic::Float(x),
            DynValue::Text(s) => Dynamic::Text(s@),
            DynValue::Complex(j) => Dynamic::Complex(json_text(j)),
        }
    }
}

/// The value of a number that may not fit a 64-bit signed integer: the
/// integer where the number is one, else the float where it can be taken as
/// one, else its text.
pub open spec fn number_value(
    integer: Option<i64>,
    float: Option<Binary64>,
    text: Seq<char>,
) -> Dynamic {
    match integer {
        Some(i) => Dynamic::Int(i),
        None => match float {
            Some(x) => Dynamic::Float(x),
            None => Dynamic::Text(text),
        },
    }
}

impl DynValue {
    /// Makes a value of a number, given what the number answers when asked
    /// for a 64-bit signed integer and for a float, and its text. Exact
    /// integers are kept as integers; a number outside their range becomes a
    /// float.
    pub fn number(integer: Option<i64>, float: Option<Binary64>, text: String) -> (value: DynValue)
        ensures
            value@ == number_value(integer, float, text@),
    {
        match integer {
            Some(i) => DynValue::Int(i),
            None => match float {
                Some(x) => DynValue::Float(x),
                None => DynValue::Text(text),
            },
        }
    }
}

impl Clone for DynValue {
    fn clone(&self) -> (copy: DynValue)
        ensures
            copy == *self,
    {
        match self {
            DynValue::Null => DynValue::Null,
            DynValue::Bool(b) => DynValue::Bool(*b),
            DynValue::Int(i) => DynValue::Int(*i),
            DynValue::Float(x) => DynValue::Float(*x),
            DynValue::Text(s) => DynValue::Text(s.clone()),
            DynValue::Complex(json) => DynValue::Complex(json.clone()),
        }
    }
}

impl DeepView for DynValue {
    type V = Dynamic;

    open spec fn deep_view(&self) -> Dynamic {
        self@
    }
}

} // verus!
