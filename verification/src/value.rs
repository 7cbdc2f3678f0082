//! Typed leaf values and the coercion chain that reads them from text.

use vstd::prelude::*;
use crate::text::{float_text, is_float_text, parse_i64, parsed_i64};
use crate::xml::str_eq;

verus! {

/// A typed scalar read from leaf text. Exactly one variant is produced for a
/// given text, by the ordered chain [`coerced`]: a 64-bit integer first,
/// then a floating-point literal, then the exact literals `true` / `false`
/// (case-sensitive, untrimmed), else the text itself, verbatim.
///
/// A floating-point value keeps its lexeme, the digits as they stood in the
/// document; the host boundary, not this library, turns it into a binary
/// float.
#[derive(Debug, Clone, PartialEq, Eq)]
pub enum Value {
    Int(i64),
    Float(String),
    Text(String),
    Bool(bool),
}

/// The mathematical shape of a [`Value`].
pub enum ValueView {
    Int(int),
    Float(Seq<char>),
    Text(Seq<char>),
    Bool(bool),
}

impl DeepView for Value {
    type V = ValueView;

    open spec fn deep_view(&self) -> ValueView {
        match self {
            Value::Int(v) => ValueView::Int(*v as int),
            Value::Float(s) => ValueView::Float(s@),
            Value::Text(s) => ValueView::Text(s@),
            Value::Bool(b) => ValueView::Bool(*b),
        }
    }
}

/// The value the coercion chain assigns to `t`. The order is part of the
/// meaning: `1` is an integer, never a boolean; `1.0` is a float, never an
/// integer.
pub open spec fn coerced(t: Seq<char>) -> ValueView {
    if parsed_i64(t) is Some {
        ValueView::Int(parsed_i64(t)->Some_0)
    } else if is_float_text(t) {
        ValueView::Float(t)
    } else if t == "true"@ {
        ValueView::Bool(true)
    } else if t == "false"@ {
        ValueView::Bool(false)
    } else {
        ValueView::Text(t)
    }
}

/// The coercion chain is ordered and exclusive: an integer text is an
/// integer and nothing else, a non-integer float text a float, the two bare
/// boolean literals booleans only when no number claimed them, and all
/// remaining text is itself. Exactly one variant is produced for any input.
pub proof fn lemma_coercion_precedence(t: Seq<char>)
    ensures
        parsed_i64(t) is Some ==> coerced(t) == ValueView::Int(parsed_i64(t)->Some_0),
        parsed_i64(t) is None && is_float_text(t) ==> coerced(t) == ValueView::Float(t),
        parsed_i64(t) is None && !is_float_text(t) && t == "true"@ ==> coerced(t)
            == ValueView::Bool(true),
        parsed_i64(t) is None && !is_float_text(t) && t == "false"@ ==> coerced(t)
            == ValueView::Bool(false),
        parsed_i64(t) is None && !is_float_text(t) && t != "true"@ && t != "false"@ ==> coerced(t)
            == ValueView::Text(t),
{
    reveal_strlit("true");
    reveal_strlit("false");
}

/// Reads leaf text through the coercion chain, as [`coerced`] says.
pub fn parse_value(value: String) -> (r: Value)
    ensures
        r.deep_view() == coerced(value@),
{
    match parse_i64(value.as_str()) {
        Some(v) => Value::Int(v),
        None => {
            if float_text(value.as_str()) {
                Value::Float(value)
            } else if str_eq(value.as_str(), "true") {
                Value::Bool(true)
            } else if str_eq(value.as_str(), "false") {
                Value::Bool(false)
            } else {
                Value::Text(value)
            }
        },
    }
}

} // verus!
