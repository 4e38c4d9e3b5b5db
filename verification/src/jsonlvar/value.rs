//! The value of an entry: what the text behind `=` is taken to be.

use crate::jsonlvar::number::is_float_text;
use crate::strings::chars_of;
use vstd::prelude::*;
use vstd::string::StringExecFns;

verus! {

/// The value of an entry. Each variant keeps the text it was read from.
#[derive(Debug)]
pub enum Value {
    /// The text is a JSON document.
    Structured(String),
    /// The text is no JSON document, but a floating-point number.
    Number(String),
    /// Any other text.
    Text(String),
}

/// What a [`Value`] is in contracts.
pub enum ValueView {
    Structured(Seq<char>),
    Number(Seq<char>),
    Text(Seq<char>),
}

impl View for Value {
    type V = ValueView;

    open spec fn view(&self) -> ValueView {
        match self {
            Value::Structured(t) => ValueView::Structured(t@),
            Value::Number(t) => ValueView::Number(t@),
            Value::Text(t) => ValueView::Text(t@),
        }
    }
}

impl ValueView {
    /// The text the value was read from.
    pub open spec fn text(self) -> Seq<char> {
        match self {
            ValueView::Structured(t) => t,
            ValueView::Number(t) => t,
            ValueView::Text(t) => t,
        }
    }
}

/// Whether `serde_json` reads the text as one JSON document.
pub uninterp spec fn is_json(text: Seq<char>) -> bool;

/// Calls `serde_json::from_str` for a `serde_json::Value` and reports whether
/// it succeeded. The outcome is the named predicate [`is_json`] of the text;
/// nothing else is claimed of it.
#[verifier::external_body]
fn parses_as_json(text: &str) -> (ok: bool)
    ensures
        ok == is_json(text@),
{
    serde_json::from_str::<serde_json::Value>(text).is_ok()
}

/// The value of a text, given whether the text is a JSON document: JSON
/// first, then a number, then plain text.
pub open spec fn classified(text: Seq<char>, json: bool) -> ValueView {
    if json {
        ValueView::Structured(text)
    } else if crate::jsonlvar::number::is_float_literal(text) {
        ValueView::Number(text)
    } else {
        ValueView::Text(text)
    }
}

/// The value of a text.
pub open spec fn value_of(text: Seq<char>) -> ValueView {
    classified(text, is_json(text))
}

impl Value {
    /// The value of `text`, given whether `text` is a JSON document.
    pub fn classify(text: String, json: bool) -> (v: Value)
        ensures
            v@ == classified(text@, json),
    {
        if json {
            Value::Structured(text)
        } else {
            let chars = chars_of(text.as_str());
            if is_float_text(&chars) {
                Value::Number(text)
            } else {
                Value::Text(text)
            }
        }
    }

    /// The value of `text`: a JSON document if `serde_json` reads it as one,
    /// else a number if the whole text is one, else the text itself.
    pub fn interpret(text: String) -> (v: Value)
        ensures
            v@ == value_of(text@),
    {
        let json = parses_as_json(text.as_str());
        Value::classify(text, json)
    }

    /// The text the value was read from.
    pub fn text(&self) -> (t: &str)
        ensures
            t@ == self@.text(),
    {
        match self {
            Value::Structured(t) => t.as_str(),
            Value::Number(t) => t.as_str(),
            Value::Text(t) => t.as_str(),
        }
    }

    pub fn is_structured(&self) -> (b: bool)
        ensures
            b == (self@ is Structured),
    {
        match self {
            Value::Structured(_) => true,
            _ => false,
        }
    }

    pub fn is_number(&self) -> (b: bool)
        ensures
            b == (self@ is Number),
    {
        match self {
            Value::Number(_) => true,
            _ => false,
        }
    }

    pub fn is_text(&self) -> (b: bool)
        ensures
            b == (self@ is Text),
    {
        match self {
            Value::Text(_) => true,
            _ => false,
        }
    }

    /// A copy of the value.
    pub fn duplicate(&self) -> (v: Value)
        ensures
            v@ == self@,
    {
        match self {
            Value::Structured(t) => Value::Structured(String::from_str(t.as_str())),
            Value::Number(t) => Value::Number(String::from_str(t.as_str())),
            Value::Text(t) => Value::Text(String::from_str(t.as_str())),
        }
    }
}

} // verus!
