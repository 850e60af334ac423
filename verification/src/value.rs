//! The tagged runtime value produced by evaluation, and its mathematical model.

use vstd::prelude::*;

verus! {

/// Mathematical model of a runtime value: a number is an unbounded integer,
/// a text is a sequence of characters, a boolean is itself.
pub enum SpecValue {
    String(Seq<char>),
    Number(int),
    Bool(bool),
}

/// The tagged runtime result of evaluating a node. Values are immutable once
/// produced: operators that receive an unsupported combination of variants
/// fail rather than coerce.
#[derive(Debug, PartialEq)]
pub enum Value {
    String(String),
    Number(i32),
    Bool(bool),
}

impl View for Value {
    type V = SpecValue;

    open spec fn view(&self) -> SpecValue {
        match self {
            Value::String(s) => SpecValue::String(s@),
            Value::Number(n) => SpecValue::Number(*n as int),
            Value::Bool(b) => SpecValue::Bool(*b),
        }
    }
}

impl Clone for Value {
    fn clone(&self) -> (r: Value)
        ensures
            r@ == self@,
    {
        match self {
            Value::String(s) => Value::String(s.clone()),
            Value::Number(n) => Value::Number(*n),
            Value::Bool(b) => Value::Bool(*b),
        }
    }
}

} // verus!
