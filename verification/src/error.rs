//! The closed taxonomy of evaluation errors, and its mathematical model.

use vstd::prelude::*;

verus! {

/// Mathematical model of an evaluation error: texts become character
/// sequences, raw identifier bytes stay bytes.
pub enum SpecErrorKind {
    UndefinedFunction,
    VariableNotDefined(Seq<char>),
    DivisionByZero,
    NumberOverflow,
    NumberUnderflow,
    Generic(Seq<char>),
    InvalidExpression,
    UndefinedVariable(Seq<char>),
    InvalidIdentifier(Seq<u8>),
    EmptyStatement,
    InvalidVariable,
    NoStackFrame,
    UnimplementedNode(Seq<char>),
    TypeError,
}

/// A classified evaluation error, produced at the point of failure and
/// propagated unchanged to the top-level caller.
///
/// `InvalidIdentifier` carries the raw bytes of the name that was not valid
/// text.
#[derive(Debug, PartialEq)]
pub enum AsaErrorKind {
    UndefinedFunction,
    VariableNotDefined(String),
    DivisionByZero,
    NumberOverflow,
    NumberUnderflow,
    Generic(String),
    InvalidExpression,
    UndefinedVariable(String),
    InvalidIdentifier(Vec<u8>),
    EmptyStatement,
    InvalidVariable,
    NoStackFrame,
    UnimplementedNode(String),
    TypeError,
}

impl View for AsaErrorKind {
    type V = SpecErrorKind;

    open spec fn view(&self) -> SpecErrorKind {
        match self {
            AsaErrorKind::UndefinedFunction => SpecErrorKind::UndefinedFunction,
            AsaErrorKind::VariableNotDefined(s) => SpecErrorKind::VariableNotDefined(s@),
            AsaErrorKind::DivisionByZero => SpecErrorKind::DivisionByZero,
            AsaErrorKind::NumberOverflow => SpecErrorKind::NumberOverflow,
            AsaErrorKind::NumberUnderflow => SpecErrorKind::NumberUnderflow,
            AsaErrorKind::Generic(s) => SpecErrorKind::Generic(s@),
            AsaErrorKind::InvalidExpression => SpecErrorKind::InvalidExpression,
            AsaErrorKind::UndefinedVariable(s) => SpecErrorKind::UndefinedVariable(s@),
            AsaErrorKind::InvalidIdentifier(b) => SpecErrorKind::InvalidIdentifier(b@),
            AsaErrorKind::EmptyStatement => SpecErrorKind::EmptyStatement,
            AsaErrorKind::InvalidVariable => SpecErrorKind::InvalidVariable,
            AsaErrorKind::NoStackFrame => SpecErrorKind::NoStackFrame,
            AsaErrorKind::UnimplementedNode(s) => SpecErrorKind::UnimplementedNode(s@),
            AsaErrorKind::TypeError => SpecErrorKind::TypeError,
        }
    }
}

} // verus!
