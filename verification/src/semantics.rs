//! The meaning of every syntax tree node, as one mathematical function.
//!
//! [`eval_node`] takes the model of a node and the model of the frame stack
//! and yields the stack after evaluation together with the result: the model
//! of a value, or the model of an error. Evaluation is fail-fast: the first
//! error aborts the enclosing node and is propagated unchanged.

use crate::error::SpecErrorKind;
use crate::node::{spec_kind_name, SpecNode};
use crate::value::SpecValue;
use vstd::prelude::*;
use vstd::utf8::{decode_utf8, valid_utf8};

verus! {

/// The model of one frame: a map from a variable name to a value.
pub type FrameModel = Map<Seq<char>, SpecValue>;

/// What evaluating a node leaves behind: the frame stack after the walk and
/// the classified result.
pub struct EvalOutcome {
    pub stack: Seq<FrameModel>,
    pub result: Result<SpecValue, SpecErrorKind>,
}

/// Truncating division, as 32-bit signed machine division rounds: toward
/// zero.
pub open spec fn div_toward_zero(x: int, d: int) -> int
    recommends
        d != 0,
{
    if x == 0 {
        0
    } else if x > 0 && d > 0 {
        x / d
    } else if x < 0 && d < 0 {
        (x * -1) / (d * -1)
    } else if x < 0 {
        ((x * -1) / d) * -1
    } else {
        (x / (d * -1)) * -1
    }
}

/// A mathematical result becomes a number when it fits the 32-bit signed
/// range; above it is an overflow, below it an underflow.
pub open spec fn number_in_range(v: int) -> Result<SpecValue, SpecErrorKind> {
    if v > i32::MAX as int {
        Err(SpecErrorKind::NumberOverflow)
    } else if v < i32::MIN as int {
        Err(SpecErrorKind::NumberUnderflow)
    } else {
        Ok(SpecValue::Number(v))
    }
}

/// Applies a binary arithmetic operator to two evaluated operands.
/// Arithmetic is defined on number pairs alone; any other combination of
/// variants, and any operator symbol other than the four listed, is an
/// invalid expression. Division by zero is its own error.
pub open spec fn apply_math(op: Seq<u8>, l: SpecValue, r: SpecValue) -> Result<
    SpecValue,
    SpecErrorKind,
> {
    match (l, r) {
        (SpecValue::Number(a), SpecValue::Number(b)) => {
            if op == seq![43u8] {
                number_in_range(a + b)
            } else if op == seq![45u8] {
                number_in_range(a - b)
            } else if op == seq![42u8] {
                number_in_range(a * b)
            } else if op == seq![47u8] {
                if b == 0 {
                    Err(SpecErrorKind::DivisionByZero)
                } else {
                    number_in_range(div_toward_zero(a, b))
                }
            } else {
                Err(SpecErrorKind::InvalidExpression)
            }
        },
        _ => Err(SpecErrorKind::InvalidExpression),
    }
}

/// True when the two values carry the same variant.
pub open spec fn same_variant(l: SpecValue, r: SpecValue) -> bool {
    match (l, r) {
        (SpecValue::Number(..), SpecValue::Number(..)) => true,
        (SpecValue::String(..), SpecValue::String(..)) => true,
        (SpecValue::Bool(..), SpecValue::Bool(..)) => true,
        _ => false,
    }
}

/// True when `op` is one of the four ordering operator symbols.
pub open spec fn is_ordering_op(op: Seq<u8>) -> bool {
    op == seq![62u8] || op == seq![60u8] || op == seq![62u8, 61u8] || op == seq![60u8, 61u8]
}

/// True when `op` is the equality or the inequality operator symbol.
pub open spec fn is_equality_op(op: Seq<u8>) -> bool {
    op == seq![61u8, 61u8] || op == seq![33u8, 61u8]
}

/// Applies a comparison operator to two evaluated operands. Ordering is
/// defined on number pairs alone; equality and inequality on any pair of the
/// same variant; a variant mismatch under a known operator is a type error,
/// an operator symbol outside the six listed an invalid expression.
pub open spec fn apply_comparison(op: Seq<u8>, l: SpecValue, r: SpecValue) -> Result<
    SpecValue,
    SpecErrorKind,
> {
    if is_ordering_op(op) {
        match (l, r) {
            (SpecValue::Number(a), SpecValue::Number(b)) => {
                if op == seq![62u8] {
                    Ok(SpecValue::Bool(a > b))
                } else if op == seq![60u8] {
                    Ok(SpecValue::Bool(a < b))
                } else if op == seq![62u8, 61u8] {
                    Ok(SpecValue::Bool(a >= b))
                } else {
                    Ok(SpecValue::Bool(a <= b))
                }
            },
            _ => Err(SpecErrorKind::TypeError),
        }
    } else if is_equality_op(op) {
        if same_variant(l, r) {
            if op == seq![61u8, 61u8] {
                Ok(SpecValue::Bool(l == r))
            } else {
                Ok(SpecValue::Bool(l != r))
            }
        } else {
            Err(SpecErrorKind::TypeError)
        }
    } else {
        Err(SpecErrorKind::InvalidExpression)
    }
}

/// Looks a name up in the top frame of the stack: the value bound there, or
/// an undefined-variable error carrying the name. No frame below the top is
/// searched; an empty stack holds no binding at all.
pub open spec fn lookup_model(stack: Seq<FrameModel>, name: Seq<char>) -> Result<
    SpecValue,
    SpecErrorKind,
> {
    if stack.len() > 0 && stack.last().contains_key(name) {
        Ok(stack.last()[name])
    } else {
        Err(SpecErrorKind::UndefinedVariable(name))
    }
}

/// Binds a name in the top frame of the stack, overwriting an earlier
/// binding for it there.
pub open spec fn define_model(stack: Seq<FrameModel>, name: Seq<char>, value: SpecValue) -> Seq<
    FrameModel,
>
    recommends
        stack.len() > 0,
{
    stack.update(stack.len() - 1, stack.last().insert(name, value))
}

/// True when a node's kind may stand directly under a Program node.
pub open spec fn is_program_child(n: SpecNode) -> bool {
    match n {
        SpecNode::Expression(..) => true,
        SpecNode::VariableDefine(..) => true,
        SpecNode::String(..) => true,
        SpecNode::Number(..) => true,
        SpecNode::Bool(..) => true,
        _ => false,
    }
}

/// The meaning of a node: the frame stack after evaluating it, and the value
/// produced or the first error met.
///
/// A Program node evaluates its children in order against the same scope and
/// yields the last child's value, `Bool(true)` when it has no children; it
/// pushes a root frame first when the stack is empty, and that frame stays,
/// so that bindings survive the call. Wrapper nodes forward their first
/// child; compound nodes evaluate the left child before the right and apply
/// the operator only after both succeed.
pub open spec fn eval_node(n: SpecNode, stack: Seq<FrameModel>) -> EvalOutcome
    decreases n,
{
    match n {
        SpecNode::Number(v) => EvalOutcome { stack, result: Ok(SpecValue::Number(v)) },
        SpecNode::String(s) => EvalOutcome { stack, result: Ok(SpecValue::String(s)) },
        SpecNode::Bool(b) => EvalOutcome { stack, result: Ok(SpecValue::Bool(b)) },
        SpecNode::Expression(children) => {
            if children.len() == 0 {
                EvalOutcome { stack, result: Err(SpecErrorKind::InvalidExpression) }
            } else {
                eval_node(children[0], stack)
            }
        },
        SpecNode::Statement(children) => {
            if children.len() == 0 {
                EvalOutcome { stack, result: Err(SpecErrorKind::EmptyStatement) }
            } else {
                eval_node(children[0], stack)
            }
        },
        SpecNode::Identifier(bytes) => {
            if !valid_utf8(bytes) {
                EvalOutcome { stack, result: Err(SpecErrorKind::InvalidIdentifier(bytes)) }
            } else {
                EvalOutcome { stack, result: lookup_model(stack, decode_utf8(bytes)) }
            }
        },
        SpecNode::VariableDefine(children) => {
            if children.len() != 2 {
                EvalOutcome { stack, result: Err(SpecErrorKind::InvalidVariable) }
            } else {
                match children[0] {
                    SpecNode::Identifier(bytes) => {
                        if !valid_utf8(bytes) {
                            EvalOutcome {
                                stack,
                                result: Err(SpecErrorKind::InvalidIdentifier(bytes)),
                            }
                        } else {
                            let o = eval_node(children[1], stack);
                            match o.result {
                                Err(e) => o,
                                Ok(v) => {
                                    if o.stack.len() == 0 {
                                        EvalOutcome {
                                            stack: o.stack,
                                            result: Err(SpecErrorKind::NoStackFrame),
                                        }
                                    } else {
                                        EvalOutcome {
                                            stack: define_model(o.stack, decode_utf8(bytes), v),
                                            result: Ok(v),
                                        }
                                    }
                                },
                            }
                        }
                    },
                    _ => EvalOutcome { stack, result: Err(SpecErrorKind::InvalidVariable) },
                }
            }
        },
        SpecNode::MathExpression(op, children) => {
            if children.len() != 2 {
                EvalOutcome { stack, result: Err(SpecErrorKind::InvalidExpression) }
            } else {
                let lo = eval_node(children[0], stack);
                match lo.result {
                    Err(e) => lo,
                    Ok(lv) => {
                        let ro = eval_node(children[1], lo.stack);
                        match ro.result {
                            Err(e) => ro,
                            Ok(rv) => EvalOutcome {
                                stack: ro.stack,
                                result: apply_math(op, lv, rv),
                            },
                        }
                    },
                }
            }
        },
        SpecNode::ConditionalExpression(op, children) => {
            if children.len() != 2 {
                EvalOutcome { stack, result: Err(SpecErrorKind::InvalidExpression) }
            } else {
                let lo = eval_node(children[0], stack);
                match lo.result {
                    Err(e) => lo,
                    Ok(lv) => {
                        let ro = eval_node(children[1], lo.stack);
                        match ro.result {
                            Err(e) => ro,
                            Ok(rv) => EvalOutcome {
                                stack: ro.stack,
                                result: apply_comparison(op, lv, rv),
                            },
                        }
                    },
                }
            }
        },
        SpecNode::Program(children) => {
            let stack1 = if stack.len() == 0 {
                stack.push(Map::empty())
            } else {
                stack
            };
            eval_program_children(children, stack1, SpecValue::Bool(true))
        },
        _ => EvalOutcome { stack, result: Err(SpecErrorKind::UnimplementedNode(spec_kind_name(n))) },
    }
}

/// Evaluates the children of a Program node in order, each against the stack
/// the previous one left, carrying the value evaluated last. The first
/// error, or the first child of a kind a Program does not admit, stops the
/// walk.
pub open spec fn eval_program_children(
    cs: Seq<SpecNode>,
    stack: Seq<FrameModel>,
    last: SpecValue,
) -> EvalOutcome
    decreases cs,
{
    if cs.len() == 0 {
        EvalOutcome { stack, result: Ok(last) }
    } else if !is_program_child(cs[0]) {
        EvalOutcome { stack, result: Err(SpecErrorKind::UnimplementedNode(spec_kind_name(cs[0]))) }
    } else {
        let o = eval_node(cs[0], stack);
        match o.result {
            Err(e) => o,
            Ok(v) => eval_program_children(cs.drop_first(), o.stack, v),
        }
    }
}

} // verus!
