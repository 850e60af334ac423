//! General properties of the evaluation semantics, stated and proved once.

use crate::error::SpecErrorKind;
use crate::node::SpecNode;
use crate::semantics::{
    apply_comparison, apply_math, define_model, eval_node, is_equality_op, is_ordering_op,
    lookup_model, same_variant, EvalOutcome, FrameModel,
};
use crate::value::SpecValue;
use vstd::prelude::*;

verus! {

/// The literal node that carries a given value.
pub open spec fn literal_node(v: SpecValue) -> SpecNode {
    match v {
        SpecValue::Number(a) => SpecNode::Number(a),
        SpecValue::String(s) => SpecNode::String(s),
        SpecValue::Bool(b) => SpecNode::Bool(b),
    }
}

/// Evaluating an arithmetic node over two literal operands is exactly
/// `apply_math` on their values; the frame stack is left unchanged.
pub proof fn lemma_math_of_literals(
    op: Seq<u8>,
    l: SpecValue,
    r: SpecValue,
    stack: Seq<FrameModel>,
)
    ensures
        eval_node(SpecNode::MathExpression(op, seq![literal_node(l), literal_node(r)]), stack)
            == (EvalOutcome { stack, result: apply_math(op, l, r) }),
{
    reveal_with_fuel(eval_node, 2);
}

/// Evaluating a comparison node over two literal operands is exactly
/// `apply_comparison` on their values; the frame stack is left unchanged.
pub proof fn lemma_comparison_of_literals(
    op: Seq<u8>,
    l: SpecValue,
    r: SpecValue,
    stack: Seq<FrameModel>,
)
    ensures
        eval_node(
            SpecNode::ConditionalExpression(op, seq![literal_node(l), literal_node(r)]),
            stack,
        ) == (EvalOutcome { stack, result: apply_comparison(op, l, r) }),
{
    reveal_with_fuel(eval_node, 2);
}

/// Evaluating a number literal yields exactly that number and leaves the
/// frame stack unchanged.
pub proof fn lemma_number_literal(v: int, stack: Seq<FrameModel>)
    ensures
        eval_node(SpecNode::Number(v), stack) == (EvalOutcome {
            stack,
            result: Ok::<SpecValue, SpecErrorKind>(SpecValue::Number(v)),
        }),
{
}

/// Evaluating a text literal yields exactly that text and leaves the frame
/// stack unchanged.
pub proof fn lemma_string_literal(s: Seq<char>, stack: Seq<FrameModel>)
    ensures
        eval_node(SpecNode::String(s), stack) == (EvalOutcome {
            stack,
            result: Ok::<SpecValue, SpecErrorKind>(SpecValue::String(s)),
        }),
{
}

/// Evaluating a boolean literal yields exactly that boolean and leaves the
/// frame stack unchanged.
pub proof fn lemma_bool_literal(b: bool, stack: Seq<FrameModel>)
    ensures
        eval_node(SpecNode::Bool(b), stack) == (EvalOutcome {
            stack,
            result: Ok::<SpecValue, SpecErrorKind>(SpecValue::Bool(b)),
        }),
{
}

/// Dividing any number by a number literal zero is the division-by-zero
/// error, whatever the left operand and the frame stack.
pub proof fn lemma_division_by_zero(a: int, b: int, stack: Seq<FrameModel>)
    requires
        b == 0,
    ensures
        eval_node(
            SpecNode::MathExpression(seq![47u8], seq![SpecNode::Number(a), SpecNode::Number(b)]),
            stack,
        ) == (EvalOutcome {
            stack,
            result: Err::<SpecValue, SpecErrorKind>(SpecErrorKind::DivisionByZero),
        }),
{
    reveal_with_fuel(eval_node, 3);
    let cs = seq![SpecNode::Number(a), SpecNode::Number(b)];
    assert(cs.len() == 2);
    assert(seq![47u8] != seq![43u8] && seq![47u8] != seq![45u8] && seq![47u8] != seq![42u8]) by {
        assert(seq![47u8][0] == 47u8 && seq![43u8][0] == 43u8 && seq![45u8][0] == 45u8
            && seq![42u8][0] == 42u8);
    }
}

/// Redefining a name in the active frame overwrites the earlier binding and
/// raises no error: defining a name twice is defining it once, with the
/// later value, and looking the name up afterwards yields that value.
pub proof fn lemma_redefinition_overwrites(
    stack: Seq<FrameModel>,
    name: Seq<char>,
    v1: SpecValue,
    v2: SpecValue,
)
    requires
        stack.len() > 0,
    ensures
        define_model(define_model(stack, name, v1), name, v2) == define_model(stack, name, v2),
        lookup_model(define_model(define_model(stack, name, v1), name, v2), name) == Ok::<
            SpecValue,
            SpecErrorKind,
        >(v2),
{
    let once = define_model(stack, name, v2);
    let twice = define_model(define_model(stack, name, v1), name, v2);
    assert(twice.last() =~= once.last());
    assert(twice =~= once);
}

/// Equality and inequality are defined only within a variant: operands of
/// the same variant compare by their contents, and a variant mismatch is a
/// type error.
pub proof fn lemma_equality_variant_homogeneous(op: Seq<u8>, l: SpecValue, r: SpecValue)
    requires
        is_equality_op(op),
    ensures
        same_variant(l, r) && op == seq![61u8, 61u8] ==> apply_comparison(op, l, r) == Ok::<
            SpecValue,
            SpecErrorKind,
        >(SpecValue::Bool(l == r)),
        same_variant(l, r) && op == seq![33u8, 61u8] ==> apply_comparison(op, l, r) == Ok::<
            SpecValue,
            SpecErrorKind,
        >(SpecValue::Bool(l != r)),
        !same_variant(l, r) ==> apply_comparison(op, l, r) == Err::<SpecValue, SpecErrorKind>(
            SpecErrorKind::TypeError,
        ),
{
    assert(!is_ordering_op(op)) by {
        assert(seq![61u8, 61u8][0] == 61u8 && seq![33u8, 61u8][0] == 33u8);
        assert(seq![62u8][0] == 62u8 && seq![60u8][0] == 60u8);
        assert(seq![62u8, 61u8][0] == 62u8 && seq![60u8, 61u8][0] == 60u8);
    }
    assert(op == seq![61u8, 61u8] || op == seq![33u8, 61u8]);
    if op == seq![33u8, 61u8] {
        assert(op != seq![61u8, 61u8]) by {
            assert(seq![61u8, 61u8][0] == 61u8 && seq![33u8, 61u8][0] == 33u8);
        }
    }
}

/// Ordering operators are defined on numbers only: on two numbers they
/// yield a boolean, on any other combination of variants a type error.
pub proof fn lemma_ordering_number_only(op: Seq<u8>, l: SpecValue, r: SpecValue)
    requires
        is_ordering_op(op),
    ensures
        (l matches SpecValue::Number(..)) && (r matches SpecValue::Number(..))
            ==> (apply_comparison(op, l, r) matches Ok(SpecValue::Bool(..))),
        !((l matches SpecValue::Number(..)) && (r matches SpecValue::Number(..)))
            ==> apply_comparison(op, l, r) == Err::<SpecValue, SpecErrorKind>(
            SpecErrorKind::TypeError,
        ),
{
}

} // verus!
