//! The tree-walking evaluator and its frame stack.

use crate::error::{AsaErrorKind, SpecErrorKind};
use crate::frame::Frame;
use crate::node::{kind_name, lemma_nodes_view, nodes_view, Node};
use crate::semantics::{
    apply_comparison, apply_math, define_model, div_toward_zero, eval_node, eval_program_children,
    is_program_child, lookup_model, FrameModel,
};
use crate::value::{SpecValue, Value};
use vstd::arithmetic::div_mod::{lemma_div_nonincreasing, lemma_div_pos_is_pos};
use vstd::prelude::*;
use vstd::utf8::{decode_utf8, valid_utf8};

verus! {

/// The model of an evaluation result: views on both sides.
pub open spec fn result_view(r: Result<Value, AsaErrorKind>) -> Result<SpecValue, SpecErrorKind> {
    match r {
        Ok(v) => Ok(v@),
        Err(e) => Err(e@),
    }
}

/// Relies on std's `String::from_utf8`: it succeeds exactly on the byte
/// sequences that vstd's UTF-8 model accepts as valid, and returns their
/// decoding.
#[verifier::external_body]
fn bytes_to_text(bytes: &Vec<u8>) -> (r: Option<String>)
    ensures
        (match r {
            Some(s) => valid_utf8(bytes@) && s@ == decode_utf8(bytes@),
            None => !valid_utf8(bytes@),
        }),
{
    match String::from_utf8(bytes.clone()) {
        Ok(s) => Some(s),
        Err(_) => None,
    }
}

/// A fresh copy of a byte sequence.
fn copy_bytes(v: &Vec<u8>) -> (r: Vec<u8>)
    ensures
        r@ == v@,
{
    let mut r: Vec<u8> = Vec::new();
    let mut i: usize = 0;
    while i < v.len()
        invariant
            i <= v.len(),
            r@ =~= v@.subrange(0, i as int),
        decreases v.len() - i,
    {
        r.push(v[i]);
        i = i + 1;
    }
    proof {
        assert(r@ =~= v@);
    }
    r
}

/// True when the operator symbol is the single byte `c`.
fn is_op1(op: &Vec<u8>, c: u8) -> (r: bool)
    ensures
        r == (op@ == seq![c]),
{
    let r = op.len() == 1 && op[0] == c;
    proof {
        if op@.len() == 1 && op@[0] == c {
            assert(op@ =~= seq![c]);
        }
    }
    r
}

/// True when the operator symbol is the two bytes `c0`, `c1`.
fn is_op2(op: &Vec<u8>, c0: u8, c1: u8) -> (r: bool)
    ensures
        r == (op@ == seq![c0, c1]),
{
    let r = op.len() == 2 && op[0] == c0 && op[1] == c1;
    proof {
        if op@.len() == 2 && op@[0] == c0 && op@[1] == c1 {
            assert(op@ =~= seq![c0, c1]);
        }
    }
    r
}

/// Truncating division of 32-bit values never falls below the 32-bit
/// minimum: only `i32::MIN / -1` leaves the range, and it leaves it upward.
proof fn lemma_div_toward_zero_lower_bound(x: int, d: int)
    requires
        i32::MIN as int <= x <= i32::MAX as int,
        i32::MIN as int <= d <= i32::MAX as int,
        d != 0,
    ensures
        div_toward_zero(x, d) >= i32::MIN as int,
{
    if x == 0 {
    } else if x > 0 && d > 0 {
        lemma_div_pos_is_pos(x, d);
    } else if x < 0 && d < 0 {
        lemma_div_pos_is_pos(x * -1, d * -1);
    } else if x < 0 {
        lemma_div_pos_is_pos(x * -1, d);
        lemma_div_nonincreasing(x * -1, d);
    } else {
        lemma_div_pos_is_pos(x, d * -1);
        lemma_div_nonincreasing(x, d * -1);
    }
}

/// Applies a binary arithmetic operator to two evaluated operands, with
/// checked 32-bit arithmetic.
fn apply_math_exec(op: &Vec<u8>, l: Value, r: Value) -> (res: Result<Value, AsaErrorKind>)
    ensures
        result_view(res) == apply_math(op@, l@, r@),
{
    match (l, r) {
        (Value::Number(a), Value::Number(b)) => {
            if is_op1(op, 43) {  // +
                let s: i64 = a as i64 + b as i64;
                if s > i32::MAX as i64 {
                    Err(AsaErrorKind::NumberOverflow)
                } else if s < i32::MIN as i64 {
                    Err(AsaErrorKind::NumberUnderflow)
                } else {
                    Ok(Value::Number(s as i32))
                }
            } else if is_op1(op, 45) {  // -
                let s: i64 = a as i64 - b as i64;
                if s > i32::MAX as i64 {
                    Err(AsaErrorKind::NumberOverflow)
                } else if s < i32::MIN as i64 {
                    Err(AsaErrorKind::NumberUnderflow)
                } else {
                    Ok(Value::Number(s as i32))
                }
            } else if is_op1(op, 42) {  // *
                proof {
                    assert((a as int) * (b as int) <= 0x4000_0000_0000_0000
                        && (a as int) * (b as int) >= -0x4000_0000_0000_0000) by (nonlinear_arith)
                        requires
                            i32::MIN as int <= a as int <= i32::MAX as int,
                            i32::MIN as int <= b as int <= i32::MAX as int,
                    ;
                }
                let s: i64 = a as i64 * b as i64;
                if s > i32::MAX as i64 {
                    Err(AsaErrorKind::NumberOverflow)
                } else if s < i32::MIN as i64 {
                    Err(AsaErrorKind::NumberUnderflow)
                } else {
                    Ok(Value::Number(s as i32))
                }
            } else if is_op1(op, 47) {  // /
                if b == 0 {
                    Err(AsaErrorKind::DivisionByZero)
                } else {
                    match a.checked_div(b) {
                        Some(q) => Ok(Value::Number(q)),
                        None => {
                            proof {
                                lemma_div_toward_zero_lower_bound(a as int, b as int);
                            }
                            Err(AsaErrorKind::NumberOverflow)
                        },
                    }
                }
            } else {
                Err(AsaErrorKind::InvalidExpression)
            }
        },
        _ => Err(AsaErrorKind::InvalidExpression),
    }
}

/// Applies a comparison operator to two evaluated operands.
fn apply_comparison_exec(op: &Vec<u8>, l: Value, r: Value) -> (res: Result<Value, AsaErrorKind>)
    ensures
        result_view(res) == apply_comparison(op@, l@, r@),
{
    if is_op1(op, 62) {  // >
        match (l, r) {
            (Value::Number(a), Value::Number(b)) => Ok(Value::Bool(a > b)),
            _ => Err(AsaErrorKind::TypeError),
        }
    } else if is_op1(op, 60) {  // <
        match (l, r) {
            (Value::Number(a), Value::Number(b)) => Ok(Value::Bool(a < b)),
            _ => Err(AsaErrorKind::TypeError),
        }
    } else if is_op2(op, 62, 61) {  // >=
        match (l, r) {
            (Value::Number(a), Value::Number(b)) => Ok(Value::Bool(a >= b)),
            _ => Err(AsaErrorKind::TypeError),
        }
    } else if is_op2(op, 60, 61) {  // <=
        match (l, r) {
            (Value::Number(a), Value::Number(b)) => Ok(Value::Bool(a <= b)),
            _ => Err(AsaErrorKind::TypeError),
        }
    } else if is_op2(op, 61, 61) {  // ==
        match (l, r) {
            (Value::Number(a), Value::Number(b)) => Ok(Value::Bool(a == b)),
            (Value::Bool(a), Value::Bool(b)) => Ok(Value::Bool(a == b)),
            (Value::String(a), Value::String(b)) => Ok(Value::Bool(a == b)),
            _ => Err(AsaErrorKind::TypeError),
        }
    } else if is_op2(op, 33, 61) {  // !=
        match (l, r) {
            (Value::Number(a), Value::Number(b)) => Ok(Value::Bool(a != b)),
            (Value::Bool(a), Value::Bool(b)) => Ok(Value::Bool(a != b)),
            (Value::String(a), Value::String(b)) => Ok(Value::Bool(!(a == b))),
            _ => Err(AsaErrorKind::TypeError),
        }
    } else {
        Err(AsaErrorKind::InvalidExpression)
    }
}

/// The evaluator: a frame stack whose top is the active scope, walked and
/// grown by [`Interpreter::exec`]. Each instance owns its stack exclusively;
/// independent programs evaluate on independent instances.
#[derive(Debug)]
pub struct Interpreter {
    stack: Vec<Frame>,
}

impl View for Interpreter {
    type V = Seq<FrameModel>;

    closed spec fn view(&self) -> Seq<FrameModel> {
        Seq::new(self.stack@.len(), |i: int| self.stack@[i]@)
    }
}

impl Interpreter {
    /// A fresh evaluator with an empty scope stack.
    pub fn new() -> (r: Interpreter)
        ensures
            r@ == Seq::<FrameModel>::empty(),
    {
        let r = Interpreter { stack: Vec::new() };
        proof {
            assert(r@ =~= Seq::<FrameModel>::empty());
        }
        r
    }

    /// Pushes an empty frame; it becomes the active scope.
    pub fn push_frame(&mut self)
        ensures
            final(self)@ == old(self)@.push(Map::<Seq<char>, SpecValue>::empty()),
    {
        self.stack.push(Frame::new());
        proof {
            assert(self@ =~= old(self)@.push(Map::<Seq<char>, SpecValue>::empty()));
        }
    }

    /// Removes and discards the top frame; without a frame it does nothing.
    pub fn pop_frame(&mut self)
        ensures
            old(self)@.len() == 0 ==> final(self)@ == old(self)@,
            old(self)@.len() > 0 ==> final(self)@ == old(self)@.drop_last(),
    {
        if self.stack.len() > 0 {
            let _top = self.stack.pop();
            proof {
                assert(self@ =~= old(self)@.drop_last());
            }
        }
    }

    /// Reads `name` from the top frame only: no frame below it is searched.
    pub fn lookup(&self, name: &String) -> (r: Result<Value, AsaErrorKind>)
        ensures
            result_view(r) == lookup_model(self@, name@),
    {
        if self.stack.len() > 0 {
            let top = &self.stack[self.stack.len() - 1];
            proof {
                assert(top@ == self@.last());
            }
            match top.get(name) {
                Some(v) => {
                    return Ok(v);
                },
                None => {},
            }
        }
        Err(AsaErrorKind::UndefinedVariable(name.clone()))
    }

    /// Binds `name` to `value` in the top frame, overwriting an earlier
    /// binding there; with an empty stack there is no active scope to bind
    /// in, and that is an error.
    pub fn define(&mut self, name: String, value: Value) -> (r: Result<(), AsaErrorKind>)
        ensures
            old(self)@.len() == 0 ==> final(self)@ == old(self)@ && r == Err::<(), AsaErrorKind>(
                AsaErrorKind::NoStackFrame,
            ),
            old(self)@.len() > 0 ==> final(self)@ == define_model(old(self)@, name@, value@)
                && r == Ok::<(), AsaErrorKind>(()),
    {
        if self.stack.len() == 0 {
            return Err(AsaErrorKind::NoStackFrame);
        }
        let mut top = self.stack.pop().unwrap();
        top.set(name, value);
        self.stack.push(top);
        proof {
            assert(self@ =~= define_model(old(self)@, name@, value@));
        }
        Ok(())
    }

    /// Evaluates a syntax tree node: returns exactly what the mathematical
    /// semantics [`eval_node`] gives for it, and leaves the frame stack as
    /// the semantics says. The first error met anywhere below the node is
    /// propagated unchanged.
    pub fn exec(&mut self, node: &Node) -> (r: Result<Value, AsaErrorKind>)
        ensures
            ({
                let o = eval_node(node@, old(self)@);
                final(self)@ == o.stack && result_view(r) == o.result
            }),
        decreases node, 0int,
    {
        match node {
            Node::Program { children } => {
                if self.stack.len() == 0 {
                    self.push_frame();
                }
                proof {
                    assert(nodes_view(children@).skip(0) =~= nodes_view(children@));
                }
                self.exec_program_children(children, 0, Value::Bool(true))
            },
            Node::MathExpression { name, children } => {
                proof {
                    lemma_nodes_view(children@);
                }
                if children.len() != 2 {
                    return Err(AsaErrorKind::InvalidExpression);
                }
                let left = match self.exec(&children[0]) {
                    Ok(v) => v,
                    Err(e) => {
                        return Err(e);
                    },
                };
                let right = match self.exec(&children[1]) {
                    Ok(v) => v,
                    Err(e) => {
                        return Err(e);
                    },
                };
                apply_math_exec(name, left, right)
            },
            Node::ConditionalExpression { operator, children } => {
                proof {
                    lemma_nodes_view(children@);
                }
                if children.len() != 2 {
                    return Err(AsaErrorKind::InvalidExpression);
                }
                let left = match self.exec(&children[0]) {
                    Ok(v) => v,
                    Err(e) => {
                        return Err(e);
                    },
                };
                let right = match self.exec(&children[1]) {
                    Ok(v) => v,
                    Err(e) => {
                        return Err(e);
                    },
                };
                apply_comparison_exec(operator, left, right)
            },
            Node::Identifier { value } => {
                match bytes_to_text(value) {
                    Some(name) => self.lookup(&name),
                    None => Err(AsaErrorKind::InvalidIdentifier(copy_bytes(value))),
                }
            },
            Node::Statement { children } => {
                proof {
                    lemma_nodes_view(children@);
                }
                if children.len() == 0 {
                    return Err(AsaErrorKind::EmptyStatement);
                }
                self.exec(&children[0])
            },
            Node::Expression { children } => {
                proof {
                    lemma_nodes_view(children@);
                }
                if children.len() == 0 {
                    return Err(AsaErrorKind::InvalidExpression);
                }
                self.exec(&children[0])
            },
            Node::VariableDefine { children } => {
                proof {
                    lemma_nodes_view(children@);
                }
                if children.len() != 2 {
                    return Err(AsaErrorKind::InvalidVariable);
                }
                let name_bytes = match &children[0] {
                    Node::Identifier { value } => value,
                    _ => {
                        proof {
                            assert(children@[0]@ == nodes_view(children@)[0]);
                        }
                        return Err(AsaErrorKind::InvalidVariable);
                    },
                };
                proof {
                    assert(children@[0]@ == nodes_view(children@)[0]);
                }
                let name = match bytes_to_text(name_bytes) {
                    Some(s) => s,
                    None => {
                        return Err(AsaErrorKind::InvalidIdentifier(copy_bytes(name_bytes)));
                    },
                };
                let value = match self.exec(&children[1]) {
                    Ok(v) => v,
                    Err(e) => {
                        return Err(e);
                    },
                };
                match self.define(name, value.clone()) {
                    Ok(()) => Ok(value),
                    Err(e) => Err(e),
                }
            },
            Node::Number { value } => Ok(Value::Number(*value)),
            Node::String { value } => Ok(Value::String(value.clone())),
            Node::Bool { value } => Ok(Value::Bool(*value)),
            _ => Err(AsaErrorKind::UnimplementedNode(kind_name(node))),
        }
    }

    /// Evaluates the children of a Program node from position `i` on, in
    /// order, carrying the value evaluated last.
    fn exec_program_children(&mut self, children: &Vec<Node>, i: usize, last: Value) -> (r: Result<
        Value,
        AsaErrorKind,
    >)
        requires
            i <= children@.len(),
        ensures
            ({
                let o = eval_program_children(
                    nodes_view(children@).skip(i as int),
                    old(self)@,
                    last@,
                );
                final(self)@ == o.stack && result_view(r) == o.result
            }),
        decreases children@, children@.len() - i,
    {
        proof {
            lemma_nodes_view(children@);
        }
        if i == children.len() {
            proof {
                assert(nodes_view(children@).skip(i as int) =~= Seq::<crate::node::SpecNode>::empty());
            }
            return Ok(last);
        }
        let child = &children[i];
        proof {
            assert(nodes_view(children@).skip(i as int)[0] == child@);
        }
        if !allowed_in_program(child) {
            return Err(AsaErrorKind::UnimplementedNode(kind_name(child)));
        }
        match self.exec(child) {
            Ok(v) => {
                proof {
                    assert(nodes_view(children@).skip(i as int).drop_first() =~= nodes_view(
                        children@,
                    ).skip(i as int + 1));
                }
                self.exec_program_children(children, i + 1, v)
            },
            Err(e) => Err(e),
        }
    }
}

/// True when a node's kind may stand directly under a Program node.
fn allowed_in_program(n: &Node) -> (r: bool)
    ensures
        r == is_program_child(n@),
{
    match n {
        Node::Expression { .. } => true,
        Node::VariableDefine { .. } => true,
        Node::String { .. } => true,
        Node::Number { .. } => true,
        Node::Bool { .. } => true,
        _ => false,
    }
}

} // verus!
