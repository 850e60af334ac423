//! The syntax tree consumed by the evaluator, and its mathematical model.

use vstd::prelude::*;

verus! {

/// Mathematical model of a syntax tree node. Identifier names and operator
/// symbols are raw byte sequences, exactly as the parser produced them.
pub enum SpecNode {
    Program(Seq<SpecNode>),
    MathExpression(Seq<u8>, Seq<SpecNode>),
    ConditionalExpression(Seq<u8>, Seq<SpecNode>),
    Identifier(Seq<u8>),
    Statement(Seq<SpecNode>),
    VariableDefine(Seq<SpecNode>),
    Expression(Seq<SpecNode>),
    Number(int),
    String(Seq<char>),
    Bool(bool),
    FunctionCall(Seq<u8>, Seq<SpecNode>),
    FunctionDefine(Seq<SpecNode>),
    FunctionReturn(Seq<SpecNode>),
    FunctionArguments(Seq<SpecNode>),
}

/// A parsed syntax tree node. Each node owns its children exclusively; the
/// tree is acyclic and immutable once parsed.
///
/// The grammar has more kinds than the evaluator covers: the function-related
/// kinds are carried here so that a tree holding one is answered with an
/// "unimplemented node" error rather than refused at the type level.
#[derive(Debug, PartialEq)]
#[allow(inconsistent_fields)]
pub enum Node {
    Program { children: Vec<Node> },
    MathExpression { name: Vec<u8>, children: Vec<Node> },
    ConditionalExpression { operator: Vec<u8>, children: Vec<Node> },
    Identifier { value: Vec<u8> },
    Statement { children: Vec<Node> },
    VariableDefine { children: Vec<Node> },
    Expression { children: Vec<Node> },
    Number { value: i32 },
    String { value: String },
    Bool { value: bool },
    FunctionCall { name: Vec<u8>, children: Vec<Node> },
    FunctionDefine { children: Vec<Node> },
    FunctionReturn { children: Vec<Node> },
    FunctionArguments { children: Vec<Node> },
}

/// The model of a node.
pub open spec fn node_view(n: Node) -> SpecNode
    decreases n,
{
    match n {
        Node::Program { children } => SpecNode::Program(nodes_view(children@)),
        Node::MathExpression { name, children } => SpecNode::MathExpression(
            name@,
            nodes_view(children@),
        ),
        Node::ConditionalExpression { operator, children } => SpecNode::ConditionalExpression(
            operator@,
            nodes_view(children@),
        ),
        Node::Identifier { value } => SpecNode::Identifier(value@),
        Node::Statement { children } => SpecNode::Statement(nodes_view(children@)),
        Node::VariableDefine { children } => SpecNode::VariableDefine(nodes_view(children@)),
        Node::Expression { children } => SpecNode::Expression(nodes_view(children@)),
        Node::Number { value } => SpecNode::Number(value as int),
        Node::String { value } => SpecNode::String(value@),
        Node::Bool { value } => SpecNode::Bool(value),
        Node::FunctionCall { name, children } => SpecNode::FunctionCall(
            name@,
            nodes_view(children@),
        ),
        Node::FunctionDefine { children } => SpecNode::FunctionDefine(nodes_view(children@)),
        Node::FunctionReturn { children } => SpecNode::FunctionReturn(nodes_view(children@)),
        Node::FunctionArguments { children } => SpecNode::FunctionArguments(nodes_view(children@)),
    }
}

/// The models of a sequence of nodes, element by element.
pub open spec fn nodes_view(s: Seq<Node>) -> Seq<SpecNode>
    decreases s,
{
    if s.len() == 0 {
        Seq::empty()
    } else {
        nodes_view(s.drop_last()).push(node_view(s.last()))
    }
}

impl View for Node {
    type V = SpecNode;

    open spec fn view(&self) -> SpecNode {
        node_view(*self)
    }
}

/// `nodes_view` maps the sequence element by element.
pub proof fn lemma_nodes_view(s: Seq<Node>)
    ensures
        nodes_view(s).len() == s.len(),
        forall|i: int| 0 <= i < s.len() ==> nodes_view(s)[i] == #[trigger] s[i]@,
    decreases s.len(),
{
    if s.len() > 0 {
        lemma_nodes_view(s.drop_last());
        assert forall|i: int| 0 <= i < s.len() implies nodes_view(s)[i] == #[trigger] s[i]@ by {
            if i < s.len() - 1 {
                assert(s.drop_last()[i] == s[i]);
            }
        }
    }
}

/// The name of a node's kind, used to describe nodes the evaluator does not
/// cover.
pub open spec fn spec_kind_name(n: SpecNode) -> Seq<char> {
    match n {
        SpecNode::Program(..) => "Program"@,
        SpecNode::MathExpression(..) => "MathExpression"@,
        SpecNode::ConditionalExpression(..) => "ConditionalExpression"@,
        SpecNode::Identifier(..) => "Identifier"@,
        SpecNode::Statement(..) => "Statement"@,
        SpecNode::VariableDefine(..) => "VariableDefine"@,
        SpecNode::Expression(..) => "Expression"@,
        SpecNode::Number(..) => "Number"@,
        SpecNode::String(..) => "String"@,
        SpecNode::Bool(..) => "Bool"@,
        SpecNode::FunctionCall(..) => "FunctionCall"@,
        SpecNode::FunctionDefine(..) => "FunctionDefine"@,
        SpecNode::FunctionReturn(..) => "FunctionReturn"@,
        SpecNode::FunctionArguments(..) => "FunctionArguments"@,
    }
}

/// The name of a node's kind, as an owned string.
pub fn kind_name(n: &Node) -> (r: String)
    ensures
        r@ == spec_kind_name(n@),
{
    match n {
        Node::Program { .. } => String::from_str("Program"),
        Node::MathExpression { .. } => String::from_str("MathExpression"),
        Node::ConditionalExpression { .. } => String::from_str("ConditionalExpression"),
        Node::Identifier { .. } => String::from_str("Identifier"),
        Node::Statement { .. } => String::from_str("Statement"),
        Node::VariableDefine { .. } => String::from_str("VariableDefine"),
        Node::Expression { .. } => String::from_str("Expression"),
        Node::Number { .. } => String::from_str("Number"),
        Node::String { .. } => String::from_str("String"),
        Node::Bool { .. } => String::from_str("Bool"),
        Node::FunctionCall { .. } => String::from_str("FunctionCall"),
        Node::FunctionDefine { .. } => String::from_str("FunctionDefine"),
        Node::FunctionReturn { .. } => String::from_str("FunctionReturn"),
        Node::FunctionArguments { .. } => String::from_str("FunctionArguments"),
    }
}

} // verus!
