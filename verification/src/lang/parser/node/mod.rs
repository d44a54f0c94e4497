use vstd::prelude::*;
use crate::lang::lexer::token::token_type::TokenType;

verus! {

/// A number literal. It holds the literal's text, digits with at most one decimal point
/// between them, which is what the number is read from.
#[derive(Debug, PartialEq, Eq)]
pub struct NumberNode {
    pub value: String,
}

/// A string literal, escapes resolved.
#[derive(Debug, PartialEq, Eq)]
pub struct StringNode {
    pub value: String,
}

/// `true` or `false`.
#[derive(Debug, PartialEq, Eq)]
pub struct BoolNode {
    pub value: bool,
}

/// `void`.
#[derive(Debug, PartialEq, Eq)]
pub struct VoidNode {}

/// A prefix operator and its operand.
#[derive(Debug, PartialEq, Eq)]
pub struct UnaryNode {
    pub op: TokenType,
    pub expr: Box<Node>,
}

/// A binary operator and its two operands.
#[derive(Debug, PartialEq, Eq)]
pub struct BinOpNode {
    pub op: TokenType,
    pub left: Box<Node>,
    pub right: Box<Node>,
}

/// An expression tree. A node owns its operands.
#[derive(Debug, PartialEq, Eq)]
pub enum Node {
    Number(NumberNode),
    String(StringNode),
    Bool(BoolNode),
    Void(VoidNode),
    Unary(UnaryNode),
    BinOp(BinOpNode),
}

/// What a `Node` stands for.
pub ghost enum NodeView {
    Number(Seq<char>),
    String(Seq<char>),
    Bool(bool),
    Void,
    Unary(TokenType, Box<NodeView>),
    BinOp(TokenType, Box<NodeView>, Box<NodeView>),
}

/// The tree that a node stands for: the same tree over the views of what the nodes hold.
pub open spec fn spec_node(node: Node) -> NodeView
    decreases node,
{
    match node {
        Node::Number(n) => NodeView::Number(n.value@),
        Node::String(n) => NodeView::String(n.value@),
        Node::Bool(n) => NodeView::Bool(n.value),
        Node::Void(_) => NodeView::Void,
        Node::Unary(n) => NodeView::Unary(n.op, Box::new(spec_node(*n.expr))),
        Node::BinOp(n) => NodeView::BinOp(
            n.op,
            Box::new(spec_node(*n.left)),
            Box::new(spec_node(*n.right)),
        ),
    }
}

impl View for Node {
    type V = NodeView;

    open spec fn view(&self) -> NodeView {
        spec_node(*self)
    }
}

impl NumberNode {
    pub fn new(value: String) -> (r: Self)
        ensures
            r.value@ == value@,
    {
        NumberNode { value }
    }
}

impl StringNode {
    pub fn new(value: String) -> (r: Self)
        ensures
            r.value@ == value@,
    {
        Self { value }
    }
}

impl BoolNode {
    pub fn new(value: bool) -> (r: Self)
        ensures
            r.value == value,
    {
        Self { value }
    }
}

impl VoidNode {
    pub fn new() -> (r: Self) {
        VoidNode {  }
    }
}

impl UnaryNode {
    pub fn new(op: TokenType, expr: Box<Node>) -> (r: Self)
        ensures
            r.op == op,
            r.expr == expr,
    {
        UnaryNode { op, expr }
    }
}

impl BinOpNode {
    pub fn new(op: TokenType, left: Box<Node>, right: Box<Node>) -> (r: Self)
        ensures
            r.op == op,
            r.left == left,
            r.right == right,
    {
        Self { op, left, right }
    }
}

} // verus!

verus! {

/// The text that a tree shows as, for listings: each node by its sort, with what it holds
/// in round brackets.
pub open spec fn spec_node_text(node: NodeView) -> Seq<char>
    decreases node,
{
    match node {
        NodeView::Number(text) => "Number("@ + text + ")"@,
        NodeView::String(text) => "String("@ + text + ")"@,
        NodeView::Bool(value) => if value {
            "Bool(true)"@
        } else {
            "Bool(false)"@
        },
        NodeView::Void => "Void"@,
        NodeView::Unary(op, expr) => "Unary("@ + op.spec_name() + " "@ + spec_node_text(*expr)
            + ")"@,
        NodeView::BinOp(op, left, right) => "BinOpNode ("@ + spec_node_text(*left) + " "@
            + op.spec_name() + " "@ + spec_node_text(*right) + ")"@,
    }
}

/// Appends the text of `node` to `out`.
pub fn push_node_text(node: &Node, out: &mut String)
    ensures
        final(out)@ == old(out)@ + spec_node_text(node@),
    decreases node,
{
    match node {
        Node::Number(n) => {
            out.append("Number(");
            out.append(n.value.as_str());
            out.append(")");
        },
        Node::String(n) => {
            out.append("String(");
            out.append(n.value.as_str());
            out.append(")");
        },
        Node::Bool(n) => {
            if n.value {
                out.append("Bool(true)");
            } else {
                out.append("Bool(false)");
            }
        },
        Node::Void(_) => {
            out.append("Void");
        },
        Node::Unary(n) => {
            out.append("Unary(");
            out.append(n.op.name());
            out.append(" ");
            push_node_text(&n.expr, out);
            out.append(")");
        },
        Node::BinOp(n) => {
            out.append("BinOpNode (");
            push_node_text(&n.left, out);
            out.append(" ");
            out.append(n.op.name());
            out.append(" ");
            push_node_text(&n.right, out);
            out.append(")");
        },
    }
    assert(out@ =~= old(out)@ + spec_node_text(node@));
}

impl Node {
    /// The tree as text.
    pub fn to_text(&self) -> (r: String)
        ensures
            r@ == spec_node_text(self@),
    {
        let mut out = String::new();
        push_node_text(self, &mut out);
        assert(out@ =~= spec_node_text(self@));
        out
    }
}

} // verus!
