//! The term node: every kind of node a graph position can hold, and the three
//! operations through which a rewriting engine handles any of them.
//!
//! A node is split into its own content and its child positions. The engine
//! compares content with `matches` and reads or rewrites positions through
//! `children` and `children_mut`; it never needs to know which kind of node it
//! has in hand.

use crate::children::{Children, Position};
use crate::simple::SimpleNode;
use vstd::prelude::*;

verus! {

/// The element type of a value.
#[derive(Debug, Clone, Copy, PartialEq, Eq, Hash)]
pub enum ScalarType {
    Float64,
    Float32,
    UInt32,
    Int32,
}

/// One dimension of a tensor. The size is a hint for cost estimates, not a
/// promise.
#[derive(Debug, Clone, Copy, PartialEq, Eq, Hash)]
pub struct Dim {
    pub size_hint: usize,
}

/// The type of the value that a variable carries.
#[derive(Debug, Clone)]
pub enum Type {
    DenseTensor(ScalarType, Vec<Dim>),
    Scalar(ScalarType),
}

/// A variable backed by a buffer.
#[derive(Debug, Clone)]
pub struct BufferedVariable {
    /// First the buffer's position, then the position of the node that owns
    /// the variable's current value.
    pub children: [Position; 2],
    pub value_type: Type,
}

/// A variable without a buffer.
#[derive(Debug, Clone)]
pub struct UnbufferedVariable {
    /// The position of the owning node, where there is one.
    pub owner: Option<Position>,
    pub value_type: Type,
}

/// What a boundary position says of its variable.
#[derive(Debug, Clone)]
pub enum Variable {
    Buffered(BufferedVariable),
    Unbuffered(UnbufferedVariable),
}

/// A physical storage placeholder.
#[derive(Debug, Clone)]
pub struct Buffer {}

/// A fused elementwise kernel. The first `n_inputs` children are the argument
/// positions of the inner scalar computation, the rest its output positions.
#[derive(Debug, Clone)]
pub struct Elemwise {
    pub children: Children,
    pub n_inputs: u64,
}

/// A two-branch conditional. The first child is the condition, then come
/// `n_inputs` input positions and `n_inputs` output positions.
#[derive(Debug, Clone)]
pub struct IfElse {
    pub children: Children,
    pub n_inputs: usize,
}

/// A node that computes: a plain operator or one of the two composites.
#[derive(Debug, Clone)]
pub enum Node {
    Simple(SimpleNode),
    Elemwise(Elemwise),
    IfElse(IfElse),
}

/// What a graph position holds.
#[derive(Debug, Clone)]
pub enum ENode {
    Node(Node),
    /// The output of an inner computation at the given slot.
    Output(usize, Variable),
    /// The argument of an inner computation at the given slot.
    Argument(usize, Variable),
    Buffer(Buffer),
    Constant(),
}

/// A node's own content: all of it but the child positions.
pub ghost enum Content {
    Simple { op: u32, names: Map<u32, Seq<char>> },
    Elemwise { n_inputs: u64 },
    IfElse { n_inputs: usize },
    Output { slot: usize, buffered: bool, value_type: Type },
    Argument { slot: usize, buffered: bool, value_type: Type },
    Buffer,
    Constant,
}

impl Content {
    /// The content is that of a variable occurrence: an output or an argument.
    pub open spec fn is_variable(self) -> bool {
        self is Output || self is Argument
    }
}

/// Whether two contents can belong to one congruence class. Plain operators
/// match on equal operator ids; composites of one kind on equal input counts;
/// any two variable occurrences match; buffers match buffers and constants
/// match constants. Nothing else matches.
pub open spec fn content_matches(a: Content, b: Content) -> bool {
    match (a, b) {
        (Content::Simple { op: x, .. }, Content::Simple { op: y, .. }) => x == y,
        (Content::Elemwise { n_inputs: x }, Content::Elemwise { n_inputs: y }) => x == y,
        (Content::IfElse { n_inputs: x }, Content::IfElse { n_inputs: y }) => x == y,
        (Content::Buffer, Content::Buffer) => true,
        (Content::Constant, Content::Constant) => true,
        _ => a.is_variable() && b.is_variable(),
    }
}

impl Variable {
    /// The child positions of the variable: buffer and owner where it is
    /// buffered, else the owner alone where there is one.
    pub open spec fn spec_children(&self) -> Seq<Position> {
        match self {
            Variable::Buffered(v) => v.children@,
            Variable::Unbuffered(v) => match v.owner {
                Some(p) => seq![p],
                None => seq![],
            },
        }
    }

    /// The type of the variable's value.
    pub open spec fn value_type(&self) -> Type {
        match self {
            Variable::Buffered(v) => v.value_type,
            Variable::Unbuffered(v) => v.value_type,
        }
    }

    /// The variable's child positions.
    pub fn children(&self) -> (out: &[Position])
        ensures
            out@ == self.spec_children(),
    {
        match self {
            Variable::Buffered(v) => v.children.as_slice(),
            Variable::Unbuffered(v) => v.owner.as_slice(),
        }
    }

    /// The variable's child positions, for rewriting in place. The kind of the
    /// variable, its value type and the number of positions stay as they are.
    pub fn children_mut(&mut self) -> (out: &mut [Position])
        ensures
            out@ == old(self).spec_children(),
            final(out)@.len() == out@.len(),
            final(self).spec_children() == final(out)@,
            final(self).value_type() == old(self).value_type(),
            (*final(self) is Buffered) == (*old(self) is Buffered),
    {
        match self {
            Variable::Buffered(v) => {
                let out: &mut [Position] = &mut v.children;
                out
            },
            Variable::Unbuffered(v) => v.owner.as_mut_slice(),
        }
    }
}

impl ENode {
    /// The node's own content.
    pub open spec fn content(&self) -> Content {
        match self {
            ENode::Node(Node::Simple(n)) => Content::Simple { op: n@.0, names: n.names() },
            ENode::Node(Node::Elemwise(e)) => Content::Elemwise { n_inputs: e.n_inputs },
            ENode::Node(Node::IfElse(e)) => Content::IfElse { n_inputs: e.n_inputs },
            ENode::Output(slot, v) => Content::Output {
                slot: *slot,
                buffered: v is Buffered,
                value_type: v.value_type(),
            },
            ENode::Argument(slot, v) => Content::Argument {
                slot: *slot,
                buffered: v is Buffered,
                value_type: v.value_type(),
            },
            ENode::Buffer(_) => Content::Buffer,
            ENode::Constant() => Content::Constant,
        }
    }

    /// The node's child positions, in the order its kind lays down.
    pub open spec fn spec_children(&self) -> Seq<Position> {
        match self {
            ENode::Node(Node::Simple(n)) => n@.1,
            ENode::Node(Node::Elemwise(e)) => e.children@,
            ENode::Node(Node::IfElse(e)) => e.children@,
            ENode::Output(_, v) => v.spec_children(),
            ENode::Argument(_, v) => v.spec_children(),
            ENode::Buffer(_) => seq![],
            ENode::Constant() => seq![],
        }
    }

    /// Whether the two nodes can belong to one congruence class, going by
    /// their own content only. Child positions are not looked at.
    pub fn matches(&self, other: &ENode) -> (out: bool)
        ensures
            out == content_matches(self.content(), other.content()),
    {
        match (self, other) {
            (ENode::Node(Node::Simple(a)), ENode::Node(Node::Simple(b))) => a.node_id()
                == b.node_id(),
            (ENode::Node(Node::Elemwise(a)), ENode::Node(Node::Elemwise(b))) => a.n_inputs
                == b.n_inputs,
            (ENode::Node(Node::IfElse(a)), ENode::Node(Node::IfElse(b))) => a.n_inputs
                == b.n_inputs,
            (ENode::Output(_, _), ENode::Output(_, _)) => true,
            (ENode::Output(_, _), ENode::Argument(_, _)) => true,
            (ENode::Argument(_, _), ENode::Output(_, _)) => true,
            (ENode::Argument(_, _), ENode::Argument(_, _)) => true,
            (ENode::Buffer(_), ENode::Buffer(_)) => true,
            (ENode::Constant(), ENode::Constant()) => true,
            _ => false,
        }
    }

    /// The node's child positions. A node without children gives an empty
    /// slice.
    pub fn children(&self) -> (out: &[Position])
        ensures
            out@ == self.spec_children(),
    {
        match self {
            ENode::Node(Node::Simple(n)) => n.children().as_slice(),
            ENode::Node(Node::Elemwise(e)) => e.children.as_slice(),
            ENode::Node(Node::IfElse(e)) => e.children.as_slice(),
            ENode::Output(_, v) => v.children(),
            ENode::Argument(_, v) => v.children(),
            ENode::Buffer(_) => {
                let none: &[Position; 0] = &[];
                none.as_slice()
            },
            ENode::Constant() => {
                let none: &[Position; 0] = &[];
                none.as_slice()
            },
        }
    }

    /// The node's child positions, for rewriting in place. What the caller
    /// leaves in the slice is what the node holds afterwards; the number of
    /// positions and the node's own content cannot change.
    pub fn children_mut(&mut self) -> (out: &mut [Position])
        ensures
            out@ == old(self).spec_children(),
            final(out)@.len() == out@.len(),
            final(self).spec_children() == final(out)@,
            final(self).content() == old(self).content(),
    {
        match self {
            ENode::Node(Node::Simple(n)) => n.children_mut().as_mut_slice(),
            ENode::Node(Node::Elemwise(e)) => e.children.as_mut_slice(),
            ENode::Node(Node::IfElse(e)) => e.children.as_mut_slice(),
            ENode::Output(_, v) => v.children_mut(),
            ENode::Argument(_, v) => v.children_mut(),
            ENode::Buffer(_) => &mut [],
            ENode::Constant() => &mut [],
        }
    }

    /// Writes `position` to slot `index` of the node's children. Every other
    /// slot, the number of slots and the node's own content stay as they are.
    pub fn set_child(&mut self, index: usize, position: Position)
        requires
            index < old(self).spec_children().len(),
        ensures
            final(self).spec_children() == old(self).spec_children().update(
                index as int,
                position,
            ),
            final(self).content() == old(self).content(),
    {
        let slots = self.children_mut();
        slots[index] = position;
    }
}

/// `matches` is reflexive and symmetric.
pub proof fn lemma_matches_is_reflexive_and_symmetric(a: Content, b: Content)
    ensures
        content_matches(a, a),
        content_matches(a, b) == content_matches(b, a),
{
}

/// A variable occurrence never matches a plain operator, whichever comes
/// first; any two variable occurrences match; two plain operators match
/// exactly when their operator ids are equal.
pub proof fn lemma_matches_policy(a: Content, b: Content)
    ensures
        a.is_variable() && b is Simple ==> !content_matches(a, b) && !content_matches(b, a),
        a.is_variable() && b.is_variable() ==> content_matches(a, b),
        a is Simple && b is Simple ==> (content_matches(a, b) <==> a->Simple_op == b->Simple_op),
{
}

/// Two plain operator nodes with equal identities match, and two that match
/// differ at most in their children.
pub proof fn lemma_equal_simple_nodes_match(a: SimpleNode, b: SimpleNode)
    ensures
        a@ == b@ ==> content_matches(
            ENode::Node(Node::Simple(a)).content(),
            ENode::Node(Node::Simple(b)).content(),
        ),
        content_matches(
            ENode::Node(Node::Simple(a)).content(),
            ENode::Node(Node::Simple(b)).content(),
        ) <==> a@.0 == b@.0,
{
}

} // verus!
