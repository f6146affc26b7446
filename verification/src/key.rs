//! The identity key of a term node: the values that decide whether two nodes
//! are the same node and which of two comes first.
//!
//! The key lists a node's fields in the order in which they are compared: the
//! rank of its kind, the fields that stand before the children, the children,
//! and the fields that stand after them. A registry's names and a tensor's
//! size hints are in no key.

use crate::children::Position;
use crate::node::{ENode, Node, ScalarType, Type, Variable};
use crate::order::{agree_before, first_split};
use vstd::prelude::*;

verus! {

/// The fields of a node in comparison order. A field that a kind of node does
/// not have is zero.
pub ghost struct Key {
    /// The kind: plain operator 0, elementwise 1, conditional 2, output 3,
    /// argument 4, buffer 5, constant 6.
    pub rank: u64,
    /// Before the children: the operator id of a plain operator; the slot of
    /// a variable occurrence, then 0 where it is buffered and 1 where not.
    pub head: (u64, u64),
    /// The child positions.
    pub kids: Seq<Position>,
    /// After the children: the input count of a composite; of a variable
    /// occurrence 0 for a tensor and 1 for a scalar, then the element type.
    pub tail: (u64, u64),
}

impl ScalarType {
    /// The place of the element type among its kind.
    pub open spec fn spec_code(self) -> u64 {
        match self {
            ScalarType::Float64 => 0,
            ScalarType::Float32 => 1,
            ScalarType::UInt32 => 2,
            ScalarType::Int32 => 3,
        }
    }

    /// The place of the element type among its kind.
    pub fn code(&self) -> (out: u64)
        ensures
            out == self.spec_code(),
    {
        match self {
            ScalarType::Float64 => 0,
            ScalarType::Float32 => 1,
            ScalarType::UInt32 => 2,
            ScalarType::Int32 => 3,
        }
    }
}

impl Type {
    /// Tensor or scalar, then the element type. The size hints are left out.
    pub open spec fn spec_codes(&self) -> (u64, u64) {
        match self {
            Type::DenseTensor(scalar, _) => (0, scalar.spec_code()),
            Type::Scalar(scalar) => (1, scalar.spec_code()),
        }
    }

    /// Tensor or scalar, then the element type.
    pub fn codes(&self) -> (out: (u64, u64))
        ensures
            out == self.spec_codes(),
    {
        match self {
            Type::DenseTensor(scalar, _) => (0, scalar.code()),
            Type::Scalar(scalar) => (1, scalar.code()),
        }
    }
}

impl Variable {
    /// 0 for a buffered variable, 1 for an unbuffered one.
    pub open spec fn spec_kind(&self) -> u64 {
        if self is Buffered {
            0
        } else {
            1
        }
    }

    /// 0 for a buffered variable, 1 for an unbuffered one.
    pub fn kind(&self) -> (out: u64)
        ensures
            out == self.spec_kind(),
    {
        match self {
            Variable::Buffered(_) => 0,
            Variable::Unbuffered(_) => 1,
        }
    }

    /// The codes of the variable's value type.
    pub fn type_codes(&self) -> (out: (u64, u64))
        ensures
            out == self.value_type().spec_codes(),
    {
        match self {
            Variable::Buffered(v) => v.value_type.codes(),
            Variable::Unbuffered(v) => v.value_type.codes(),
        }
    }
}

impl ENode {
    /// The node's identity key.
    pub open spec fn key(&self) -> Key {
        match self {
            ENode::Node(Node::Simple(n)) => Key {
                rank: 0,
                head: (n@.0 as u64, 0),
                kids: n@.1,
                tail: (0, 0),
            },
            ENode::Node(Node::Elemwise(e)) => Key {
                rank: 1,
                head: (0, 0),
                kids: e.children@,
                tail: (e.n_inputs, 0),
            },
            ENode::Node(Node::IfElse(e)) => Key {
                rank: 2,
                head: (0, 0),
                kids: e.children@,
                tail: (e.n_inputs as u64, 0),
            },
            ENode::Output(slot, v) => Key {
                rank: 3,
                head: (*slot as u64, v.spec_kind()),
                kids: v.spec_children(),
                tail: v.value_type().spec_codes(),
            },
            ENode::Argument(slot, v) => Key {
                rank: 4,
                head: (*slot as u64, v.spec_kind()),
                kids: v.spec_children(),
                tail: v.value_type().spec_codes(),
            },
            ENode::Buffer(_) => Key { rank: 5, head: (0, 0), kids: seq![], tail: (0, 0) },
            ENode::Constant() => Key { rank: 6, head: (0, 0), kids: seq![], tail: (0, 0) },
        }
    }

    /// The rank of the node's kind.
    pub fn rank(&self) -> (out: u64)
        ensures
            out == self.key().rank,
    {
        match self {
            ENode::Node(Node::Simple(_)) => 0,
            ENode::Node(Node::Elemwise(_)) => 1,
            ENode::Node(Node::IfElse(_)) => 2,
            ENode::Output(_, _) => 3,
            ENode::Argument(_, _) => 4,
            ENode::Buffer(_) => 5,
            ENode::Constant() => 6,
        }
    }

    /// The fields compared before the children.
    pub fn head(&self) -> (out: (u64, u64))
        ensures
            out == self.key().head,
    {
        match self {
            ENode::Node(Node::Simple(n)) => (n.node_id() as u64, 0),
            ENode::Output(slot, v) => (*slot as u64, v.kind()),
            ENode::Argument(slot, v) => (*slot as u64, v.kind()),
            _ => (0, 0),
        }
    }

    /// The fields compared after the children.
    pub fn tail(&self) -> (out: (u64, u64))
        ensures
            out == self.key().tail,
    {
        match self {
            ENode::Node(Node::Elemwise(e)) => (e.n_inputs, 0),
            ENode::Node(Node::IfElse(e)) => (e.n_inputs as u64, 0),
            ENode::Output(_, v) => v.type_codes(),
            ENode::Argument(_, v) => v.type_codes(),
            _ => (0, 0),
        }
    }
}

/// The first slot at which the two slices differ or one of them ends.
pub fn first_difference(a: &[Position], b: &[Position]) -> (out: usize)
    ensures
        out == first_split(a@, b@, 0),
        agree_before(a@, b@, out as int),
        out == a@.len() || out == b@.len() || a@[out as int] != b@[out as int],
{
    let mut i: usize = 0;
    while i < a.len() && i < b.len() && a[i] == b[i]
        invariant
            agree_before(a@, b@, i as int),
            first_split(a@, b@, i as int) == first_split(a@, b@, 0),
        decreases a@.len() - i,
    {
        i += 1;
    }
    i
}

/// The children in a node's key are the children that the node hands out.
pub proof fn lemma_key_holds_the_children(node: ENode)
    ensures
        node.key().kids == node.spec_children(),
{
}

} // verus!
