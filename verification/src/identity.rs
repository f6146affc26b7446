//! Equality and order of term nodes of every kind.
//!
//! Nodes are compared by their identity keys: first by kind, then field by
//! field in the order of the key. Plain operator nodes are handed to their own
//! comparison, which agrees with the key.

use crate::key::{first_difference, Key};
use crate::node::{ENode, Node};
use crate::order::{
    lemma_lex_asymmetric, lemma_lex_irreflexive, lemma_lex_total, lemma_lex_transitive, lex_less,
    lex_order,
};
use crate::children::Position;
use crate::simple::{identity_order, IdentityError, SimpleNode};
use core::cmp::Ordering;
use vstd::prelude::*;

verus! {

/// The order of two numbers.
pub open spec fn number_order(a: u64, b: u64) -> Ordering {
    if a < b {
        Ordering::Less
    } else if a > b {
        Ordering::Greater
    } else {
        Ordering::Equal
    }
}

/// `first` where it decides, else `next`.
pub open spec fn or_next(first: Ordering, next: Ordering) -> Ordering {
    if first == Ordering::Equal {
        next
    } else {
        first
    }
}

/// The order of two pairs: by the first number, then by the second.
pub open spec fn pair_order(a: (u64, u64), b: (u64, u64)) -> Ordering {
    or_next(number_order(a.0, b.0), number_order(a.1, b.1))
}

/// The order of two keys: by rank, then by the fields before the children,
/// then by the children lexicographically, then by the fields after them.
pub open spec fn key_order(a: Key, b: Key) -> Ordering {
    or_next(
        number_order(a.rank, b.rank),
        or_next(
            pair_order(a.head, b.head),
            or_next(lex_order(a.kids, b.kids), pair_order(a.tail, b.tail)),
        ),
    )
}

/// What a guarded equality test of two nodes returns, given whether their
/// registries were found to be one.
pub open spec fn guarded_key_eq(a: Key, b: Key, shared: bool) -> Result<bool, IdentityError> {
    if shared {
        Ok(a == b)
    } else {
        Err(IdentityError::RegistryMismatch)
    }
}

/// What a guarded comparison of two nodes returns, given whether their
/// registries were found to be one.
pub open spec fn guarded_key_order(a: Key, b: Key, shared: bool) -> Result<
    Ordering,
    IdentityError,
> {
    if shared {
        Ok(key_order(a, b))
    } else {
        Err(IdentityError::RegistryMismatch)
    }
}

/// The order of two slices of positions, lexicographically.
pub fn slice_order(a: &[Position], b: &[Position]) -> (out: Ordering)
    ensures
        out == lex_order(a@, b@),
{
    let k = first_difference(a, b);
    proof {
        lemma_lex_irreflexive(a@);
        if lex_less(b@, a@) {
            lemma_lex_asymmetric(b@, a@);
        }
    }
    if k == a.len() {
        if k == b.len() {
            assert(a@ =~= b@);
            Ordering::Equal
        } else {
            Ordering::Less
        }
    } else if k == b.len() {
        Ordering::Greater
    } else if a[k] < b[k] {
        Ordering::Less
    } else {
        Ordering::Greater
    }
}

fn order_numbers(a: u64, b: u64) -> (out: Ordering)
    ensures
        out == number_order(a, b),
{
    if a < b {
        Ordering::Less
    } else if a > b {
        Ordering::Greater
    } else {
        Ordering::Equal
    }
}

fn order_pairs(a: (u64, u64), b: (u64, u64)) -> (out: Ordering)
    ensures
        out == pair_order(a, b),
{
    match order_numbers(a.0, b.0) {
        Ordering::Equal => order_numbers(a.1, b.1),
        decided => decided,
    }
}

impl ENode {
    /// The two nodes may be compared: where both are plain operators, they
    /// point to registries that hold the same table. Nodes of other kinds
    /// point to no registry and may always be compared.
    pub open spec fn comparable(&self, other: &ENode) -> bool {
        match (self, other) {
            (ENode::Node(Node::Simple(a)), ENode::Node(Node::Simple(b))) => a.same_registry(b),
            _ => true,
        }
    }

    /// Whether the two nodes may be compared, as far as their registry
    /// handles tell: `false` is returned only for two plain operators that
    /// hold handles to different registry instances.
    pub fn shares_registry(&self, other: &ENode) -> (out: bool)
        ensures
            out ==> self.comparable(other),
            !(self.key().rank == 0 && other.key().rank == 0) ==> out,
    {
        match (self, other) {
            (ENode::Node(Node::Simple(a)), ENode::Node(Node::Simple(b))) => a.shares_registry(b),
            _ => true,
        }
    }

    /// Whether the two nodes are the same node: of one kind, with equal
    /// fields and equal children.
    pub fn eq(&self, other: &ENode) -> (out: bool)
        requires
            self.comparable(other),
        ensures
            out == (self.key() == other.key()),
    {
        match (self, other) {
            (ENode::Node(Node::Simple(a)), ENode::Node(Node::Simple(b))) => a.eq(b),
            _ => {
                let kids = self.children();
                let other_kids = other.children();
                let k = first_difference(kids, other_kids);
                let same_kids = k == kids.len() && k == other_kids.len();
                proof {
                    if same_kids {
                        assert(kids@ =~= other_kids@);
                    }
                }
                let head = self.head();
                let other_head = other.head();
                let tail = self.tail();
                let other_tail = other.tail();
                self.rank() == other.rank() && head.0 == other_head.0 && head.1 == other_head.1
                    && same_kids && tail.0 == other_tail.0 && tail.1 == other_tail.1
            },
        }
    }

    /// Where `self` stands relative to `other`: kinds are ordered by rank, and
    /// nodes of one kind by their fields in key order.
    pub fn cmp(&self, other: &ENode) -> (out: Ordering)
        requires
            self.comparable(other),
        ensures
            out == key_order(self.key(), other.key()),
    {
        match (self, other) {
            (ENode::Node(Node::Simple(a)), ENode::Node(Node::Simple(b))) => a.cmp(b),
            _ => {
                let by_rank = order_numbers(self.rank(), other.rank());
                if !matches!(by_rank, Ordering::Equal) {
                    return by_rank;
                }
                let by_head = order_pairs(self.head(), other.head());
                if !matches!(by_head, Ordering::Equal) {
                    return by_head;
                }
                let by_kids = slice_order(self.children(), other.children());
                if !matches!(by_kids, Ordering::Equal) {
                    return by_kids;
                }
                order_pairs(self.tail(), other.tail())
            },
        }
    }

    /// As `cmp`: the order is total, so the answer is never `None`.
    pub fn partial_cmp(&self, other: &ENode) -> (out: Option<Ordering>)
        requires
            self.comparable(other),
        ensures
            out == Some(key_order(self.key(), other.key())),
    {
        Some(self.cmp(other))
    }

    /// The equality test behind the guard: `shared` says whether the nodes
    /// were found to be comparable.
    pub fn eq_given(&self, other: &ENode, shared: bool) -> (out: Result<bool, IdentityError>)
        requires
            shared ==> self.comparable(other),
        ensures
            out == guarded_key_eq(self.key(), other.key(), shared),
    {
        if shared {
            Ok(self.eq(other))
        } else {
            Err(IdentityError::RegistryMismatch)
        }
    }

    /// The comparison behind the guard: `shared` says whether the nodes were
    /// found to be comparable.
    pub fn cmp_given(&self, other: &ENode, shared: bool) -> (out: Result<Ordering, IdentityError>)
        requires
            shared ==> self.comparable(other),
        ensures
            out == guarded_key_order(self.key(), other.key(), shared),
    {
        if shared {
            Ok(self.cmp(other))
        } else {
            Err(IdentityError::RegistryMismatch)
        }
    }

    /// Equality for callers that cannot show that the nodes are comparable:
    /// two plain operators of different registry instances give
    /// `RegistryMismatch`, never `false`. Nodes of which one is no plain
    /// operator always get an answer.
    pub fn checked_eq(&self, other: &ENode) -> (out: Result<bool, IdentityError>)
        ensures
            out is Ok ==> self.comparable(other),
            !(self.key().rank == 0 && other.key().rank == 0) ==> out is Ok,
            out == guarded_key_eq(self.key(), other.key(), out is Ok),
    {
        let shared = self.shares_registry(other);
        self.eq_given(other, shared)
    }

    /// Comparison for callers that cannot show that the nodes are comparable:
    /// two plain operators of different registry instances give
    /// `RegistryMismatch`. Nodes of which one is no plain operator always get
    /// an answer.
    pub fn checked_cmp(&self, other: &ENode) -> (out: Result<Ordering, IdentityError>)
        ensures
            out is Ok ==> self.comparable(other),
            !(self.key().rank == 0 && other.key().rank == 0) ==> out is Ok,
            out == guarded_key_order(self.key(), other.key(), out is Ok),
    {
        let shared = self.shares_registry(other);
        self.cmp_given(other, shared)
    }
}

/// Among plain operators the order of keys is the order of identities.
pub proof fn lemma_key_order_of_simple_nodes(a: SimpleNode, b: SimpleNode)
    ensures
        key_order(ENode::Node(Node::Simple(a)).key(), ENode::Node(Node::Simple(b)).key())
            == identity_order(a@, b@),
        ENode::Node(Node::Simple(a)).key() == ENode::Node(Node::Simple(b)).key() <==> a@ == b@,
{
}

/// Equality of keys is an equivalence.
pub proof fn lemma_key_eq_is_equivalence(a: Key, b: Key, c: Key)
    ensures
        a == a,
        (a == b) == (b == a),
        a == b && b == c ==> a == c,
{
}

/// The order agrees with equality: two keys compare `Equal` exactly when they
/// are equal.
pub proof fn lemma_key_order_consistent(a: Key, b: Key)
    ensures
        key_order(a, b) == Ordering::Equal <==> a == b,
{
    lemma_lex_irreflexive(a.kids);
}

/// Swapping the two keys swaps `Less` and `Greater`.
pub proof fn lemma_key_order_antisymmetric(a: Key, b: Key)
    ensures
        key_order(a, b) == Ordering::Less <==> key_order(b, a) == Ordering::Greater,
        key_order(a, b) == Ordering::Greater <==> key_order(b, a) == Ordering::Less,
{
    lemma_lex_total(a.kids, b.kids);
    if lex_less(a.kids, b.kids) {
        lemma_lex_asymmetric(a.kids, b.kids);
    }
    if lex_less(b.kids, a.kids) {
        lemma_lex_asymmetric(b.kids, a.kids);
    }
}

proof fn lemma_key_less_chain(a: Key, b: Key, c: Key)
    requires
        key_order(a, b) == Ordering::Less,
        key_order(b, c) == Ordering::Less,
    ensures
        key_order(a, c) == Ordering::Less,
{
    lemma_lex_irreflexive(a.kids);
    lemma_lex_irreflexive(b.kids);
    if lex_less(a.kids, b.kids) && lex_less(b.kids, c.kids) {
        lemma_lex_transitive(a.kids, b.kids, c.kids);
        lemma_lex_asymmetric(a.kids, c.kids);
    }
}

/// Coming before is transitive, and so is coming after.
pub proof fn lemma_key_order_transitive(a: Key, b: Key, c: Key)
    ensures
        key_order(a, b) == Ordering::Less && key_order(b, c) == Ordering::Less ==> key_order(a, c)
            == Ordering::Less,
        key_order(a, b) == Ordering::Greater && key_order(b, c) == Ordering::Greater ==> key_order(
            a,
            c,
        ) == Ordering::Greater,
{
    lemma_key_order_antisymmetric(a, b);
    lemma_key_order_antisymmetric(b, c);
    lemma_key_order_antisymmetric(a, c);
    if key_order(a, b) == Ordering::Less && key_order(b, c) == Ordering::Less {
        lemma_key_less_chain(a, b, c);
    }
    if key_order(c, b) == Ordering::Less && key_order(b, a) == Ordering::Less {
        lemma_key_less_chain(c, b, a);
    }
}

} // verus!
