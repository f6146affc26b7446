//! Plain operator applications and their identity: equality, total order, and
//! the registry guard that both stand behind.
//!
//! The identity of a simple node is its operator id together with its child
//! positions in order. The registry the node points to names the operator for
//! people; it decides nothing. Two nodes may be compared only when they point
//! to one registry.

use crate::children::{order_positions, same_positions, Children, Position};
use crate::order::{
    lemma_lex_asymmetric, lemma_lex_irreflexive, lemma_lex_total, lemma_lex_transitive, lex_less,
    lex_order,
};
use crate::registry::Registry;
use core::cmp::Ordering;
use std::rc::Rc;
use vstd::prelude::*;

verus! {

/// An operator applied to an ordered list of child positions.
#[derive(Debug, Clone)]
pub struct SimpleNode {
    db: Rc<Registry>,
    node_id: u32,
    children: Children,
}

/// What a comparison reports when its two nodes point to different registries.
#[derive(Debug, Clone, Copy, PartialEq, Eq)]
pub enum IdentityError {
    /// The nodes were built against two registries, so their operator ids do
    /// not speak of the same operators.
    RegistryMismatch,
}

/// `Rc::ptr_eq`: whether the two handles point to one allocation. Two handles
/// to one allocation hold one registry; of a `false` nothing follows, since two
/// allocations may hold equal tables.
#[verifier::external_body]
fn same_allocation(a: &Rc<Registry>, b: &Rc<Registry>) -> (out: bool)
    ensures
        out ==> *a == *b,
{
    Rc::ptr_eq(a, b)
}

/// The order of two identities: by operator id, and among equal ids by the
/// child lists, lexicographically.
pub open spec fn identity_order(a: (u32, Seq<Position>), b: (u32, Seq<Position>)) -> Ordering {
    if a.0 < b.0 {
        Ordering::Less
    } else if a.0 > b.0 {
        Ordering::Greater
    } else {
        lex_order(a.1, b.1)
    }
}

/// What a guarded equality test returns, given whether the registries were
/// found to be one.
pub open spec fn guarded_eq(a: (u32, Seq<Position>), b: (u32, Seq<Position>), shared: bool) -> Result<
    bool,
    IdentityError,
> {
    if shared {
        Ok(a == b)
    } else {
        Err(IdentityError::RegistryMismatch)
    }
}

/// What a guarded comparison returns, given whether the registries were found
/// to be one.
pub open spec fn guarded_order(
    a: (u32, Seq<Position>),
    b: (u32, Seq<Position>),
    shared: bool,
) -> Result<Ordering, IdentityError> {
    if shared {
        Ok(identity_order(a, b))
    } else {
        Err(IdentityError::RegistryMismatch)
    }
}

impl View for SimpleNode {
    type V = (u32, Seq<Position>);

    /// The identity of the node: its operator id and its child positions.
    closed spec fn view(&self) -> (u32, Seq<Position>) {
        (self.node_id, self.children@)
    }
}

impl SimpleNode {
    /// The names of the registry that the node points to.
    pub closed spec fn names(&self) -> Map<u32, Seq<char>> {
        self.db@
    }

    /// The two nodes point to registries that hold the same table. Handles to
    /// one registry always do.
    pub open spec fn same_registry(&self, other: &SimpleNode) -> bool {
        self.names() == other.names()
    }

    /// The node for operator `node_id` of registry `db`, applied to `children`.
    pub fn new(db: Rc<Registry>, node_id: u32, children: Children) -> (out: SimpleNode)
        ensures
            out@ == (node_id, children@),
            out.names() == db@,
    {
        SimpleNode { db, node_id, children }
    }

    /// The operator id.
    pub fn node_id(&self) -> (out: u32)
        ensures
            out == self@.0,
    {
        self.node_id
    }

    /// The registry that names the operator.
    pub fn registry(&self) -> (out: &Rc<Registry>)
        ensures
            out@ == self.names(),
    {
        &self.db
    }

    /// The child list.
    pub fn children(&self) -> (out: &Children)
        ensures
            out@ == self@.1,
    {
        &self.children
    }

    /// The child list, for rewriting positions in place. The operator id and
    /// the registry stay as they are.
    pub fn children_mut(&mut self) -> (out: &mut Children)
        ensures
            out@ == old(self)@.1,
            final(self)@ == (old(self)@.0, final(out)@),
            final(self).names() == old(self).names(),
    {
        &mut self.children
    }

    /// Whether the two nodes hold handles to one registry instance. `false`
    /// is returned for two separately built registries even when their tables
    /// are equal.
    pub fn shares_registry(&self, other: &SimpleNode) -> (out: bool)
        ensures
            out ==> self.same_registry(other),
    {
        same_allocation(&self.db, &other.db)
    }

    /// Whether the two nodes are the same: equal operator ids and equal child
    /// lists, slot by slot.
    pub fn eq(&self, other: &SimpleNode) -> (out: bool)
        requires
            self.same_registry(other),
        ensures
            out == (self@ == other@),
    {
        self.node_id == other.node_id && same_positions(&self.children, &other.children)
    }

    /// Where `self` stands relative to `other`: by operator id first, then by
    /// the child lists.
    pub fn cmp(&self, other: &SimpleNode) -> (out: Ordering)
        requires
            self.same_registry(other),
        ensures
            out == identity_order(self@, other@),
    {
        if self.node_id < other.node_id {
            Ordering::Less
        } else if self.node_id > other.node_id {
            Ordering::Greater
        } else {
            order_positions(&self.children, &other.children)
        }
    }

    /// As `cmp`: the order is total, so the answer is never `None`.
    pub fn partial_cmp(&self, other: &SimpleNode) -> (out: Option<Ordering>)
        requires
            self.same_registry(other),
        ensures
            out == Some(identity_order(self@, other@)),
    {
        Some(self.cmp(other))
    }

    /// The equality test behind the guard: `shared` says whether the registry
    /// handles were found to be one.
    pub fn eq_given(&self, other: &SimpleNode, shared: bool) -> (out: Result<bool, IdentityError>)
        requires
            shared ==> self.same_registry(other),
        ensures
            out == guarded_eq(self@, other@, shared),
    {
        if shared {
            Ok(self.eq(other))
        } else {
            Err(IdentityError::RegistryMismatch)
        }
    }

    /// The comparison behind the guard: `shared` says whether the registry
    /// handles were found to be one.
    pub fn cmp_given(&self, other: &SimpleNode, shared: bool) -> (out: Result<
        Ordering,
        IdentityError,
    >)
        requires
            shared ==> self.same_registry(other),
        ensures
            out == guarded_order(self@, other@, shared),
    {
        if shared {
            Ok(self.cmp(other))
        } else {
            Err(IdentityError::RegistryMismatch)
        }
    }

    /// Equality for callers that cannot show that the registries are one: the
    /// handles are tested first, and two nodes of different registry instances
    /// give `RegistryMismatch`, never `false`.
    pub fn checked_eq(&self, other: &SimpleNode) -> (out: Result<bool, IdentityError>)
        ensures
            out is Ok ==> self.same_registry(other),
            out == guarded_eq(self@, other@, out is Ok),
    {
        let shared = self.shares_registry(other);
        self.eq_given(other, shared)
    }

    /// Comparison for callers that cannot show that the registries are one: the
    /// handles are tested first, and two nodes of different registry instances
    /// give `RegistryMismatch`.
    pub fn checked_cmp(&self, other: &SimpleNode) -> (out: Result<Ordering, IdentityError>)
        ensures
            out is Ok ==> self.same_registry(other),
            out == guarded_order(self@, other@, out is Ok),
    {
        let shared = self.shares_registry(other);
        self.cmp_given(other, shared)
    }
}

/// Equality of identities is an equivalence: every identity equals itself,
/// equality can be read both ways, and it carries over a middle term.
pub proof fn lemma_identity_eq_is_equivalence(
    a: (u32, Seq<Position>),
    b: (u32, Seq<Position>),
    c: (u32, Seq<Position>),
)
    ensures
        a == a,
        (a == b) == (b == a),
        a == b && b == c ==> a == c,
        a == b <==> a.0 == b.0 && a.1.len() == b.1.len() && forall|i: int|
            0 <= i < a.1.len() ==> a.1[i] == b.1[i],
{
    if a.0 == b.0 && a.1.len() == b.1.len() && forall|i: int|
        0 <= i < a.1.len() ==> a.1[i] == b.1[i] {
        assert(a.1 =~= b.1);
    }
}

/// The order agrees with equality: two identities compare `Equal` exactly when
/// they are equal, so exactly one of before, equal and after holds of any two.
pub proof fn lemma_identity_order_consistent(a: (u32, Seq<Position>), b: (u32, Seq<Position>))
    ensures
        identity_order(a, b) == Ordering::Equal <==> a == b,
{
    lemma_lex_irreflexive(a.1);
}

/// Swapping the two identities swaps `Less` and `Greater`.
pub proof fn lemma_identity_order_antisymmetric(a: (u32, Seq<Position>), b: (u32, Seq<Position>))
    ensures
        identity_order(a, b) == Ordering::Less <==> identity_order(b, a) == Ordering::Greater,
        identity_order(a, b) == Ordering::Greater <==> identity_order(b, a) == Ordering::Less,
{
    lemma_lex_total(a.1, b.1);
    if lex_less(a.1, b.1) {
        lemma_lex_asymmetric(a.1, b.1);
    }
    if lex_less(b.1, a.1) {
        lemma_lex_asymmetric(b.1, a.1);
    }
}

/// Coming before is transitive, and so is coming after.
pub proof fn lemma_identity_order_transitive(
    a: (u32, Seq<Position>),
    b: (u32, Seq<Position>),
    c: (u32, Seq<Position>),
)
    ensures
        identity_order(a, b) == Ordering::Less && identity_order(b, c) == Ordering::Less
            ==> identity_order(a, c) == Ordering::Less,
        identity_order(a, b) == Ordering::Greater && identity_order(b, c) == Ordering::Greater
            ==> identity_order(a, c) == Ordering::Greater,
{
    lemma_identity_order_antisymmetric(a, b);
    lemma_identity_order_antisymmetric(b, c);
    lemma_identity_order_antisymmetric(a, c);
    if identity_order(a, b) == Ordering::Less && identity_order(b, c) == Ordering::Less {
        lemma_less_chain(a, b, c);
    }
    if identity_order(c, b) == Ordering::Less && identity_order(b, a) == Ordering::Less {
        lemma_less_chain(c, b, a);
    }
}

proof fn lemma_less_chain(
    a: (u32, Seq<Position>),
    b: (u32, Seq<Position>),
    c: (u32, Seq<Position>),
)
    requires
        identity_order(a, b) == Ordering::Less,
        identity_order(b, c) == Ordering::Less,
    ensures
        identity_order(a, c) == Ordering::Less,
{
    if a.0 == b.0 && b.0 == c.0 {
        lemma_lex_transitive(a.1, b.1, c.1);
        lemma_lex_irreflexive(a.1);
    }
}

/// Two child lists that hold the same two different positions in opposite
/// order give different identities.
pub proof fn lemma_child_order_matters(op: u32, p1: Position, p2: Position)
    requires
        p1 != p2,
    ensures
        (op, seq![p1, p2]) != (op, seq![p2, p1]),
        identity_order((op, seq![p1, p2]), (op, seq![p2, p1])) != Ordering::Equal,
{
    assert(seq![p1, p2][0] == p1);
    assert(seq![p2, p1][0] == p2);
    lemma_identity_order_consistent((op, seq![p1, p2]), (op, seq![p2, p1]));
}

} // verus!
