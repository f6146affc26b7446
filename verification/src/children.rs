//! The inline-allocated list of child positions that nodes carry.
//!
//! A node keeps its child positions in a `smallvec::SmallVec`. The verifier does
//! not look inside that type: this module hides it in `Children`, names what it
//! holds, and states for each `SmallVec` method the nodes call what the method
//! does to the held sequence. Those statements are believed, not proved; the
//! public methods of `Children` are proved from them.

use crate::order::lex_order;
use core::cmp::Ordering;
use smallvec::SmallVec;
use vstd::prelude::*;

verus! {

/// A position in the enclosing graph, as the rewriting engine numbers them.
pub type Position = u32;

/// The ordered child list of a node, stored inline while it is short.
#[verifier::external_body]
#[derive(Debug)]
pub struct Children {
    items: SmallVec<[Position; 4]>,
}

/// The positions that a child list holds, first to last.
pub uninterp spec fn positions(list: Children) -> Seq<Position>;

/// `SmallVec::from_slice`: a new list holding a copy of the slice, in order.
#[verifier::external_body]
pub(crate) fn collect_positions(slice: &[Position]) -> (out: Children)
    ensures
        positions(out) == slice@,
{
    Children { items: SmallVec::from_slice(slice) }
}

/// `SmallVec::as_slice`: the whole list as a slice, in order.
#[verifier::external_body]
pub(crate) fn borrow_positions(list: &Children) -> (out: &[Position])
    ensures
        out@ == positions(*list),
{
    list.items.as_slice()
}

/// `SmallVec::as_mut_slice`: the whole list as a mutable slice. The slice starts
/// out holding the list's positions, and what the caller leaves in the slice
/// is what the list holds afterwards. A slice cannot grow or shrink, so the
/// length stays.
#[verifier::external_body]
pub(crate) fn borrow_positions_mut(list: &mut Children) -> (out: &mut [Position])
    ensures
        out@ == positions(*old(list)),
        final(out)@.len() == out@.len(),
        positions(*final(list)) == final(out)@,
{
    list.items.as_mut_slice()
}

/// `SmallVec`'s `PartialEq::eq`, which compares the two lists as slices: they
/// are equal when they have one length and agree in every slot.
#[verifier::external_body]
pub(crate) fn same_positions(a: &Children, b: &Children) -> (out: bool)
    ensures
        out == (positions(*a) == positions(*b)),
{
    a.items.eq(&b.items)
}

/// `SmallVec`'s `Ord::cmp`, which compares the two lists as slices, that is
/// lexicographically: by the first slot in which they differ, and a list that
/// is a proper prefix of the other comes first.
#[verifier::external_body]
pub(crate) fn order_positions(a: &Children, b: &Children) -> (out: Ordering)
    ensures
        out == lex_order(positions(*a), positions(*b)),
{
    a.items.cmp(&b.items)
}

/// `SmallVec`'s `Clone::clone`: a second list holding the same positions.
#[verifier::external_body]
pub(crate) fn copy_positions(list: &Children) -> (out: Children)
    ensures
        positions(out) == positions(*list),
{
    Children { items: list.items.clone() }
}

impl View for Children {
    type V = Seq<Position>;

    open spec fn view(&self) -> Seq<Position> {
        positions(*self)
    }
}

impl Children {
    /// A list holding the given positions in the given order.
    pub fn from_slice(slice: &[Position]) -> (out: Children)
        ensures
            out@ == slice@,
    {
        collect_positions(slice)
    }

    /// The positions, first to last.
    pub fn as_slice(&self) -> (out: &[Position])
        ensures
            out@ == self@,
    {
        borrow_positions(self)
    }

    /// The positions for rewriting in place: what is left in the slice is what
    /// the list holds afterwards.
    pub fn as_mut_slice(&mut self) -> (out: &mut [Position])
        ensures
            out@ == old(self)@,
            final(out)@.len() == out@.len(),
            final(self)@ == final(out)@,
    {
        borrow_positions_mut(self)
    }

    /// How many positions the list holds.
    pub fn len(&self) -> (out: usize)
        ensures
            out == self@.len(),
    {
        borrow_positions(self).len()
    }
}

impl Clone for Children {
    fn clone(&self) -> (out: Children)
        ensures
            out@ == self@,
    {
        copy_positions(self)
    }
}

} // verus!
