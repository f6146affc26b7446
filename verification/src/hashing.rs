//! Hashing of nodes: which bytes a node feeds to a hasher, and the proof that
//! those bytes are the node's identity and nothing else.

use crate::children::Position;
use crate::key::Key;
use crate::node::ENode;
use crate::simple::SimpleNode;
use std::collections::hash_map::DefaultHasher;
use std::hash::Hasher;
use vstd::bytes::{
    lemma_auto_spec_u32_to_from_le_bytes, lemma_auto_spec_u64_to_from_le_bytes,
    spec_u32_from_le_bytes, spec_u32_to_le_bytes, spec_u64_from_le_bytes, spec_u64_to_le_bytes,
    u32_to_le_bytes, u64_to_le_bytes,
};
use vstd::prelude::*;
use vstd::std_specs::hash::DefaultHasherAdditionalSpecFns;

verus! {

/// The writes by which an identity is fed to a hasher: the operator id, the
/// number of children, then each child position in order, every number in
/// little-endian bytes. No name of the registry is among them.
pub open spec fn identity_stream(id: (u32, Seq<Position>)) -> Seq<Seq<u8>> {
    seq![spec_u32_to_le_bytes(id.0), spec_u64_to_le_bytes(id.1.len() as u64)] + Seq::new(
        id.1.len(),
        |i: int| spec_u32_to_le_bytes(id.1[i]),
    )
}

impl SimpleNode {
    /// Feeds the node's identity to `state`, after whatever was fed before.
    pub fn hash(&self, state: &mut DefaultHasher)
        ensures
            final(state)@ == old(state)@ + identity_stream(self@),
    {
        let ghost stream = identity_stream(self@);
        let op_bytes = u32_to_le_bytes(self.node_id());
        state.write(op_bytes.as_slice());
        let kids = self.children().as_slice();
        let len_bytes = u64_to_le_bytes(kids.len() as u64);
        state.write(len_bytes.as_slice());
        assert(state@ =~= old(state)@ + stream.take(2));
        let mut i: usize = 0;
        while i < kids.len()
            invariant
                i <= kids.len(),
                kids@ == self@.1,
                stream == identity_stream(self@),
                state@ == old(state)@ + stream.take(2 + i),
            decreases kids.len() - i,
        {
            let kid_bytes = u32_to_le_bytes(kids[i]);
            state.write(kid_bytes.as_slice());
            assert(state@ =~= old(state)@ + stream.take(2 + i + 1));
            i += 1;
        }
        assert(stream.take(2 + i) =~= stream);
    }

    /// The hash of the node under a freshly made default hasher.
    pub fn hash_value(&self) -> (out: u64)
        ensures
            out == DefaultHasher::spec_finish(identity_stream(self@)),
    {
        let mut state = DefaultHasher::new();
        self.hash(&mut state);
        assert(state@ =~= identity_stream(self@));
        state.finish()
    }
}

/// Equal identities feed equal bytes, so equal nodes hash alike under any
/// hasher state.
pub proof fn lemma_equal_identities_hash_alike(a: (u32, Seq<Position>), b: (u32, Seq<Position>))
    requires
        a == b,
    ensures
        identity_stream(a) == identity_stream(b),
        DefaultHasher::spec_finish(identity_stream(a)) == DefaultHasher::spec_finish(
            identity_stream(b),
        ),
{
}

/// Different identities feed different bytes: the stream leaves out nothing
/// that equality reads.
pub proof fn lemma_identity_stream_is_injective(a: (u32, Seq<Position>), b: (u32, Seq<Position>))
    requires
        identity_stream(a) == identity_stream(b),
    ensures
        a == b,
{
    lemma_auto_spec_u32_to_from_le_bytes();
    let sa = identity_stream(a);
    let sb = identity_stream(b);
    assert(sa.len() == 2 + a.1.len());
    assert(sb.len() == 2 + b.1.len());
    assert(sa[0] == spec_u32_to_le_bytes(a.0));
    assert(sb[0] == spec_u32_to_le_bytes(b.0));
    assert(spec_u32_from_le_bytes(sa[0]) == a.0);
    assert forall|i: int| 0 <= i < a.1.len() implies a.1[i] == b.1[i] by {
        assert(sa[2 + i] == spec_u32_to_le_bytes(a.1[i]));
        assert(sb[2 + i] == spec_u32_to_le_bytes(b.1[i]));
        assert(spec_u32_from_le_bytes(sa[2 + i]) == a.1[i]);
    }
    assert(a.1 =~= b.1);
}

/// The writes by which a key is fed to a hasher: the rank, the two fields
/// before the children, the number of children, each child position in order,
/// then the two fields after the children.
pub open spec fn key_stream(key: Key) -> Seq<Seq<u8>> {
    seq![
        spec_u64_to_le_bytes(key.rank),
        spec_u64_to_le_bytes(key.head.0),
        spec_u64_to_le_bytes(key.head.1),
        spec_u64_to_le_bytes(key.kids.len() as u64),
    ] + Seq::new(key.kids.len(), |i: int| spec_u32_to_le_bytes(key.kids[i])) + seq![
        spec_u64_to_le_bytes(key.tail.0),
        spec_u64_to_le_bytes(key.tail.1),
    ]
}

fn write_number(state: &mut DefaultHasher, number: u64)
    ensures
        final(state)@ == old(state)@.push(spec_u64_to_le_bytes(number)),
{
    let bytes = u64_to_le_bytes(number);
    state.write(bytes.as_slice());
}

impl ENode {
    /// Feeds the node's key to `state`, after whatever was fed before.
    pub fn hash(&self, state: &mut DefaultHasher)
        ensures
            final(state)@ == old(state)@ + key_stream(self.key()),
    {
        let ghost stream = key_stream(self.key());
        let head = self.head();
        let tail = self.tail();
        let kids = self.children();
        write_number(state, self.rank());
        write_number(state, head.0);
        write_number(state, head.1);
        write_number(state, kids.len() as u64);
        assert(state@ =~= old(state)@ + stream.take(4));
        let mut i: usize = 0;
        while i < kids.len()
            invariant
                i <= kids.len(),
                kids@ == self.key().kids,
                stream == key_stream(self.key()),
                state@ == old(state)@ + stream.take(4 + i),
            decreases kids.len() - i,
        {
            let kid_bytes = u32_to_le_bytes(kids[i]);
            state.write(kid_bytes.as_slice());
            assert(state@ =~= old(state)@ + stream.take(4 + i + 1));
            i += 1;
        }
        write_number(state, tail.0);
        write_number(state, tail.1);
        assert(state@ =~= old(state)@ + stream);
    }

    /// The hash of the node under a freshly made default hasher.
    pub fn hash_value(&self) -> (out: u64)
        ensures
            out == DefaultHasher::spec_finish(key_stream(self.key())),
    {
        let mut state = DefaultHasher::new();
        self.hash(&mut state);
        assert(state@ =~= key_stream(self.key()));
        state.finish()
    }
}

/// Equal keys feed equal bytes, so equal nodes hash alike under any hasher
/// state.
pub proof fn lemma_equal_keys_hash_alike(a: Key, b: Key)
    requires
        a == b,
    ensures
        key_stream(a) == key_stream(b),
        DefaultHasher::spec_finish(key_stream(a)) == DefaultHasher::spec_finish(key_stream(b)),
{
}

/// Different keys feed different bytes: the stream leaves out nothing that
/// equality reads.
pub proof fn lemma_key_stream_is_injective(a: Key, b: Key)
    requires
        key_stream(a) == key_stream(b),
    ensures
        a == b,
{
    lemma_auto_spec_u32_to_from_le_bytes();
    lemma_auto_spec_u64_to_from_le_bytes();
    let sa = key_stream(a);
    let sb = key_stream(b);
    let n = a.kids.len() as int;
    assert(sa.len() == 6 + a.kids.len());
    assert(sb.len() == 6 + b.kids.len());
    assert(sa[0] == spec_u64_to_le_bytes(a.rank) && sb[0] == spec_u64_to_le_bytes(b.rank));
    assert(spec_u64_from_le_bytes(sa[0]) == a.rank);
    assert(sa[1] == spec_u64_to_le_bytes(a.head.0) && sb[1] == spec_u64_to_le_bytes(b.head.0));
    assert(spec_u64_from_le_bytes(sa[1]) == a.head.0);
    assert(sa[2] == spec_u64_to_le_bytes(a.head.1) && sb[2] == spec_u64_to_le_bytes(b.head.1));
    assert(spec_u64_from_le_bytes(sa[2]) == a.head.1);
    assert(sa[4 + n] == spec_u64_to_le_bytes(a.tail.0) && sb[4 + n] == spec_u64_to_le_bytes(
        b.tail.0,
    ));
    assert(spec_u64_from_le_bytes(sa[4 + n]) == a.tail.0);
    assert(sa[5 + n] == spec_u64_to_le_bytes(a.tail.1) && sb[5 + n] == spec_u64_to_le_bytes(
        b.tail.1,
    ));
    assert(spec_u64_from_le_bytes(sa[5 + n]) == a.tail.1);
    assert forall|i: int| 0 <= i < a.kids.len() implies a.kids[i] == b.kids[i] by {
        assert(sa[4 + i] == spec_u32_to_le_bytes(a.kids[i]));
        assert(sb[4 + i] == spec_u32_to_le_bytes(b.kids[i]));
        assert(spec_u32_from_le_bytes(sa[4 + i]) == a.kids[i]);
    }
    assert(a.kids =~= b.kids);
}

} // verus!
