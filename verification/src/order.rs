//! Lexicographic order on position sequences, with the facts that make it a
//! strict total order.

use core::cmp::Ordering;
use vstd::prelude::*;

verus! {

/// `a` and `b` both have at least `k` slots and hold the same position in each
/// of the first `k`.
pub open spec fn agree_before(a: Seq<u32>, b: Seq<u32>, k: int) -> bool {
    &&& 0 <= k <= a.len()
    &&& k <= b.len()
    &&& forall|j: int| 0 <= j < k ==> a[j] == b[j]
}

/// `a` comes strictly before `b`: after some common prefix either `a` ends and
/// `b` goes on, or `a` holds the smaller position.
pub open spec fn lex_less(a: Seq<u32>, b: Seq<u32>) -> bool {
    exists|k: int|
        #[trigger] agree_before(a, b, k) && k < b.len() && (k == a.len() || a[k] < b[k])
}

/// The three-way comparison that goes with `lex_less`.
pub open spec fn lex_order(a: Seq<u32>, b: Seq<u32>) -> Ordering {
    if a == b {
        Ordering::Equal
    } else if lex_less(a, b) {
        Ordering::Less
    } else {
        Ordering::Greater
    }
}

/// The first slot from `i` on at which `a` and `b` differ or one of them ends.
pub open spec fn first_split(a: Seq<u32>, b: Seq<u32>, i: int) -> int
    decreases a.len() - i,
{
    if 0 <= i < a.len() && i < b.len() && a[i] == b[i] {
        first_split(a, b, i + 1)
    } else {
        i
    }
}

proof fn lemma_first_split(a: Seq<u32>, b: Seq<u32>, i: int)
    requires
        agree_before(a, b, i),
    ensures
        agree_before(a, b, first_split(a, b, i)),
        ({
            let k = first_split(a, b, i);
            k == a.len() || k == b.len() || a[k] != b[k]
        }),
    decreases a.len() - i,
{
    if 0 <= i < a.len() && i < b.len() && a[i] == b[i] {
        lemma_first_split(a, b, i + 1);
    }
}

/// No sequence comes before itself.
pub proof fn lemma_lex_irreflexive(a: Seq<u32>)
    ensures
        !lex_less(a, a),
{
}

/// Of two sequences at most one comes before the other.
pub proof fn lemma_lex_asymmetric(a: Seq<u32>, b: Seq<u32>)
    requires
        lex_less(a, b),
    ensures
        !lex_less(b, a),
{
    if lex_less(b, a) {
        let k = choose|k: int|
            #[trigger] agree_before(a, b, k) && k < b.len() && (k == a.len() || a[k] < b[k]);
        let m = choose|m: int|
            #[trigger] agree_before(b, a, m) && m < a.len() && (m == b.len() || b[m] < a[m]);
        if k < m {
            assert(b[k] == a[k]);
        } else if m < k {
            assert(a[m] == b[m]);
        }
    }
}

/// Coming before is transitive.
pub proof fn lemma_lex_transitive(a: Seq<u32>, b: Seq<u32>, c: Seq<u32>)
    requires
        lex_less(a, b),
        lex_less(b, c),
    ensures
        lex_less(a, c),
{
    let k = choose|k: int|
        #[trigger] agree_before(a, b, k) && k < b.len() && (k == a.len() || a[k] < b[k]);
    let m = choose|m: int|
        #[trigger] agree_before(b, c, m) && m < c.len() && (m == b.len() || b[m] < c[m]);
    let n = if k <= m {
        k
    } else {
        m
    };
    assert(agree_before(a, c, n));
}

/// Two different sequences are ordered one way or the other.
pub proof fn lemma_lex_total(a: Seq<u32>, b: Seq<u32>)
    ensures
        a == b || lex_less(a, b) || lex_less(b, a),
{
    let k = first_split(a, b, 0);
    lemma_first_split(a, b, 0);
    if k == a.len() && k == b.len() {
        assert(a =~= b);
    } else if k == a.len() {
        assert(agree_before(a, b, k));
    } else if k == b.len() {
        assert(agree_before(b, a, k));
    } else if a[k] < b[k] {
        assert(agree_before(a, b, k));
    } else {
        assert(agree_before(b, a, k));
    }
}

/// Swapping the arguments of `lex_order` turns `Less` into `Greater` and back,
/// and `Equal` is returned for equal sequences only.
pub proof fn lemma_lex_order_swaps(a: Seq<u32>, b: Seq<u32>)
    ensures
        lex_order(a, b) == Ordering::Equal <==> a == b,
        lex_order(a, b) == Ordering::Less <==> lex_order(b, a) == Ordering::Greater,
        lex_order(a, b) == Ordering::Greater <==> lex_less(b, a),
{
    lemma_lex_total(a, b);
    lemma_lex_irreflexive(a);
    if lex_less(a, b) {
        lemma_lex_asymmetric(a, b);
    }
    if lex_less(b, a) {
        lemma_lex_asymmetric(b, a);
    }
}

} // verus!
