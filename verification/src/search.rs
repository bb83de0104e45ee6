//! The first position at which a property holds, and the positions of a
//! sequence of attributes that satisfy a property.

use vstd::prelude::*;
use crate::syntax::Attr;

verus! {

/// `j` is the first position below `n` at which `p` holds.
pub open spec fn is_first(p: spec_fn(int) -> bool, n: int, j: int) -> bool {
    &&& 0 <= j < n
    &&& p(j)
    &&& forall|m: int| 0 <= m < j ==> !#[trigger] p(m)
}

/// The first position below `n` at which `p` holds, if any.
pub open spec fn first(p: spec_fn(int) -> bool, n: int) -> Option<int> {
    if exists|j: int| is_first(p, n, j) {
        Some(choose|j: int| is_first(p, n, j))
    } else {
        None
    }
}

/// There is one first position, and `first` finds it.
pub proof fn lemma_first_is(p: spec_fn(int) -> bool, n: int, j: int)
    requires
        is_first(p, n, j),
    ensures
        first(p, n) == Some(j),
{
    let k = choose|k: int| is_first(p, n, k);
    assert(is_first(p, n, k));
    if k < j {
        assert(!p(k));
    } else if j < k {
        assert(!p(j));
    }
}

/// `first` finds nothing exactly when `p` holds nowhere below `n`.
pub proof fn lemma_first_none(p: spec_fn(int) -> bool, n: int)
    ensures
        first(p, n) is None <==> forall|m: int| 0 <= m < n ==> !#[trigger] p(m),
{
    if first(p, n) is None {
        assert forall|m: int| 0 <= m < n implies !#[trigger] p(m) by {
            if p(m) {
                lemma_some_first(p, n, m);
            }
        }
    } else {
        let j = first(p, n)->0;
        assert(is_first(p, n, j));
    }
}

/// Where `p` holds somewhere below `n`, it holds first somewhere.
pub proof fn lemma_some_first(p: spec_fn(int) -> bool, n: int, m: int)
    requires
        0 <= m < n,
        p(m),
    ensures
        first(p, n) is Some,
    decreases m,
{
    if forall|k: int| 0 <= k < m ==> !#[trigger] p(k) {
        assert(is_first(p, n, m));
    } else {
        let k = choose|k: int| 0 <= k < m && #[trigger] p(k);
        lemma_some_first(p, n, k);
    }
}

/// The positions of `s` whose element satisfies `p`, in increasing order.
pub open spec fn positions(s: Seq<Attr>, p: spec_fn(Attr) -> bool) -> Seq<usize>
    decreases s.len(),
{
    if s.len() == 0 {
        Seq::empty()
    } else {
        let rest = positions(s.drop_last(), p);
        if p(s.last()) {
            rest.push((s.len() - 1) as usize)
        } else {
            rest
        }
    }
}

/// Extending a prefix by one element extends its positions by at most that one.
pub proof fn lemma_positions_step(s: Seq<Attr>, p: spec_fn(Attr) -> bool, j: int)
    requires
        0 <= j < s.len(),
    ensures
        positions(s.take(j + 1), p) == if p(s[j]) {
            positions(s.take(j), p).push(j as usize)
        } else {
            positions(s.take(j), p)
        },
{
    assert(s.take(j + 1).drop_last() =~= s.take(j));
    assert(s.take(j + 1).last() == s[j]);
}

} // verus!
