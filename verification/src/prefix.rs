//! Walking a sequence from the front: what holds of a prefix, and of the
//! prefix that is one element longer.

use vstd::prelude::*;

verus! {

/// The prefix of no elements is empty, and the prefix of all elements is the
/// sequence itself.
pub proof fn lemma_prefix_ends<T>(s: Seq<T>)
    ensures
        s.take(0) == Seq::<T>::empty(),
        s.take(s.len() as int) == s,
{
    assert(s.take(0) =~= Seq::<T>::empty());
    assert(s.take(s.len() as int) =~= s);
}

/// The prefix that is one element longer ends in the element at `i` and has
/// the shorter prefix before it.
pub proof fn lemma_prefix_grows<T>(s: Seq<T>, i: int)
    requires
        0 <= i < s.len(),
    ensures
        s.take(i + 1).len() == i + 1,
        s.take(i + 1).drop_last() == s.take(i),
        s.take(i + 1).last() == s[i],
{
    assert(s.take(i + 1).drop_last() =~= s.take(i));
}

} // verus!
