//! Facts about sequences that the table operations share.

use vstd::prelude::*;

verus! {

/// Filtering one more element of a prefix appends it when it is kept.
pub proof fn lemma_filter_step<A>(s: Seq<A>, i: int, pred: spec_fn(A) -> bool)
    requires
        0 <= i < s.len(),
    ensures
        s.subrange(0, i + 1).filter(pred) == (if pred(s[i]) {
            s.subrange(0, i).filter(pred).push(s[i])
        } else {
            s.subrange(0, i).filter(pred)
        }),
{
    reveal(Seq::filter);
    assert(s.subrange(0, i + 1).drop_last() =~= s.subrange(0, i));
}

/// Every element of a filtered sequence is an element of the sequence.
pub proof fn lemma_filter_member<A>(s: Seq<A>, pred: spec_fn(A) -> bool, k: int)
    requires
        0 <= k < s.filter(pred).len(),
    ensures
        exists|j: int| 0 <= j < s.len() && s[j] == s.filter(pred)[k],
    decreases s.len(),
{
    reveal(Seq::filter);
    let sub = s.drop_last().filter(pred);
    if pred(s.last()) && k == sub.len() {
        assert(s[s.len() - 1] == s.filter(pred)[k]);
    } else {
        lemma_filter_member(s.drop_last(), pred, k);
        let j = choose|j: int| 0 <= j < s.drop_last().len() && s.drop_last()[j] == sub[k];
        assert(s[j] == s.filter(pred)[k]);
    }
}

} // verus!
