use vstd::prelude::*;

verus! {

/// `i` is a position of `s`.
pub open spec fn is_index<A>(s: Seq<A>, i: int) -> bool {
    0 <= i < s.len()
}

/// The elements of `s` whose position is marked `true` in `keep`, in their
/// original order. Only the first `s.len()` marks are read.
pub open spec fn filter_by<T>(s: Seq<T>, keep: Seq<bool>) -> Seq<T>
    decreases s.len(),
{
    if s.len() == 0 {
        Seq::empty()
    } else {
        let n = s.len() - 1;
        let rest = filter_by(s.take(n), keep);
        if keep[n] {
            rest.push(s[n])
        } else {
            rest
        }
    }
}

/// Extending the filtered prefix by one position.
pub proof fn lemma_filter_by_step<T>(s: Seq<T>, keep: Seq<bool>, i: int)
    requires
        0 <= i < s.len(),
    ensures
        filter_by(s.take(i + 1), keep) == if keep[i] {
            filter_by(s.take(i), keep).push(s[i])
        } else {
            filter_by(s.take(i), keep)
        },
{
    assert(s.take(i + 1).take(i) =~= s.take(i));
}

/// Only the marks of the first `s.len()` positions matter.
pub proof fn lemma_filter_by_prefix_marks<T>(s: Seq<T>, keep1: Seq<bool>, keep2: Seq<bool>)
    requires
        s.len() <= keep1.len(),
        s.len() <= keep2.len(),
        forall|i: int| 0 <= i < s.len() ==> keep1[i] == keep2[i],
    ensures
        filter_by(s, keep1) == filter_by(s, keep2),
    decreases s.len(),
{
    if s.len() > 0 {
        lemma_filter_by_prefix_marks(s.take(s.len() - 1), keep1, keep2);
    }
}

/// A filtered sequence is never longer than the original.
pub proof fn lemma_filter_by_len<T>(s: Seq<T>, keep: Seq<bool>)
    ensures
        filter_by(s, keep).len() <= s.len(),
    decreases s.len(),
{
    if s.len() > 0 {
        lemma_filter_by_len(s.take(s.len() - 1), keep);
    }
}

/// Keeping every position gives the sequence back.
pub proof fn lemma_filter_by_all<T>(s: Seq<T>, keep: Seq<bool>)
    requires
        s.len() <= keep.len(),
        forall|i: int| 0 <= i < s.len() ==> keep[i],
    ensures
        filter_by(s, keep) == s,
    decreases s.len(),
{
    if s.len() > 0 {
        lemma_filter_by_all(s.take(s.len() - 1), keep);
        assert(s.take(s.len() - 1).push(s[s.len() - 1]) =~= s);
    }
}

/// Keeping no position gives the empty sequence.
pub proof fn lemma_filter_by_none<T>(s: Seq<T>, keep: Seq<bool>)
    requires
        s.len() <= keep.len(),
        forall|i: int| 0 <= i < s.len() ==> !keep[i],
    ensures
        filter_by(s, keep) == Seq::<T>::empty(),
    decreases s.len(),
{
    if s.len() > 0 {
        lemma_filter_by_none(s.take(s.len() - 1), keep);
    }
}

} // verus!
