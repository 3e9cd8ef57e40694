//! Facts about `Seq::filter_map` that the laws of the listing rest on.

use vstd::multiset::Multiset;
use vstd::prelude::*;
use vstd::seq_lib::lemma_multiset_commutative;

verus! {

/// Filtering and mapping two sequences one after the other is filtering and
/// mapping the two of them joined.
pub proof fn lemma_filter_map_concat<A, B>(s: Seq<A>, t: Seq<A>, f: spec_fn(A) -> Option<B>)
    ensures
        (s + t).filter_map(f) == s.filter_map(f) + t.filter_map(f),
    decreases t.len(),
{
    if t.len() == 0 {
        assert(s + t == s);
        assert(s.filter_map(f) + t.filter_map(f) == s.filter_map(f));
    } else {
        let joined = s + t;
        assert(joined.drop_last() == s + t.drop_last());
        assert(joined.last() == t.last());
        lemma_filter_map_concat(s, t.drop_last(), f);
        match f(t.last()) {
            Some(b) => {
                assert(joined.filter_map(f) == (s.filter_map(f) + t.drop_last().filter_map(f))
                    + seq![b]);
                assert((s.filter_map(f) + t.drop_last().filter_map(f)) + seq![b] == s.filter_map(f)
                    + (t.drop_last().filter_map(f) + seq![b]));
            },
            None => {},
        }
    }
}

/// What filtering and mapping keeps of a sequence, counted without regard to
/// order, depends only on what the sequence holds, counted without regard to
/// order.
pub proof fn lemma_filter_map_permutation<A, B>(s: Seq<A>, t: Seq<A>, f: spec_fn(A) -> Option<B>)
    requires
        s.to_multiset() == t.to_multiset(),
    ensures
        s.filter_map(f).to_multiset() == t.filter_map(f).to_multiset(),
    decreases s.len(),
{
    broadcast use vstd::seq_lib::group_to_multiset_ensures;

    if s.len() == 0 {
        assert(s.to_multiset().len() == s.len());
        assert(t.to_multiset().len() == t.len());
        assert(s == t);
    } else {
        let x = s.last();
        let rest = s.drop_last();
        assert(s == rest.push(x));
        assert(s.to_multiset() == rest.to_multiset().insert(x));
        assert(t.to_multiset().count(x) > 0);
        assert(t.contains(x));
        let j = choose|j: int| 0 <= j < t.len() && t[j] == x;
        let others = t.remove(j);
        assert(others.to_multiset() == t.to_multiset().remove(x));
        assert(rest.to_multiset() == others.to_multiset()) by {
            assert(rest.to_multiset().insert(x).remove(x) == rest.to_multiset());
        }
        lemma_filter_map_permutation(rest, others, f);
        let front = t.take(j);
        let back = t.skip(j + 1);
        assert(others == front + back);
        assert(t == (front + seq![x]) + back);
        lemma_filter_map_concat(front, back, f);
        lemma_filter_map_concat(front + seq![x], back, f);
        lemma_filter_map_concat(front, seq![x], f);
        Seq::lemma_filter_map_singleton(x, f);
        lemma_multiset_commutative(front.filter_map(f), back.filter_map(f));
        lemma_multiset_commutative(
            front.filter_map(f) + seq![x].filter_map(f),
            back.filter_map(f),
        );
        lemma_multiset_commutative(front.filter_map(f), seq![x].filter_map(f));
        match f(x) {
            Some(b) => {
                assert(s.filter_map(f) == rest.filter_map(f).push(b));
                assert(seq![x].filter_map(f) == seq![b]);
                assert(seq![b].to_multiset() == Multiset::<B>::empty().insert(b)) by {
                    assert(seq![b] == Seq::<B>::empty().push(b));
                }
                assert(t.filter_map(f).to_multiset() == others.filter_map(f).to_multiset().insert(
                    b,
                ));
            },
            None => {
                assert(seq![x].filter_map(f) == Seq::<B>::empty());
                assert(front.filter_map(f) + Seq::<B>::empty() == front.filter_map(f));
            },
        }
    }
}

} // verus!
