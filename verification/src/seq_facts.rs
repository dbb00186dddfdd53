//! General facts about filtering a sequence, shared by the two engines:
//! filtering with an always-true predicate keeps the sequence, filtering is
//! idempotent, and a filtered sequence is a subsequence of the original.

use vstd::prelude::*;

verus! {

/// `a` can be read off `b` by deleting elements of `b`, keeping the
/// remaining elements in their original order.
pub open spec fn is_subsequence_of<A>(a: Seq<A>, b: Seq<A>) -> bool
    decreases b.len(),
{
    if b.len() == 0 {
        a.len() == 0
    } else if a.len() == 0 {
        true
    } else if a.last() == b.last() {
        is_subsequence_of(a.drop_last(), b.drop_last())
    } else {
        is_subsequence_of(a, b.drop_last())
    }
}

/// Appending one element to a sequence splits it into all but the last
/// element and the last element.
proof fn lemma_unsnoc<A>(s: Seq<A>)
    requires
        s.len() > 0,
    ensures
        s.drop_last().push(s.last()) == s,
{
    assert(s.drop_last().push(s.last()) =~= s);
}

/// Filtering distributes over appending one element.
pub proof fn lemma_filter_push<A>(s: Seq<A>, pred: spec_fn(A) -> bool, x: A)
    ensures
        s.push(x).filter(pred) == if pred(x) {
            s.filter(pred).push(x)
        } else {
            s.filter(pred)
        },
{
    reveal(Seq::filter);
    assert(s.push(x).drop_last() =~= s);
    assert(s.push(x).last() == x);
}

/// Filtering with a predicate that holds of every element keeps the
/// sequence unchanged.
pub proof fn lemma_filter_all_true<A>(s: Seq<A>, pred: spec_fn(A) -> bool)
    requires
        forall|i: int| 0 <= i < s.len() ==> pred(#[trigger] s[i]),
    ensures
        s.filter(pred) == s,
    decreases s.len(),
{
    reveal(Seq::filter);
    if s.len() == 0 {
        assert(s.filter(pred) =~= s);
    } else {
        let t = s.drop_last();
        assert(forall|i: int| 0 <= i < t.len() ==> pred(#[trigger] t[i]));
        lemma_filter_all_true(t, pred);
        assert(pred(s.last()));
        lemma_unsnoc(s);
    }
}

/// Every element of a filtered sequence satisfies the predicate, so
/// filtering a second time changes nothing.
pub proof fn lemma_filter_idempotent<A>(s: Seq<A>, pred: spec_fn(A) -> bool)
    ensures
        s.filter(pred).filter(pred) == s.filter(pred),
{
    let out = s.filter(pred);
    assert forall|i: int| 0 <= i < out.len() implies pred(#[trigger] out[i]) by {
        s.lemma_filter_pred(pred, i);
    }
    lemma_filter_all_true(out, pred);
}

/// A subsequence of `b` is still a subsequence after dropping its last
/// element.
proof fn lemma_subsequence_drop_last<A>(a: Seq<A>, b: Seq<A>)
    requires
        is_subsequence_of(a, b),
        a.len() > 0,
    ensures
        is_subsequence_of(a.drop_last(), b),
    decreases b.len(),
{
    if a.last() == b.last() {
        if a.drop_last().len() > 0 {
            lemma_subsequence_drop_last(a.drop_last(), b.drop_last());
        }
    } else {
        lemma_subsequence_drop_last(a, b.drop_last());
        if a.drop_last().len() > 0 && a.drop_last().last() == b.last() {
            lemma_subsequence_drop_last(a.drop_last(), b.drop_last());
        }
    }
}

/// A subsequence of `b` is a subsequence of `b` with one more element
/// appended.
proof fn lemma_subsequence_extend<A>(a: Seq<A>, b: Seq<A>, x: A)
    requires
        is_subsequence_of(a, b),
    ensures
        is_subsequence_of(a, b.push(x)),
{
    if a.len() > 0 {
        assert(b.push(x).drop_last() =~= b);
        if a.last() == x {
            lemma_subsequence_drop_last(a, b);
        }
    }
}

/// A filtered sequence is a subsequence of the original, in the original
/// order.
pub proof fn lemma_filter_subsequence<A>(s: Seq<A>, pred: spec_fn(A) -> bool)
    ensures
        is_subsequence_of(s.filter(pred), s),
    decreases s.len(),
{
    reveal(Seq::filter);
    if s.len() > 0 {
        let t = s.drop_last();
        lemma_filter_subsequence(t, pred);
        lemma_unsnoc(s);
        if pred(s.last()) {
            assert(s.filter(pred) == t.filter(pred).push(s.last()));
            assert(s.filter(pred).drop_last() =~= t.filter(pred));
        } else {
            lemma_subsequence_extend(t.filter(pred), t, s.last());
        }
    }
}

} // verus!
