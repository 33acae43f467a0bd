//! Stable sorting by a relation that an order decides.
//!
//! The order is given twice: as a relation on views, for contracts, and as a
//! function that decides it, for running. The sort places every element
//! behind all elements that may stand before it, so that elements which the
//! order does not tell apart keep the order in which they came.

use vstd::multiset::*;
use vstd::prelude::*;
use vstd::relations::*;
use vstd::seq_lib::*;

verus! {

/// An order on the values of `T`.
pub trait Order<T: DeepView> {
    /// Whether `a` may stand before `b`.
    spec fn before(&self, a: T::V, b: T::V) -> bool;

    /// Decides whether `a` may stand before `b`.
    fn comes_before(&self, a: &T, b: &T) -> (r: bool)
        ensures
            r == self.before(a.deep_view(), b.deep_view()),
    ;
}

/// The relation of an order.
pub open spec fn relation<T: DeepView, O: Order<T>>(order: O) -> spec_fn(T::V, T::V) -> bool {
    |a: T::V, b: T::V| order.before(a, b)
}

/// The place of `x` in `sorted`: behind the leading elements that may stand
/// before it.
pub open spec fn insert_position<A>(sorted: Seq<A>, x: A, leq: spec_fn(A, A) -> bool) -> int
    decreases sorted.len(),
{
    if sorted.len() == 0 || !leq(sorted[0], x) {
        0
    } else {
        1 + insert_position(sorted.skip(1), x, leq)
    }
}

/// The elements of `s` in the order of `leq`, each placed by
/// `insert_position` among those that came before it.
pub open spec fn stable_sort<A>(s: Seq<A>, leq: spec_fn(A, A) -> bool) -> Seq<A>
    decreases s.len(),
{
    if s.len() == 0 {
        s
    } else {
        let before = stable_sort(s.drop_last(), leq);
        before.insert(insert_position(before, s.last(), leq), s.last())
    }
}

/// The place of an element lies within the sequence, behind elements that
/// may stand before it and, unless it is the end, in front of one that may
/// not.
pub proof fn lemma_insert_position<A>(sorted: Seq<A>, x: A, leq: spec_fn(A, A) -> bool)
    ensures
        0 <= insert_position(sorted, x, leq) <= sorted.len(),
        forall|i: int| 0 <= i < insert_position(sorted, x, leq) ==> leq(#[trigger] sorted[i], x),
        insert_position(sorted, x, leq) < sorted.len() ==> !leq(
            sorted[insert_position(sorted, x, leq)],
            x,
        ),
    decreases sorted.len(),
{
    if sorted.len() > 0 && leq(sorted[0], x) {
        let rest = sorted.skip(1);
        lemma_insert_position(rest, x, leq);
        let p = insert_position(sorted, x, leq);
        assert forall|i: int| 0 <= i < p implies leq(#[trigger] sorted[i], x) by {
            if i > 0 {
                assert(sorted[i] == rest[i - 1]);
            }
        }
    }
}

/// Sorting keeps every element, each as often as it was there.
pub proof fn lemma_stable_sort_permutation<A>(s: Seq<A>, leq: spec_fn(A, A) -> bool)
    ensures
        stable_sort(s, leq).to_multiset() == s.to_multiset(),
        stable_sort(s, leq).len() == s.len(),
    decreases s.len(),
{
    broadcast use group_multiset_axioms;

    if s.len() > 0 {
        let init = s.drop_last();
        let before = stable_sort(init, leq);
        lemma_stable_sort_permutation(init, leq);
        lemma_insert_position(before, s.last(), leq);
        to_multiset_insert(before, insert_position(before, s.last(), leq), s.last());
        to_multiset_build(init, s.last());
        assert(s =~= init.push(s.last()));
    }
}

/// Under a relation that compares any two elements and is transitive, what
/// sorting gives is sorted.
pub proof fn lemma_stable_sort_sorted<A>(s: Seq<A>, leq: spec_fn(A, A) -> bool)
    requires
        strongly_connected(leq),
        transitive(leq),
    ensures
        sorted_by(stable_sort(s, leq), leq),
    decreases s.len(),
{
    if s.len() > 0 {
        let before = stable_sort(s.drop_last(), leq);
        let x = s.last();
        let p = insert_position(before, x, leq);
        lemma_stable_sort_sorted(s.drop_last(), leq);
        lemma_insert_position(before, x, leq);
        let after = before.insert(p, x);
        assert forall|i: int, j: int| 0 <= i < j < after.len() implies #[trigger] leq(
            after[i],
            after[j],
        ) by {
            if i == p && j > p {
                assert(leq(before[p], x) || leq(x, before[p]));
                if j - 1 > p {
                    assert(leq(before[p], before[j - 1]));
                }
            }
        }
    }
}

/// Under a total order there is but one sorted arrangement, and the stable
/// sort gives it.
pub proof fn lemma_stable_sort_unique<A>(s: Seq<A>, leq: spec_fn(A, A) -> bool)
    requires
        total_ordering(leq),
    ensures
        stable_sort(s, leq) == s.sort_by(leq),
{
    lemma_stable_sort_sorted(s, leq);
    lemma_stable_sort_permutation(s, leq);
    s.lemma_sort_by_ensures(leq);
    lemma_sorted_unique(stable_sort(s, leq), s.sort_by(leq), leq);
}

fn position_for<T: DeepView, O: Order<T>>(sorted: &Vec<T>, x: &T, order: &O) -> (r: usize)
    ensures
        r == insert_position(sorted.deep_view(), x.deep_view(), relation(*order)),
        r <= sorted.len(),
{
    let ghost all = sorted.deep_view();
    let ghost leq = relation(*order);
    let mut i: usize = 0;
    assert(all.skip(0) =~= all);
    while i < sorted.len() && order.comes_before(&sorted[i], x)
        invariant
            i <= sorted.len(),
            all == sorted.deep_view(),
            leq == relation(*order),
            insert_position(all, x.deep_view(), leq) == i + insert_position(
                all.skip(i as int),
                x.deep_view(),
                leq,
            ),
        decreases sorted.len() - i,
    {
        proof {
            let now = all.skip(i as int);
            assert(now.skip(1) =~= all.skip(i + 1));
        }
        i += 1;
    }
    i
}

/// Sorts the elements by the order. Elements that the order does not tell
/// apart keep the order in which they came.
pub fn sort_by<T: DeepView, O: Order<T>>(v: Vec<T>, order: &O) -> (r: Vec<T>)
    ensures
        r.deep_view() == stable_sort(v.deep_view(), relation(*order)),
{
    let ghost given = v.deep_view();
    let ghost leq = relation(*order);
    let mut rest = v;
    let mut out: Vec<T> = Vec::new();
    let ghost mut done: int = 0;
    assert(given.skip(0) =~= given);
    while rest.len() > 0
        invariant
            leq == relation(*order),
            0 <= done <= given.len(),
            rest.deep_view() == given.skip(done),
            out.deep_view() == stable_sort(given.take(done), leq),
        decreases rest.len(),
    {
        let ghost rest_before = rest.deep_view();
        let ghost rest_seq = rest@;
        assert(rest_before.len() == rest.len());
        let x = rest.remove(0);
        assert(x.deep_view() == rest_before[0]);
        assert forall|i: int| 0 <= i < rest.len() implies #[trigger] rest.deep_view()[i]
            == given.skip(done + 1)[i] by {
            assert(rest_before[i + 1] == rest_seq[i + 1].deep_view());
        }
        let pos = position_for(&out, &x, order);
        out.insert(pos, x);
        proof {
            let now = given.take(done + 1);
            assert(now.drop_last() =~= given.take(done));
            done = done + 1;
        }
    }
    out
}

} // verus!
