//! Stable insertion order over a total preorder: the specification that the
//! sorted listings of the collectors are held to, with its two laws (the
//! result is ordered, and it is a permutation of the input).

use vstd::prelude::*;

verus! {

/// `le` is total and transitive.
pub open spec fn total_preorder<A>(le: spec_fn(A, A) -> bool) -> bool {
    &&& forall|a: A, b: A| #[trigger] le(a, b) || le(b, a)
    &&& forall|a: A, b: A, c: A| #![trigger le(a, b), le(b, c)] le(a, b) && le(b, c) ==> le(a, c)
}

/// Every pair of `s` is in order.
pub open spec fn sorted_by<A>(s: Seq<A>, le: spec_fn(A, A) -> bool) -> bool {
    forall|i: int, j: int| 0 <= i < j < s.len() ==> le(#[trigger] s[i], #[trigger] s[j])
}

/// First position at or after `i` whose element does not come before or
/// together with `x`.
pub open spec fn insert_pos<A>(s: Seq<A>, x: A, le: spec_fn(A, A) -> bool, i: int) -> int
    decreases s.len() - i,
{
    if i < 0 || i >= s.len() {
        s.len() as int
    } else if le(s[i], x) {
        insert_pos(s, x, le, i + 1)
    } else {
        i
    }
}

/// `x` inserted after every element that comes before or together with it.
pub open spec fn insert_by<A>(s: Seq<A>, x: A, le: spec_fn(A, A) -> bool) -> Seq<A> {
    s.insert(insert_pos(s, x, le, 0), x)
}

/// `s` sorted by `le`, equal elements keeping their order.
pub open spec fn sort_by<A>(s: Seq<A>, le: spec_fn(A, A) -> bool) -> Seq<A>
    decreases s.len(),
{
    if s.len() == 0 {
        s
    } else {
        insert_by(sort_by(s.drop_last(), le), s.last(), le)
    }
}

/// What the scan for the insertion point finds.
pub proof fn lemma_insert_pos<A>(s: Seq<A>, x: A, le: spec_fn(A, A) -> bool, i: int)
    requires
        0 <= i <= s.len(),
    ensures
        i <= insert_pos(s, x, le, i) <= s.len(),
        forall|j: int| i <= j < insert_pos(s, x, le, i) ==> le(#[trigger] s[j], x),
        insert_pos(s, x, le, i) < s.len() ==> !le(s[insert_pos(s, x, le, i)], x),
    decreases s.len() - i,
{
    if i < s.len() && le(s[i], x) {
        lemma_insert_pos(s, x, le, i + 1);
    }
}

/// Inserting into an ordered sequence keeps it ordered and adds one element.
pub proof fn lemma_insert_by<A>(s: Seq<A>, x: A, le: spec_fn(A, A) -> bool)
    requires
        total_preorder(le),
        sorted_by(s, le),
    ensures
        sorted_by(insert_by(s, x, le), le),
        insert_by(s, x, le).to_multiset() == s.to_multiset().insert(x),
        insert_by(s, x, le).len() == s.len() + 1,
{
    broadcast use vstd::seq_lib::group_to_multiset_ensures;
    let p = insert_pos(s, x, le, 0);
    lemma_insert_pos(s, x, le, 0);
    let t = s.insert(p, x);
    assert forall|j: int| p <= j < s.len() implies le(x, #[trigger] s[j]) by {
        assert(le(s[p], x) || le(x, s[p]));
        if j > p {
            assert(le(s[p], s[j]));
        }
    }
    assert forall|i: int, j: int| 0 <= i < j < t.len() implies le(#[trigger] t[i], #[trigger] t[j]) by {
        if i < p && j > p {
            assert(le(s[i], x));
            assert(le(x, s[j - 1]));
        }
    }
}

/// Sorting orders every pair.
pub proof fn lemma_sort_by_sorted<A>(s: Seq<A>, le: spec_fn(A, A) -> bool)
    requires
        total_preorder(le),
    ensures
        sorted_by(sort_by(s, le), le),
    decreases s.len(),
{
    if s.len() > 0 {
        lemma_sort_by_sorted(s.drop_last(), le);
        lemma_insert_by(sort_by(s.drop_last(), le), s.last(), le);
    }
}

/// Sorting neither drops nor adds an element.
pub proof fn lemma_sort_by_permutes<A>(s: Seq<A>, le: spec_fn(A, A) -> bool)
    requires
        total_preorder(le),
    ensures
        sort_by(s, le).to_multiset() == s.to_multiset(),
        sort_by(s, le).len() == s.len(),
    decreases s.len(),
{
    broadcast use vstd::seq_lib::group_to_multiset_ensures;
    if s.len() > 0 {
        lemma_sort_by_permutes(s.drop_last(), le);
        lemma_sort_by_sorted(s.drop_last(), le);
        lemma_insert_by(sort_by(s.drop_last(), le), s.last(), le);
        assert(s.drop_last().push(s.last()) =~= s);
    }
}

} // verus!
