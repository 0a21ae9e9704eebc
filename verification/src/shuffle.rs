//! Randomising the order in which questions are presented.

use crate::question::{view_of, views, Question};
use vstd::prelude::*;
use vstd::seq_lib::{
    to_multiset_build, to_multiset_contains, to_multiset_insert, to_multiset_len,
    to_multiset_remove,
};

verus! {

/// Assumed of `rand::seq::SliceRandom::shuffle`, driven by `rand::thread_rng`,
/// not proved: it reorders the elements in place by swapping pairs of them, so
/// that nothing is lost, added or duplicated. Which order comes out is left
/// open.
#[verifier::external_body]
fn shuffle_in_place<T>(items: &mut Vec<T>)
    ensures
        final(items)@.to_multiset() == old(items)@.to_multiset(),
{
    rand::seq::SliceRandom::shuffle(items.as_mut_slice(), &mut rand::thread_rng());
}

/// Applying a function to every element of two sequences that hold the same
/// elements gives two sequences that hold the same elements.
pub proof fn lemma_map_keeps_permutation<A, B>(a: Seq<A>, b: Seq<A>, f: spec_fn(A) -> B)
    requires
        a.to_multiset() == b.to_multiset(),
    ensures
        a.map_values(f).to_multiset() == b.map_values(f).to_multiset(),
    decreases a.len(),
{
    to_multiset_len(a);
    to_multiset_len(b);
    if a.len() == 0 {
        assert(a.map_values(f) =~= b.map_values(f));
    } else {
        let x = a.last();
        assert(a.contains(x));
        to_multiset_contains(a, x);
        to_multiset_contains(b, x);
        let j = choose|j: int| 0 <= j < b.len() && b[j] == x;
        let a0 = a.drop_last();
        let b0 = b.remove(j);
        assert(a0 =~= a.remove(a.len() - 1));
        to_multiset_remove(a, a.len() - 1);
        to_multiset_remove(b, j);
        lemma_map_keeps_permutation(a0, b0, f);
        assert(a.map_values(f) =~= a0.map_values(f).push(f(x)));
        assert(b.map_values(f) =~= b0.map_values(f).insert(j, f(x)));
        to_multiset_build(a0.map_values(f), f(x));
        to_multiset_insert(b0.map_values(f), j, f(x));
    }
}

/// Two sequences of at most one element that hold the same elements are the
/// same sequence.
pub proof fn lemma_short_permutation_is_identity<A>(a: Seq<A>, b: Seq<A>)
    requires
        a.to_multiset() == b.to_multiset(),
        a.len() <= 1,
    ensures
        a == b,
{
    to_multiset_len(a);
    to_multiset_len(b);
    if a.len() == 1 {
        assert(a.contains(a[0]));
        to_multiset_contains(a, a[0]);
        to_multiset_contains(b, a[0]);
    }
    assert(a =~= b);
}

/// Puts the questions into a random order, in place. The result is a
/// permutation of the input: every question is still there, as often as
/// before. With fewer than two questions nothing changes.
pub fn shuffle(questions: &mut Vec<Question>)
    ensures
        final(questions)@.to_multiset() == old(questions)@.to_multiset(),
        final(questions)@.len() == old(questions)@.len(),
        views(final(questions)@).to_multiset() == views(old(questions)@).to_multiset(),
        old(questions)@.len() <= 1 ==> final(questions)@ == old(questions)@,
{
    shuffle_in_place(questions);
    proof {
        to_multiset_len(old(questions)@);
        to_multiset_len(questions@);
        lemma_map_keeps_permutation(old(questions)@, questions@, view_of());
        if old(questions)@.len() <= 1 {
            lemma_short_permutation_is_identity(old(questions)@, questions@);
        }
    }
}

} // verus!
