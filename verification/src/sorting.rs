//! Sorting of measurements: a merge sort whose result is proved to be the
//! input in ascending order.

use vstd::multiset::Multiset;
use vstd::prelude::*;
use vstd::seq_lib::{lemma_multiset_commutative, to_multiset_build};

verus! {

/// Values that are ordered by a number.
pub trait Magnitude: Copy + Sized {
    /// The number that the value is ordered by.
    spec fn magnitude(self) -> int;

    /// Whether `self` comes no later than `other`.
    fn at_most(self, other: Self) -> (answer: bool)
        ensures
            answer == (self.magnitude() <= other.magnitude()),
    ;
}

impl Magnitude for u64 {
    open spec fn magnitude(self) -> int {
        self as int
    }

    fn at_most(self, other: Self) -> (answer: bool) {
        self <= other
    }
}

impl Magnitude for u32 {
    open spec fn magnitude(self) -> int {
        self as int
    }

    fn at_most(self, other: Self) -> (answer: bool) {
        self <= other
    }
}

/// No value is followed by a smaller one.
pub open spec fn ascending<T: Magnitude>(values: Seq<T>) -> bool {
    forall|i: int, j: int|
        0 <= i < j < values.len() ==> values[i].magnitude() <= values[j].magnitude()
}

/// Merges two ascending vectors into one.
fn merge<T: Magnitude>(left: &Vec<T>, right: &Vec<T>) -> (merged: Vec<T>)
    requires
        ascending(left@),
        ascending(right@),
    ensures
        ascending(merged@),
        merged@.to_multiset() == (left@ + right@).to_multiset(),
{
    broadcast use vstd::multiset::group_multiset_axioms;

    let mut merged: Vec<T> = Vec::new();
    let mut i: usize = 0;
    let mut j: usize = 0;
    assert(left@.take(0) =~= Seq::<T>::empty());
    assert(right@.take(0) =~= Seq::<T>::empty());
    assert(merged@ =~= Seq::<T>::empty());
    assert(Seq::<T>::empty().to_multiset().len() == 0) by {
        Seq::<T>::empty().to_multiset_ensures();
    }
    assert(Seq::<T>::empty().to_multiset() =~= Multiset::<T>::empty());
    assert(merged@.to_multiset() =~= left@.take(0).to_multiset().add(right@.take(0).to_multiset()));
    while i < left.len() || j < right.len()
        invariant
            i <= left.len(),
            j <= right.len(),
            ascending(left@),
            ascending(right@),
            ascending(merged@),
            merged@.to_multiset() == left@.take(i as int).to_multiset().add(
                right@.take(j as int).to_multiset(),
            ),
            i < left.len() ==> forall|k: int|
                0 <= k < merged.len() ==> merged[k].magnitude() <= left[i as int].magnitude(),
            j < right.len() ==> forall|k: int|
                0 <= k < merged.len() ==> merged[k].magnitude() <= right[j as int].magnitude(),
        decreases left.len() - i + right.len() - j,
    {
        let from_left = if i < left.len() && j < right.len() {
            left[i].at_most(right[j])
        } else {
            i < left.len()
        };
        let ghost before = merged@;
        if from_left {
            let value = left[i];
            merged.push(value);
            proof {
                to_multiset_build(before, value);
                to_multiset_build(left@.take(i as int), value);
                assert(left@.take(i + 1) =~= left@.take(i as int).push(value));
                assert(merged@.to_multiset() =~= left@.take(i + 1).to_multiset().add(
                    right@.take(j as int).to_multiset(),
                ));
                assert(ascending(merged@)) by {
                    assert forall|a: int, b: int| 0 <= a < b < merged@.len() implies merged@[a].magnitude()
                        <= merged@[b].magnitude() by {
                        if b < before.len() {
                            assert(merged@[a] == before[a] && merged@[b] == before[b]);
                        } else {
                            assert(merged@[a] == before[a]);
                        }
                    }
                }
            }
            i += 1;
        } else {
            let value = right[j];
            merged.push(value);
            proof {
                to_multiset_build(before, value);
                to_multiset_build(right@.take(j as int), value);
                assert(right@.take(j + 1) =~= right@.take(j as int).push(value));
                assert(merged@.to_multiset() =~= left@.take(i as int).to_multiset().add(
                    right@.take(j + 1).to_multiset(),
                ));
                assert(ascending(merged@)) by {
                    assert forall|a: int, b: int| 0 <= a < b < merged@.len() implies merged@[a].magnitude()
                        <= merged@[b].magnitude() by {
                        if b < before.len() {
                            assert(merged@[a] == before[a] && merged@[b] == before[b]);
                        } else {
                            assert(merged@[a] == before[a]);
                        }
                    }
                }
            }
            j += 1;
        }
    }
    proof {
        assert(left@.take(left.len() as int) =~= left@);
        assert(right@.take(right.len() as int) =~= right@);
        lemma_multiset_commutative(left@, right@);
    }
    merged
}

/// The values in ascending order.
pub fn merge_sort<T: Magnitude>(values: Vec<T>) -> (sorted: Vec<T>)
    ensures
        ascending(sorted@),
        sorted@.to_multiset() == values@.to_multiset(),
    decreases values.len(),
{
    if values.len() <= 1 {
        return values;
    }
    let mut left = values;
    let middle = left.len() / 2;
    let right = left.split_off(middle);
    assert(values@ =~= left@ + right@);
    let sorted_left = merge_sort(left);
    let sorted_right = merge_sort(right);
    let sorted = merge(&sorted_left, &sorted_right);
    proof {
        lemma_multiset_commutative(left@, right@);
        lemma_multiset_commutative(sorted_left@, sorted_right@);
    }
    sorted
}

/// Puts the values in ascending order.
pub fn sort<T: Magnitude>(values: &mut Vec<T>)
    ensures
        ascending(final(values)@),
        final(values)@.to_multiset() == old(values)@.to_multiset(),
{
    let mut taken: Vec<T> = Vec::new();
    core::mem::swap(values, &mut taken);
    *values = merge_sort(taken);
}

} // verus!
