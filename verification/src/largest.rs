//! The largest entry of a list.

use vstd::prelude::*;
use vstd::std_specs::cmp::{PartialOrdIs, PartialOrdSpec};

verus! {

/// `candidate` occurs in `numbers` and no entry of `numbers` is larger.
pub open spec fn is_largest(numbers: Seq<i32>, candidate: i32) -> bool {
    &&& numbers.contains(candidate)
    &&& forall|i: int| 0 <= i < numbers.len() ==> numbers[i] <= candidate
}

/// Returns the largest number of a list that is not empty.
pub fn get_largest(number_list: Vec<i32>) -> (largest: i32)
    requires
        number_list@.len() > 0,
    ensures
        is_largest(number_list@, largest),
{
    let mut largest = number_list[0];
    let ghost mut found_at: int = 0;
    let mut i: usize = 1;
    while i < number_list.len()
        invariant
            1 <= i <= number_list@.len(),
            0 <= found_at < i,
            number_list@[found_at] == largest,
            forall|k: int| 0 <= k < i ==> number_list@[k] <= largest,
        decreases number_list@.len() - i,
    {
        let number = number_list[i];
        if number > largest {
            largest = number;
            proof {
                found_at = i as int;
            }
        }
        i += 1;
    }
    largest
}

/// The entry that a walk through `items` ends up holding, when it starts with the
/// first entry and takes a later one in its place whenever `greater(later, held)`.
pub open spec fn running_largest<T>(items: Seq<T>, greater: spec_fn(T, T) -> bool) -> T
    recommends
        items.len() > 0,
    decreases items.len(),
{
    if items.len() <= 1 {
        items[0]
    } else {
        let held = running_largest(items.drop_last(), greater);
        if greater(items.last(), held) {
            items.last()
        } else {
            held
        }
    }
}

/// With a `greater` under which one of any two different entries is greater than the
/// other, and which is transitive, the running largest is an entry that none is
/// greater than.
pub proof fn lemma_running_largest_is_maximal<T>(items: Seq<T>, greater: spec_fn(T, T) -> bool)
    requires
        items.len() > 0,
        forall|a: T, b: T, c: T|
            #![trigger greater(a, b), greater(b, c)]
            greater(a, b) && greater(b, c) ==> greater(a, c),
        forall|a: T, b: T| #![trigger greater(a, b)] a != b ==> greater(a, b) || greater(b, a),
        forall|a: T| !#[trigger] greater(a, a),
    ensures
        items.contains(running_largest(items, greater)),
        forall|i: int|
            0 <= i < items.len() ==> !greater(#[trigger] items[i], running_largest(items, greater)),
    decreases items.len(),
{
    if items.len() <= 1 {
        assert(items[0] == running_largest(items, greater));
    } else {
        let shorter = items.drop_last();
        lemma_running_largest_is_maximal(shorter, greater);
        let held = running_largest(shorter, greater);
        let k = choose|k: int| 0 <= k < shorter.len() && shorter[k] == held;
        assert(items[k] == held);
        assert(items[items.len() - 1] == items.last());
        let top = running_largest(items, greater);
        assert forall|i: int| 0 <= i < items.len() implies !greater(#[trigger] items[i], top) by {
            if i < shorter.len() {
                assert(shorter[i] == items[i]);
                assert(!greater(shorter[i], held));
            }
        }
    }
}

/// The comparison that `>` makes between two values of `T`.
pub open spec fn greater_than<T: PartialOrd>() -> spec_fn(T, T) -> bool {
    |a: T, b: T| a.is_gt(&b)
}

/// The first `n` entries of `items`.
pub open spec fn first_entries<T>(items: Seq<T>, n: usize) -> Seq<T> {
    items.take(n as int)
}

/// The entry of `items` at position `i`.
pub open spec fn entry_at<T>(items: Seq<T>, i: usize) -> T {
    items[i as int]
}

/// Returns the largest entry of a list that is not empty: the entry that is held at
/// the end of a walk that starts with the first entry and takes a later entry in its
/// place whenever that one is greater. Where `>` is a total order this is the
/// maximum; `lemma_running_largest_is_maximal` says so.
pub fn get_largest_2<T: PartialOrd + Copy>(vector: Vec<T>) -> (largest: T)
    requires
        vector@.len() > 0,
    ensures
        vector@.contains(largest),
        T::obeys_partial_cmp_spec() ==> largest == running_largest(vector@, greater_than::<T>()),
{
    let mut largest = vector[0];
    let ghost mut found_at: usize = 0;
    let mut i: usize = 1;
    assert(vector@.take(1).drop_last() =~= Seq::<T>::empty());
    while i < vector.len()
        invariant
            1 <= i <= vector@.len(),
            0 <= found_at < i,
            entry_at(vector@, found_at) == largest,
            T::obeys_partial_cmp_spec() ==> largest == running_largest(
                first_entries(vector@, i),
                greater_than::<T>(),
            ),
        decreases vector@.len() - i,
    {
        let item = vector[i];
        proof {
            assert(vector@.take(i + 1).drop_last() =~= first_entries(vector@, i));
            assert(vector@.take(i + 1).last() == item);
        }
        if item > largest {
            largest = item;
            proof {
                found_at = i;
            }
        }
        i += 1;
    }
    assert(first_entries(vector@, i) =~= vector@);
    largest
}

} // verus!
