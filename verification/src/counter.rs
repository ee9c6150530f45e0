//! A counter that counts from one to five, and shoes sorted out by size.

use vstd::prelude::*;

verus! {

/// The number at which a counter stops.
pub const LAST: u32 = 5;

/// Counts upwards from one and stops after `LAST`.
pub struct Counter {
    count: u32,
}

impl Counter {
    /// How far the counter has counted.
    pub closed spec fn count(&self) -> u32 {
        self.count
    }

    #[verifier::type_invariant]
    closed spec fn within_bounds(&self) -> bool {
        self.count <= LAST
    }

    /// A counter that has not counted yet.
    pub fn new() -> (counter: Counter)
        ensures
            counter.count() == 0,
    {
        Counter { count: 0 }
    }

    /// Counts one further and returns the number reached, or returns nothing once
    /// `LAST` has been reached; the counter then stays where it is.
    pub fn next(&mut self) -> (number: Option<u32>)
        ensures
            old(self).count() < LAST ==> number == Some((old(self).count() + 1) as u32)
                && final(self).count() == old(self).count() + 1,
            old(self).count() >= LAST ==> number is None && final(self).count() == old(
                self,
            ).count(),
            final(self).count() <= LAST,
    {
        proof {
            use_type_invariant(&*self);
        }
        if self.count < LAST {
            self.count += 1;
            Some(self.count)
        } else {
            None
        }
    }
}

/// A shoe.
#[derive(PartialEq, Debug)]
pub struct Shoe {
    pub size: u32,
    pub style: String,
}

/// The test for a shoe of size `shoe_size`.
pub open spec fn has_size(shoe_size: u32) -> spec_fn(Shoe) -> bool {
    |shoe: Shoe| shoe.size == shoe_size
}

/// Keeps the shoes of size `shoe_size`, in the order in which they came.
pub fn shoes_in_my_size(shoes: Vec<Shoe>, shoe_size: u32) -> (fitting: Vec<Shoe>)
    ensures
        fitting@ == shoes@.filter(has_size(shoe_size)),
{
    let ghost all = shoes@;
    let mut fitting: Vec<Shoe> = Vec::new();
    proof {
        reveal(Seq::filter);
        assert(all.take(0) =~= Seq::<Shoe>::empty());
    }
    for shoe in it: shoes
        invariant
            it.seq() == all,
            fitting@ == all.take(it.index() as int).filter(has_size(shoe_size)),
    {
        proof {
            reveal(Seq::filter);
            assert(all.take(it.index() + 1).drop_last() =~= all.take(it.index() as int));
            assert(all.take(it.index() + 1).last() == shoe);
        }
        if shoe.size == shoe_size {
            fitting.push(shoe);
        }
    }
    assert(all.take(all.len() as int) =~= all);
    fitting
}

} // verus!
