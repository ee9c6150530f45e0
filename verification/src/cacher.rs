//! A wrapper that computes a function once and then keeps returning that first result.
//!
//! The cache has a single slot and is blind to the argument: the first call of
//! [`Cacher::value`] computes the function on its argument and fills the slot; every
//! later call returns what the slot holds, whatever argument it is given. This is a
//! known limit of the design, kept on purpose: a caller who wants one result per
//! argument needs a map from arguments to results behind the same `value` interface.

use vstd::prelude::*;

verus! {

/// A function of one argument together with the slot for its first result.
#[verifier::reject_recursive_types(A)]
#[verifier::reject_recursive_types(B)]
#[verifier::reject_recursive_types(F)]
pub struct Cacher<A, B, F> where F: Fn(A) -> B {
    calculation: F,
    value: Option<B>,
    first_arg: Ghost<Option<A>>,
}

impl<A, B, F: Fn(A) -> B> Cacher<A, B, F> {
    /// The wrapped function.
    pub closed spec fn calculation(&self) -> F {
        self.calculation
    }

    /// The slot: empty, or the argument of the first call with the result that was
    /// computed for it.
    pub closed spec fn cached(&self) -> Option<(A, B)> {
        match (self.first_arg@, self.value) {
            (Some(arg), Some(result)) => Some((arg, result)),
            _ => None,
        }
    }

    /// A held result comes with the argument it was computed for, and is a result of
    /// the wrapped function on that argument.
    #[verifier::type_invariant]
    closed spec fn slot_is_sound(&self) -> bool {
        self.value is Some ==> {
            &&& self.first_arg@ is Some
            &&& call_ensures(self.calculation, (self.first_arg@->0,), self.value->0)
        }
    }
}

impl<A, B: Copy, F: Fn(A) -> B> Cacher<A, B, F> {
    /// Wraps `calculation` with an empty slot. The function is not called yet.
    pub fn new(calculation: F) -> (cacher: Self)
        ensures
            cacher.calculation() == calculation,
            cacher.cached() is None,
    {
        Cacher { calculation, value: None, first_arg: Ghost(None) }
    }

    /// Returns the result of the first call: computes it from `arg` where the slot is
    /// empty, and ignores `arg` where it is filled. The function has to take `arg` only
    /// where the slot is empty. Either way the result is what the function gave for the
    /// argument of the first call, which the slot holds from then on.
    pub fn value(&mut self, arg: A) -> (result: B)
        requires
            old(self).cached() is None ==> call_requires(old(self).calculation(), (arg,)),
        ensures
            final(self).calculation() == old(self).calculation(),
            final(self).cached() == slot_after(old(self).cached(), arg, result),
            result == returned(old(self).cached(), result),
            final(self).cached() matches Some((first, _)) ==> call_ensures(
                old(self).calculation(),
                (first,),
                result,
            ),
    {
        proof {
            use_type_invariant(&*self);
        }
        match self.value {
            Some(held) => held,
            None => {
                let ghost given = arg;
                let computed = (self.calculation)(arg);
                self.first_arg = Ghost(Some(given));
                self.value = Some(computed);
                computed
            },
        }
    }
}

/// The slot after a call with the argument `arg` for which `computed` is what the
/// function gives: a filled slot stays as it is, an empty one takes the pair.
pub open spec fn slot_after<A, B>(slot: Option<(A, B)>, arg: A, computed: B) -> Option<(A, B)> {
    match slot {
        Some(pair) => Some(pair),
        None => Some((arg, computed)),
    }
}

/// What a call returns when `computed` is what the function gives for its argument:
/// the held result where the slot is filled, `computed` where it is empty.
pub open spec fn returned<A, B>(slot: Option<(A, B)>, computed: B) -> B {
    match slot {
        Some(pair) => pair.1,
        None => computed,
    }
}

/// After a first call every later call returns what the first one returned, whatever
/// its argument and whatever the function would give for it, and leaves the slot as
/// the first call left it.
pub proof fn law_first_result_is_kept<A, B>(
    slot: Option<(A, B)>,
    first_arg: A,
    first_computed: B,
    later_arg: A,
    later_computed: B,
)
    ensures
        returned(slot_after(slot, first_arg, first_computed), later_computed) == returned(
            slot,
            first_computed,
        ),
        slot_after(slot_after(slot, first_arg, first_computed), later_arg, later_computed)
            == slot_after(slot, first_arg, first_computed),
{
}

/// A day's training.
#[derive(Clone, Copy, Debug, PartialEq, Eq, Structural)]
pub enum Workout {
    /// Push-ups first, then sit-ups.
    Strength { pushups: u32, situps: u32 },
    /// A day off.
    Rest,
    /// A run of so many minutes.
    Run { minutes: u32 },
}

/// Whether `result` is a result of `calculation` on `intensity`.
pub open spec fn computes<F: Fn(u32) -> u32>(calculation: F, intensity: u32, result: u32) -> bool {
    call_ensures(calculation, (intensity,), result)
}

/// Plans a day's training from the wanted `intensity`, with `calculation` as the costly
/// step that turns an intensity into a number of repetitions or minutes.
///
/// Above an intensity of 25 the plan is strength work, and both of its numbers are the
/// one result of a single calculation. Otherwise the plan is a day off where
/// `random_number` is 3, for which nothing is calculated, and a run in every other
/// case.
pub fn generate_workout<F: Fn(u32) -> u32>(calculation: F, intensity: u32, random_number: u32) -> (plan:
    Workout)
    requires
        intensity > 25 || random_number != 3 ==> call_requires(calculation, (intensity,)),
    ensures
        match plan {
            Workout::Strength { pushups, situps } => {
                &&& intensity > 25
                &&& pushups == situps
                &&& computes(calculation, intensity, pushups)
            },
            Workout::Rest => intensity <= 25 && random_number == 3,
            Workout::Run { minutes } => {
                &&& intensity <= 25
                &&& random_number != 3
                &&& computes(calculation, intensity, minutes)
            },
        },
{
    let mut cached_result = Cacher::new(calculation);
    if intensity > 25 {
        let pushups = cached_result.value(intensity);
        let situps = cached_result.value(intensity);
        Workout::Strength { pushups, situps }
    } else if random_number == 3 {
        Workout::Rest
    } else {
        Workout::Run { minutes: cached_result.value(intensity) }
    }
}

} // verus!
