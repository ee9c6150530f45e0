//! A guess at a number from 1 to 100, and two small helpers.

use vstd::prelude::*;
use vstd::string::*;

verus! {

/// A number that is known to lie between 1 and 100.
pub struct Guess {
    value: i32,
}

impl Guess {
    /// The number guessed.
    pub closed spec fn spec_value(&self) -> i32 {
        self.value
    }

    #[verifier::type_invariant]
    closed spec fn in_range(&self) -> bool {
        1 <= self.value <= 100
    }

    /// A guess at `value`, which has to lie between 1 and 100.
    pub fn new(value: i32) -> (guess: Guess)
        requires
            1 <= value <= 100,
        ensures
            guess.spec_value() == value,
    {
        Guess { value }
    }

    /// The number guessed: between 1 and 100.
    #[verifier::when_used_as_spec(spec_value)]
    pub fn value(&self) -> (value: i32)
        ensures
            value == self.spec_value(),
            1 <= value <= 100,
    {
        proof {
            use_type_invariant(self);
        }
        self.value
    }
}

/// Two more than `a`, which has to leave room for them.
pub fn add_two(a: i32) -> (sum: i32)
    requires
        a + 2 <= i32::MAX,
    ensures
        sum == a + 2,
{
    a + 2
}

/// The text of a greeting: `Hello `, the name, and an exclamation mark.
pub open spec fn greeting_text(name: Seq<char>) -> Seq<char> {
    "Hello "@ + name + "!"@
}

/// Greets `name`.
pub fn greeting(name: &str) -> (text: String)
    ensures
        text@ == greeting_text(name@),
{
    let mut text = String::from_str("Hello ");
    text.append(name);
    text.append("!");
    text
}

} // verus!
