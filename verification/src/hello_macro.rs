//! A greeting that each type gives in its own name.

use vstd::prelude::*;

verus! {

/// A type that can say hello.
pub trait HelloMacro {
    fn hello_macro();
}

} // verus!
