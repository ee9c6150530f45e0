//! Strings passed by value, by reference and by mutable reference.

use vstd::prelude::*;
use vstd::string::*;
use crate::words::byte_len;

verus! {

/// Hands out a new string that reads `hello`.
pub fn gives_ownership() -> (some_string: String)
    ensures
        some_string@ == "hello"@,
{
    String::from_str("hello")
}

/// Takes a string and hands the same string back.
pub fn takes_and_gives_back(a_string: String) -> (same: String)
    ensures
        same == a_string,
{
    a_string
}

/// Hands the string back together with its length in bytes.
pub fn calculate_length(s: String) -> (measured: (String, usize))
    ensures
        measured.0 == s,
        measured.1 == byte_len(s@),
{
    let length = s.as_str().as_bytes().len();
    (s, length)
}

/// The length of the string in bytes.
pub fn calculate_length_fix(s: &String) -> (length: usize)
    ensures
        length == byte_len(s@),
{
    s.as_str().as_bytes().len()
}

/// Adds `, world` at the end of the string.
pub fn change_value(some_string: &mut String)
    ensures
        final(some_string)@ == old(some_string)@ + ", world"@,
{
    some_string.append(", world");
}

} // verus!
