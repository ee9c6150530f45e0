//! Picking a piece of text: the longer of two, or the first word of one.

use vstd::prelude::*;
use vstd::string::*;
use vstd::utf8::encode_utf8;
use crate::cut::{cut_at_first, first_position};

verus! {

/// The length of `text` in bytes, as UTF-8.
pub open spec fn byte_len(text: Seq<char>) -> nat {
    encode_utf8(text).len()
}

/// Returns the one of two texts that takes more bytes, and `y` where both take the
/// same number.
pub fn longest<'a>(x: &'a str, y: &'a str) -> (longer: &'a str)
    ensures
        longer@ == if byte_len(x@) > byte_len(y@) {
            x@
        } else {
            y@
        },
{
    if x.as_bytes().len() > y.as_bytes().len() {
        x
    } else {
        y
    }
}

/// The first word of `text`: what stands before its first space, or all of it where
/// it holds no space.
pub open spec fn first_word_of(text: Seq<char>) -> Seq<char> {
    text.take(first_position(text, ' '))
}

/// Returns the first word of `s`, borrowed from `s`: the text up to the first space,
/// or the whole of `s` where it holds none. A text that starts with a space has the
/// empty first word.
pub fn first_word<'a>(s: &'a str) -> (word: &'a str)
    ensures
        word@ == first_word_of(s@),
{
    let (word, _) = cut_at_first(s, 0x20);
    word
}

} // verus!
