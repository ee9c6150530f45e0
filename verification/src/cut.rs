//! Cutting text at the first occurrence of a character below 128, by bytes.

use vstd::prelude::*;
use vstd::string::*;
use vstd::utf8::*;
use crate::utf8_facts::{
    lemma_ascii_char_shows_in_bytes, lemma_encode_concat, lemma_encode_injective,
    lemma_leading_ascii_byte,
};

verus! {

/// Position of the first `wanted` in `text`, or `text.len()` where it holds none.
pub open spec fn first_position(text: Seq<char>, wanted: char) -> int
    decreases text.len(),
{
    if text.len() == 0 || text[0] == wanted {
        0
    } else {
        1 + first_position(text.drop_first(), wanted)
    }
}

/// `first_position` stays within the text, passes over no `wanted`, and stops on one
/// unless it reaches the end.
pub proof fn lemma_first_position(text: Seq<char>, wanted: char)
    ensures
        0 <= first_position(text, wanted) <= text.len(),
        forall|i: int| 0 <= i < first_position(text, wanted) ==> text[i] != wanted,
        first_position(text, wanted) < text.len() ==> text[first_position(text, wanted)] == wanted,
    decreases text.len(),
{
    if text.len() == 0 || text[0] == wanted {
    } else {
        let rest = text.drop_first();
        lemma_first_position(rest, wanted);
        assert forall|i: int| 0 <= i < first_position(text, wanted) implies text[i] != wanted by {
            if i > 0 {
                assert(text[i] == rest[i - 1]);
            }
        }
    }
}

/// Any position that sits on a `wanted`, or at the end, with no `wanted` before it is
/// the one `first_position` finds.
pub proof fn lemma_first_position_is(text: Seq<char>, wanted: char, end: int)
    requires
        0 <= end <= text.len(),
        forall|i: int| 0 <= i < end ==> text[i] != wanted,
        end < text.len() ==> text[end] == wanted,
    ensures
        first_position(text, wanted) == end,
{
    lemma_first_position(text, wanted);
}

/// A text whose encoding holds no byte `b` below 128 holds no character of that value.
pub proof fn lemma_no_byte_no_char(text: Seq<char>, b: u8)
    requires
        b < 0x80,
        forall|k: int| 0 <= k < encode_utf8(text).len() ==> encode_utf8(text)[k] != b,
    ensures
        forall|i: int| 0 <= i < text.len() ==> text[i] as u32 != b as u32,
{
    assert forall|i: int| 0 <= i < text.len() implies text[i] as u32 != b as u32 by {
        if text[i] as u32 == b as u32 {
            lemma_ascii_char_shows_in_bytes(text, i);
        }
    }
}

/// Offset of the first byte equal to `wanted`, or the length where there is none.
fn find_byte(bytes: &[u8], wanted: u8) -> (at: usize)
    ensures
        at <= bytes@.len(),
        forall|k: int| 0 <= k < at ==> bytes@[k] != wanted,
        at < bytes@.len() ==> bytes@[at as int] == wanted,
{
    let mut at: usize = 0;
    while at < bytes.len() && bytes[at] != wanted
        invariant
            at <= bytes@.len(),
            forall|k: int| 0 <= k < at ==> bytes@[k] != wanted,
        decreases bytes@.len() - at,
    {
        at += 1;
    }
    at
}

/// Cuts `text` at the first character whose code is `wanted`, a code below 128: what
/// stands before that character, and what stands after it where there is one. Both
/// parts borrow from `text`.
pub fn cut_at_first<'a>(text: &'a str, wanted: u8) -> (cut: (&'a str, Option<&'a str>))
    requires
        wanted < 0x80,
    ensures
        cut.0@ == text@.take(first_position(text@, wanted as char)),
        cut.1 is None <==> first_position(text@, wanted as char) == text@.len(),
        cut.1 is Some ==> cut.1->0@ == text@.skip(first_position(text@, wanted as char) + 1),
{
    let ghost mark = wanted as char;
    let bytes = text.as_bytes();
    let at = find_byte(bytes, wanted);
    proof {
        lemma_first_position(text@, mark);
        encode_utf8_valid_utf8(text@);
        assert(mark as u32 == wanted as u32);
    }
    if at == bytes.len() {
        proof {
            lemma_no_byte_no_char(text@, wanted);
            lemma_first_position_is(text@, mark, text@.len() as int);
            assert(text@.take(text@.len() as int) =~= text@);
        }
        return (text, None);
    }
    proof {
        is_char_boundary_iff_is_leading_byte(bytes@, at as int);
    }
    let (head, tail) = text.split_at(at);
    proof {
        let hb = encode_utf8(head@);
        let tb = encode_utf8(tail@);
        lemma_encode_concat(head@, tail@);
        assert(hb + tb =~= bytes@);
        lemma_encode_injective(head@ + tail@, text@);
        assert(tb[0] == wanted);
        lemma_leading_ascii_byte(tail@);
        char_u32_cast(tail@[0], wanted as u32);
        assert(tail@[0] == mark);
        assert forall|k: int| 0 <= k < hb.len() implies hb[k] != wanted by {
            assert(hb[k] == bytes@[k]);
        }
        lemma_no_byte_no_char(head@, wanted);
        assert(text@[head@.len() as int] == tail@[0]);
        assert forall|i: int| 0 <= i < head@.len() implies text@[i] != mark by {
            assert(text@[i] == head@[i]);
        }
        lemma_first_position_is(text@, mark, head@.len() as int);
        assert(text@.take(head@.len() as int) =~= head@);
        encode_utf8_valid_utf8(tail@);
        assert(valid_utf8(pop_first_scalar(tb)));
        assert(is_char_boundary(pop_first_scalar(tb), 0));
        assert(is_char_boundary(tb, 1));
    }
    let (_, after) = tail.split_at(1);
    proof {
        lemma_encode_injective(after@, tail@.drop_first());
        assert(tail@.drop_first() =~= text@.skip(head@.len() as int + 1));
    }
    (head, Some(after))
}

} // verus!
