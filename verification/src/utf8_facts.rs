//! Facts about UTF-8 that let byte offsets stand for character positions.

use vstd::prelude::*;
use vstd::utf8::*;

verus! {

/// Encoding distributes over concatenation.
pub proof fn lemma_encode_concat(a: Seq<char>, b: Seq<char>)
    ensures
        encode_utf8(a + b) == encode_utf8(a) + encode_utf8(b),
    decreases a.len(),
{
    if a.len() == 0 {
        assert(a + b =~= b);
        assert(encode_utf8(a) + encode_utf8(b) =~= encode_utf8(b));
    } else {
        lemma_encode_concat(a.drop_first(), b);
        assert((a + b).drop_first() =~= a.drop_first() + b);
        assert(encode_utf8(a + b) =~= encode_utf8(a) + encode_utf8(b));
    }
}

/// Two texts with the same encoding are the same text.
pub proof fn lemma_encode_injective(a: Seq<char>, b: Seq<char>)
    requires
        encode_utf8(a) == encode_utf8(b),
    ensures
        a == b,
{
    encode_utf8_decode_utf8(a);
    encode_utf8_decode_utf8(b);
}

/// A character below 128 is encoded as the single byte of its own value, and every
/// byte of any other character's encoding is 128 or more.
pub proof fn lemma_encode_scalar_ascii(c: char)
    ensures
        (c as u32) < 0x80 ==> encode_scalar(c as u32) == seq![(c as u32) as u8],
        (c as u32) >= 0x80 ==> forall|i: int|
            0 <= i < encode_scalar(c as u32).len() ==> #[trigger] encode_scalar(c as u32)[i]
                >= 0x80,
        encode_scalar(c as u32).len() >= 1,
{
    let s = c as u32;
    char_is_scalar(c);
    if has_width_1_encoding(s) {
        assert((s & 0x7F) as u8 == s as u8) by (bit_vector)
            requires
                s <= 0x7F,
        ;
        assert(encode_scalar(s) =~= seq![(c as u32) as u8]);
    } else {
        assert(forall|b: u8| #![auto] (0x80u8 | b) >= 0x80) by (bit_vector);
        assert(forall|b: u8| #![auto] (0xC0u8 | b) >= 0x80) by (bit_vector);
        assert(forall|b: u8| #![auto] (0xE0u8 | b) >= 0x80) by (bit_vector);
        assert(forall|b: u8| #![auto] (0xF0u8 | b) >= 0x80) by (bit_vector);
    }
}

/// The encoding of a one-character text whose character is below 128.
pub proof fn lemma_encode_single_ascii(c: char)
    requires
        (c as u32) < 0x80,
    ensures
        encode_utf8(seq![c]) == seq![(c as u32) as u8],
{
    lemma_encode_scalar_ascii(c);
    assert(seq![c].drop_first() =~= Seq::<char>::empty());
    assert(encode_utf8(Seq::<char>::empty()) =~= Seq::<u8>::empty());
    assert(encode_utf8(seq![c]) =~= seq![(c as u32) as u8]);
}

/// A byte below 128 in an encoding is the encoding of that very character at the
/// position it came from: where the character `c` (below 128) occurs in `text`, its
/// byte occurs in the encoding.
pub proof fn lemma_ascii_char_shows_in_bytes(text: Seq<char>, at: int)
    requires
        0 <= at < text.len(),
        (text[at] as u32) < 0x80,
    ensures
        encode_utf8(text.take(at)).len() < encode_utf8(text).len(),
        encode_utf8(text)[encode_utf8(text.take(at)).len() as int] == (text[at] as u32) as u8,
{
    let head = text.take(at);
    let tail = text.skip(at);
    assert(text =~= head + tail);
    lemma_encode_concat(head, tail);
    lemma_encode_scalar_ascii(text[at]);
    assert(tail[0] == text[at]);
    assert(encode_utf8(tail) =~= encode_scalar(tail[0] as u32) + encode_utf8(tail.drop_first()));
}

/// Where the encoding of a non-empty text starts with a byte below 128, the text
/// starts with the character of that value, and the rest of the encoding is the
/// encoding of the rest of the text.
pub proof fn lemma_leading_ascii_byte(text: Seq<char>)
    requires
        encode_utf8(text).len() > 0,
        encode_utf8(text)[0] < 0x80,
    ensures
        text.len() > 0,
        text[0] as u32 == encode_utf8(text)[0] as u32,
        encode_utf8(text.drop_first()) == encode_utf8(text).subrange(
            1,
            encode_utf8(text).len() as int,
        ),
{
    if text.len() == 0 {
        assert(encode_utf8(text) =~= Seq::<u8>::empty());
    } else {
        let c = text[0];
        lemma_encode_scalar_ascii(c);
        let first = encode_scalar(c as u32);
        assert(encode_utf8(text) =~= first + encode_utf8(text.drop_first()));
        assert(encode_utf8(text)[0] == first[0]);
        if (c as u32) >= 0x80 {
            assert(first[0] >= 0x80);
        }
        assert(first =~= seq![(c as u32) as u8]);
        assert(encode_utf8(text.drop_first()) =~= encode_utf8(text).subrange(
            1,
            encode_utf8(text).len() as int,
        ));
    }
}

/// Where the encoding of a non-empty text ends with a byte below 128, the text ends
/// with the character of that value, and the encoding without that byte is the
/// encoding of the text without that character.
pub proof fn lemma_trailing_ascii_byte(text: Seq<char>)
    requires
        encode_utf8(text).len() > 0,
        encode_utf8(text).last() < 0x80,
    ensures
        text.len() > 0,
        text.last() as u32 == encode_utf8(text).last() as u32,
        encode_utf8(text.drop_last()) == encode_utf8(text).drop_last(),
{
    if text.len() == 0 {
        assert(encode_utf8(text) =~= Seq::<u8>::empty());
    } else {
        let c = text.last();
        let stem = text.drop_last();
        assert(text =~= stem + seq![c]);
        lemma_encode_concat(stem, seq![c]);
        lemma_encode_scalar_ascii(c);
        assert(seq![c].drop_first() =~= Seq::<char>::empty());
        assert(encode_utf8(Seq::<char>::empty()) =~= Seq::<u8>::empty());
        let last = encode_scalar(c as u32);
        assert(encode_utf8(seq![c]) =~= last);
        assert(encode_utf8(text) =~= encode_utf8(stem) + last);
        assert(encode_utf8(text).last() == last.last());
        if (c as u32) >= 0x80 {
            assert(last[last.len() - 1] >= 0x80);
        }
        assert(last =~= seq![(c as u32) as u8]);
        assert(encode_utf8(stem) =~= encode_utf8(text).drop_last());
    }
}

} // verus!
