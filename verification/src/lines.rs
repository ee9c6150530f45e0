//! Splitting text into lines.
//!
//! A line ends at a line feed; a carriage return directly before that line feed
//! belongs to the line ending too. The last line needs no line feed, and text that
//! ends in one has no empty line after it.

use vstd::prelude::*;
use vstd::string::*;
use vstd::utf8::*;
use crate::cut::{cut_at_first, first_position, lemma_first_position};
use crate::substring::{is_substring, occurs_at};
use crate::utf8_facts::{
    lemma_ascii_char_shows_in_bytes, lemma_encode_concat, lemma_encode_injective,
    lemma_encode_single_ascii, lemma_trailing_ascii_byte,
};

verus! {

/// Position of the first line feed in `text`, or `text.len()` where it holds none.
pub open spec fn first_line_feed(text: Seq<char>) -> int {
    first_position(text, '\n')
}

/// `line` without the carriage return that it ends in, if it ends in one.
pub open spec fn without_trailing_cr(line: Seq<char>) -> Seq<char> {
    if line.len() > 0 && line.last() == '\r' {
        line.drop_last()
    } else {
        line
    }
}

/// The lines of `text`, in order, without their line endings.
pub open spec fn lines_of(text: Seq<char>) -> Seq<Seq<char>>
    decreases text.len(),
    via lines_of_decreases
{
    if text.len() == 0 {
        Seq::empty()
    } else {
        let end = first_line_feed(text);
        if end == text.len() {
            seq![text]
        } else {
            seq![without_trailing_cr(text.take(end))] + lines_of(text.skip(end + 1))
        }
    }
}

#[via_fn]
proof fn lines_of_decreases(text: Seq<char>) {
    lemma_first_position(text, '\n');
}

/// Drops the carriage return that `line` ends in, if it ends in one.
fn trim_trailing_cr<'a>(line: &'a str) -> (trimmed: &'a str)
    ensures
        trimmed@ == without_trailing_cr(line@),
{
    let bytes = line.as_bytes();
    let n = bytes.len();
    proof {
        encode_utf8_valid_utf8(line@);
    }
    if n > 0 && bytes[n - 1] == 0x0D {
        proof {
            is_char_boundary_iff_is_leading_byte(bytes@, n - 1);
            lemma_trailing_ascii_byte(line@);
            char_u32_cast(line@.last(), 0x0Du32);
            assert(line@.last() == '\r');
        }
        let (stem, _) = line.split_at(n - 1);
        proof {
            assert(encode_utf8(stem@) =~= encode_utf8(line@).drop_last());
            lemma_encode_injective(stem@, line@.drop_last());
        }
        stem
    } else {
        proof {
            if line@.len() > 0 && line@.last() == '\r' {
                lemma_ascii_char_shows_in_bytes(line@, line@.len() - 1);
                let stem = line@.drop_last();
                assert(line@ =~= stem + seq!['\r']);
                lemma_encode_concat(stem, seq!['\r']);
                lemma_encode_single_ascii('\r');
                assert(line@.take(line@.len() - 1) =~= stem);
            }
        }
        line
    }
}

/// Splits `contents` into its lines. Each line borrows from `contents`.
pub fn lines<'a>(contents: &'a str) -> (out: Vec<&'a str>)
    ensures
        out.deep_view() == lines_of(contents@),
{
    let mut out: Vec<&'a str> = Vec::new();
    let mut rest: &'a str = contents;
    assert(out.deep_view() + lines_of(rest@) =~= lines_of(contents@));
    loop
        invariant
            out.deep_view() + lines_of(rest@) == lines_of(contents@),
        decreases rest@.len(),
    {
        if rest.is_empty() {
            assert(out.deep_view() + lines_of(rest@) =~= out.deep_view());
            return out;
        }
        proof {
            lemma_first_position(rest@, '\n');
        }
        let ghost before = out.deep_view();
        let (head, after) = cut_at_first(rest, 0x0A);
        match after {
            None => {
                out.push(head);
                assert(rest@.take(rest@.len() as int) =~= rest@);
                assert(lines_of(rest@) =~= seq![head@]);
                assert(out.deep_view() =~= before + seq![head@]);
                return out;
            },
            Some(after) => {
                let line = trim_trailing_cr(head);
                out.push(line);
                assert(out.deep_view() =~= before + seq![line@]);
                assert(lines_of(rest@) =~= seq![line@] + lines_of(after@));
                assert(out.deep_view() + lines_of(after@) =~= before + lines_of(rest@));
                rest = after;
            },
        }
    }
}

/// Every line is a piece of the text it was cut from, and holds no line feed.
pub proof fn lemma_lines_are_pieces(text: Seq<char>)
    ensures
        forall|i: int|
            0 <= i < lines_of(text).len() ==> is_substring(#[trigger] lines_of(text)[i], text),
        forall|i: int, j: int|
            0 <= i < lines_of(text).len() && 0 <= j < lines_of(text)[i].len() ==> lines_of(
                text,
            )[i][j] != '\n',
    decreases text.len(),
{
    lemma_first_position(text, '\n');
    if text.len() == 0 {
    } else {
        let end = first_line_feed(text);
        if end == text.len() {
            assert(text.subrange(0, text.len() as int) =~= text);
            assert(occurs_at(text, text, 0));
        } else {
            let first = without_trailing_cr(text.take(end));
            let rest = text.skip(end + 1);
            lemma_lines_are_pieces(rest);
            assert(text.subrange(0, first.len() as int) =~= first);
            assert(occurs_at(first, text, 0));
            assert forall|i: int| 0 <= i < lines_of(text).len() implies is_substring(
                #[trigger] lines_of(text)[i],
                text,
            ) by {
                if i > 0 {
                    let line = lines_of(rest)[i - 1];
                    assert(lines_of(text)[i] == line);
                    assert(is_substring(line, rest));
                    let at = choose|at: int| occurs_at(line, rest, at);
                    assert(text.subrange(at + end + 1, at + end + 1 + line.len()) =~= rest.subrange(
                        at,
                        at + line.len(),
                    ));
                    assert(occurs_at(line, text, at + end + 1));
                }
            }
            assert forall|i: int, j: int|
                0 <= i < lines_of(text).len() && 0 <= j < lines_of(text)[i].len() implies lines_of(
                text,
            )[i][j] != '\n' by {
                if i > 0 {
                    assert(lines_of(text)[i] == lines_of(rest)[i - 1]);
                } else {
                    assert(first[j] == text[j]);
                }
            }
        }
    }
}

} // verus!
