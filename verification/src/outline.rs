//! Framing a line of text with asterisks.

use vstd::prelude::*;
use vstd::string::*;
use crate::numbers::{decimal_text, write_number};
use crate::plane::Point;
use crate::words::byte_len;

verus! {

/// `count` copies of `piece`, one after the other.
pub open spec fn repeated(piece: Seq<char>, count: nat) -> Seq<char>
    decreases count,
{
    if count == 0 {
        Seq::empty()
    } else {
        repeated(piece, (count - 1) as nat) + piece
    }
}

/// Writes `count` copies of `piece`, one after the other.
pub fn repeat(piece: &str, count: usize) -> (text: String)
    ensures
        text@ == repeated(piece@, count as nat),
{
    let mut text = String::new();
    let mut done: usize = 0;
    while done < count
        invariant
            done <= count,
            text@ == repeated(piece@, done as nat),
        decreases count - done,
    {
        text.append(piece);
        done += 1;
    }
    text
}

/// The frame around a text that takes `width` bytes: a row of asterisks, a row of
/// spaces between two asterisks, the text between `* ` and ` * `, and the first two
/// rows again in the other order.
pub open spec fn outline_of(text: Seq<char>) -> Seq<Seq<char>> {
    let width = byte_len(text);
    let bar = "**"@ + repeated("*"@, width) + "**"@;
    let gap = "* "@ + repeated(" "@, width) + " *"@;
    seq![bar, gap, "* "@ + text + " * "@, gap, bar]
}

/// Frames `text` with asterisks, as `outline_of` says, one string for each row.
pub fn outline(text: &str) -> (rows: Vec<String>)
    ensures
        rows.deep_view() == outline_of(text@),
{
    let width = text.as_bytes().len();
    let mut bar = String::from_str("**");
    bar.append(repeat("*", width).as_str());
    bar.append("**");
    let mut gap = String::from_str("* ");
    gap.append(repeat(" ", width).as_str());
    gap.append(" *");
    let mut middle = String::from_str("* ");
    middle.append(text);
    middle.append(" * ");
    let mut rows: Vec<String> = Vec::new();
    rows.push(bar.clone());
    rows.push(gap.clone());
    rows.push(middle);
    rows.push(gap);
    rows.push(bar);
    assert(rows.deep_view() =~= outline_of(text@));
    rows
}

/// Something that has a text of its own and can be shown in a frame.
pub trait OutlinePrint {
    /// The text that stands for this value.
    fn to_text(&self) -> String;

    /// Frames the value's text with asterisks.
    fn outline_print(&self) -> (rows: Vec<String>)
        default_ensures
            exists|text: String|
                #[trigger] call_ensures(Self::to_text, (self,), text) && rows.deep_view()
                    == outline_of(text@),
    {
        let text = self.to_text();
        outline(text.as_str())
    }
}

/// The text of the point with the coordinates `x` and `y`: the two numbers in round
/// brackets, with a full stop and a space between them.
pub open spec fn point_text(x: i32, y: i32) -> Seq<char> {
    "("@ + decimal_text(x as int) + ". "@ + decimal_text(y as int) + ")"@
}

impl OutlinePrint for Point {
    fn to_text(&self) -> (text: String)
        ensures
            text@ == point_text(self.x, self.y),
    {
        let mut text = String::from_str("(");
        text.append(write_number(self.x).as_str());
        text.append(". ");
        text.append(write_number(self.y).as_str());
        text.append(")");
        text
    }

    fn outline_print(&self) -> (rows: Vec<String>)
        ensures
            rows.deep_view() == outline_of(point_text(self.x, self.y)),
    {
        let output = self.to_text();
        outline(output.as_str())
    }
}

/// The entries of `parts` one after the other, with `separator` between each two.
pub open spec fn joined(parts: Seq<Seq<char>>, separator: Seq<char>) -> Seq<char>
    decreases parts.len(),
{
    if parts.len() == 0 {
        Seq::empty()
    } else if parts.len() == 1 {
        parts[0]
    } else {
        joined(parts.drop_last(), separator) + separator + parts.last()
    }
}

/// Writes the entries of `parts` one after the other, with `separator` between each
/// two.
pub fn join(parts: &Vec<String>, separator: &str) -> (text: String)
    ensures
        text@ == joined(parts.deep_view(), separator@),
{
    let ghost all = parts.deep_view();
    let mut text = String::new();
    let mut done: usize = 0;
    assert(all.take(0) =~= Seq::<Seq<char>>::empty());
    while done < parts.len()
        invariant
            done <= parts.len(),
            all == parts.deep_view(),
            text@ == joined(all.take(done as int), separator@),
        decreases parts.len() - done,
    {
        proof {
            assert(all.take(done + 1).drop_last() =~= all.take(done as int));
            assert(all.take(done + 1).last() == parts@[done as int]@);
        }
        if done > 0 {
            text.append(separator);
        }
        text.append(parts[done].as_str());
        done += 1;
    }
    assert(all.take(done as int) =~= all);
    text
}

/// A list of strings with a text of its own.
pub struct Wrapper(pub Vec<String>);

/// The text of a list: its entries between square brackets, with a comma and a space
/// between each two.
pub open spec fn list_text(entries: Seq<Seq<char>>) -> Seq<char> {
    "["@ + joined(entries, ", "@) + "]"@
}

impl OutlinePrint for Wrapper {
    fn to_text(&self) -> (text: String)
        ensures
            text@ == list_text(self.0.deep_view()),
    {
        let mut text = String::from_str("[");
        text.append(join(&self.0, ", ").as_str());
        text.append("]");
        text
    }
}

} // verus!
