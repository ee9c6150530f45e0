//! Reading a whole number from a line of text, and writing one in decimal.
//!
//! A line is read as `str::trim` and `u32::from_str` read it: white space on either
//! side does not count, and what is left has to be decimal digits, with or without a
//! `+` in front, that stand for a number no larger than `u32::MAX`. A number is
//! written with a `-` in front where it is negative and without leading zeros.

use vstd::prelude::*;
use vstd::string::*;
use crate::substring::chars_of;

verus! {

/// The characters with the Unicode property `White_Space`.
pub open spec fn is_whitespace(c: char) -> bool {
    let code = c as u32;
    ||| 0x09 <= code <= 0x0D
    ||| code == 0x20
    ||| code == 0x85
    ||| code == 0xA0
    ||| code == 0x1680
    ||| 0x2000 <= code <= 0x200A
    ||| code == 0x2028
    ||| code == 0x2029
    ||| code == 0x202F
    ||| code == 0x205F
    ||| code == 0x3000
}

/// How many characters of white space `text` starts with.
pub open spec fn leading_whitespace(text: Seq<char>) -> int
    decreases text.len(),
{
    if text.len() > 0 && is_whitespace(text[0]) {
        1 + leading_whitespace(text.drop_first())
    } else {
        0
    }
}

/// How many characters of white space `text` ends with.
pub open spec fn trailing_whitespace(text: Seq<char>) -> int
    decreases text.len(),
{
    if text.len() > 0 && is_whitespace(text.last()) {
        1 + trailing_whitespace(text.drop_last())
    } else {
        0
    }
}

/// `text` without the white space that it starts and ends with.
pub open spec fn trimmed(text: Seq<char>) -> Seq<char> {
    let rest = text.skip(leading_whitespace(text));
    rest.take(rest.len() - trailing_whitespace(rest))
}

/// One of the ten decimal digits.
pub open spec fn is_digit(c: char) -> bool {
    '0' <= c <= '9'
}

/// The number that a run of decimal digits stands for.
pub open spec fn decimal_value(digits: Seq<char>) -> int
    decreases digits.len(),
{
    if digits.len() == 0 {
        0
    } else {
        10 * decimal_value(digits.drop_last()) + (digits.last() as u32 - '0' as u32)
    }
}

/// Every character of `text` is a decimal digit.
pub open spec fn all_digits(text: Seq<char>) -> bool {
    forall|i: int| 0 <= i < text.len() ==> is_digit(#[trigger] text[i])
}

/// `text` without the `+` that it starts with, if it starts with one.
pub open spec fn unsigned_part(text: Seq<char>) -> Seq<char> {
    if text.len() > 0 && text[0] == '+' {
        text.skip(1)
    } else {
        text
    }
}

/// The number that `digits` stands for: one or more decimal digits and nothing else,
/// for a number that is not larger than `u32::MAX`.
pub open spec fn number_of_digits(digits: Seq<char>) -> Option<u32> {
    if digits.len() > 0 && all_digits(digits) && decimal_value(digits) <= u32::MAX {
        Some(decimal_value(digits) as u32)
    } else {
        None
    }
}

/// The number that `text` stands for: decimal digits, with or without a `+` in front.
pub open spec fn number_in(text: Seq<char>) -> Option<u32> {
    number_of_digits(unsigned_part(text))
}

/// The number that stands on `line`, white space on either side aside.
pub open spec fn number_on_line(line: Seq<char>) -> Option<u32> {
    number_in(trimmed(line))
}

/// A run of white space with something else, or the end, behind it is the leading
/// white space.
proof fn lemma_leading_whitespace_is(text: Seq<char>, n: int)
    requires
        0 <= n <= text.len(),
        forall|i: int| 0 <= i < n ==> is_whitespace(text[i]),
        n < text.len() ==> !is_whitespace(text[n]),
    ensures
        leading_whitespace(text) == n,
    decreases n,
{
    if n > 0 {
        let rest = text.drop_first();
        assert forall|i: int| 0 <= i < n - 1 implies is_whitespace(rest[i]) by {
            assert(rest[i] == text[i + 1]);
        }
        lemma_leading_whitespace_is(rest, n - 1);
    }
}

/// A run of white space at the end with something else, or the start, before it is the
/// trailing white space.
proof fn lemma_trailing_whitespace_is(text: Seq<char>, n: int)
    requires
        0 <= n <= text.len(),
        forall|i: int| text.len() - n <= i < text.len() ==> is_whitespace(text[i]),
        n < text.len() ==> !is_whitespace(text[text.len() - n - 1]),
    ensures
        trailing_whitespace(text) == n,
    decreases n,
{
    if n > 0 {
        let rest = text.drop_last();
        assert forall|i: int| rest.len() - (n - 1) <= i < rest.len() implies is_whitespace(
            rest[i],
        ) by {
            assert(rest[i] == text[i]);
        }
        lemma_trailing_whitespace_is(rest, n - 1);
    }
}

/// More digits never stand for a smaller number.
proof fn lemma_decimal_value_grows(digits: Seq<char>, n: int)
    requires
        0 <= n <= digits.len(),
        all_digits(digits),
    ensures
        0 <= decimal_value(digits.take(n)) <= decimal_value(digits),
    decreases digits.len() - n,
{
    lemma_decimal_value_not_negative(digits.take(n));
    if n < digits.len() {
        let longer = digits.take(n + 1);
        assert(longer.drop_last() =~= digits.take(n));
        assert(is_digit(digits[n]));
        assert(longer.last() == digits[n]);
        lemma_decimal_value_grows(digits, n + 1);
    } else {
        assert(digits.take(n) =~= digits);
    }
}

proof fn lemma_decimal_value_not_negative(digits: Seq<char>)
    requires
        all_digits(digits),
    ensures
        0 <= decimal_value(digits),
    decreases digits.len(),
{
    if digits.len() > 0 {
        let shorter = digits.drop_last();
        assert forall|i: int| 0 <= i < shorter.len() implies is_digit(#[trigger] shorter[i]) by {
            assert(shorter[i] == digits[i]);
        }
        lemma_decimal_value_not_negative(shorter);
        assert(is_digit(digits[digits.len() - 1]));
    }
}

/// Tells white space from other characters.
pub fn is_space(c: char) -> (space: bool)
    ensures
        space == is_whitespace(c),
{
    let code = c as u32;
    (0x09 <= code && code <= 0x0D) || code == 0x20 || code == 0x85 || code == 0xA0 || code
        == 0x1680 || (0x2000 <= code && code <= 0x200A) || code == 0x2028 || code == 0x2029
        || code == 0x202F || code == 0x205F || code == 0x3000
}

/// Reads the number that stands on `line`. White space before and behind it is passed
/// over; anything else beside the digits and one `+` in front, no digit at all, or a
/// number above `u32::MAX` gives `None`.
pub fn read_number(line: &str) -> (number: Option<u32>)
    ensures
        number == number_on_line(line@),
{
    let chars = chars_of(line);
    let n = chars.len();
    let mut start: usize = 0;
    while start < n && is_space(chars[start])
        invariant
            start <= n == chars@.len(),
            forall|i: int| 0 <= i < start ==> is_whitespace(chars@[i]),
        decreases n - start,
    {
        start += 1;
    }
    let mut end: usize = n;
    while end > start && is_space(chars[end - 1])
        invariant
            start <= end <= n == chars@.len(),
            forall|i: int| end <= i < n ==> is_whitespace(chars@[i]),
        decreases end,
    {
        end -= 1;
    }
    let ghost text = chars@.subrange(start as int, end as int);
    proof {
        lemma_leading_whitespace_is(chars@, start as int);
        let rest = chars@.skip(start as int);
        assert forall|i: int| rest.len() - (n - end) <= i < rest.len() implies is_whitespace(
            rest[i],
        ) by {
            assert(rest[i] == chars@[i + start]);
        }
        if n - end < rest.len() {
            assert(rest[rest.len() - (n - end) - 1] == chars@[end - 1]);
        }
        lemma_trailing_whitespace_is(rest, n - end);
        assert(trimmed(chars@) =~= text);
    }
    let mut at: usize = start;
    if at < end && chars[at] == '+' {
        at += 1;
    }
    let ghost digits = chars@.subrange(at as int, end as int);
    proof {
        if text.len() > 0 && text[0] == '+' {
            assert(text.skip(1) =~= digits);
        } else {
            assert(text =~= digits);
        }
        assert(unsigned_part(text) == digits);
    }
    if at == end {
        return None;
    }
    let first: usize = at;
    let mut value: u64 = 0;
    while at < end
        invariant
            first <= at <= end <= n == chars@.len(),
            first < end,
            digits == chars@.subrange(first as int, end as int),
            number_on_line(line@) == number_of_digits(digits),
            forall|i: int| 0 <= i < at - first ==> is_digit(#[trigger] digits[i]),
            value == decimal_value(digits.take(at - first)),
            value <= u32::MAX,
        decreases end - at,
    {
        let c = chars[at];
        if !('0' <= c && c <= '9') {
            proof {
                assert(digits[at - first] == c);
            }
            return None;
        }
        let digit = (c as u32 - '0' as u32) as u64;
        let next = value * 10 + digit;
        proof {
            let longer = digits.take(at - first + 1);
            assert(longer.drop_last() =~= digits.take(at - first));
            assert(longer.last() == c);
            assert(next == decimal_value(longer));
        }
        if next > u32::MAX as u64 {
            proof {
                if all_digits(digits) {
                    lemma_decimal_value_grows(digits, at - first + 1);
                }
            }
            return None;
        }
        value = next;
        at += 1;
    }
    proof {
        assert(digits.take(at - first) =~= digits);
    }
    Some(value as u32)
}

/// The character for the decimal digit `d`.
pub open spec fn digit_char(d: int) -> char {
    if d == 0 {
        '0'
    } else if d == 1 {
        '1'
    } else if d == 2 {
        '2'
    } else if d == 3 {
        '3'
    } else if d == 4 {
        '4'
    } else if d == 5 {
        '5'
    } else if d == 6 {
        '6'
    } else if d == 7 {
        '7'
    } else if d == 8 {
        '8'
    } else {
        '9'
    }
}

/// The decimal digits of `n`, without leading zeros; zero is written `0`.
pub open spec fn digits_of(n: nat) -> Seq<char>
    decreases n,
{
    if n < 10 {
        seq![digit_char(n as int)]
    } else {
        digits_of(n / 10).push(digit_char((n % 10) as int))
    }
}

/// `n` in decimal, with a `-` in front where it is negative.
pub open spec fn decimal_text(n: int) -> Seq<char> {
    if n < 0 {
        seq!['-'] + digits_of((-n) as nat)
    } else {
        digits_of(n as nat)
    }
}

/// The text of one decimal digit.
fn digit_text(d: u32) -> (text: &'static str)
    requires
        d < 10,
    ensures
        text@ == seq![digit_char(d as int)],
{
    proof {
        reveal_strlit("0");
        reveal_strlit("1");
        reveal_strlit("2");
        reveal_strlit("3");
        reveal_strlit("4");
        reveal_strlit("5");
        reveal_strlit("6");
        reveal_strlit("7");
        reveal_strlit("8");
        reveal_strlit("9");
    }
    let text = match d {
        0 => "0",
        1 => "1",
        2 => "2",
        3 => "3",
        4 => "4",
        5 => "5",
        6 => "6",
        7 => "7",
        8 => "8",
        _ => "9",
    };
    assert(text@ =~= seq![digit_char(d as int)]);
    text
}

/// Writes the decimal digits of `n` at the end of `out`.
fn push_digits(n: u32, out: &mut String)
    ensures
        final(out)@ == old(out)@ + digits_of(n as nat),
    decreases n,
{
    if n >= 10 {
        push_digits(n / 10, out);
    }
    out.append(digit_text(n % 10));
    assert(out@ =~= old(out)@ + digits_of(n as nat));
}

/// Writes `n` in decimal.
pub fn write_number(n: i32) -> (text: String)
    ensures
        text@ == decimal_text(n as int),
{
    let mut text = String::new();
    if n < 0 {
        proof {
            reveal_strlit("-");
        }
        text.append("-");
        push_digits((-(n as i64)) as u32, &mut text);
        assert(text@ =~= decimal_text(n as int));
    } else {
        push_digits(n as u32, &mut text);
        assert(text@ =~= decimal_text(n as int));
    }
    text
}

/// The digits that are written for a number are digits, at least one, and stand for
/// that number.
pub proof fn lemma_digits_of(n: nat)
    ensures
        digits_of(n).len() > 0,
        all_digits(digits_of(n)),
        decimal_value(digits_of(n)) == n,
    decreases n,
{
    if n >= 10 {
        lemma_digits_of(n / 10);
        let shorter = digits_of(n / 10);
        let all = digits_of(n);
        assert(all.drop_last() =~= shorter);
        assert(all.last() == digit_char((n % 10) as int));
        assert forall|i: int| 0 <= i < all.len() implies is_digit(#[trigger] all[i]) by {
            if i < shorter.len() {
                assert(all[i] == shorter[i]);
            }
        }
    } else {
        let all = digits_of(n);
        assert(all.drop_last() =~= Seq::<char>::empty());
        assert(decimal_value(all.drop_last()) == 0);
    }
}

/// What is written for a number that is not negative is read back as that number.
pub proof fn law_written_number_reads_back(n: u32)
    ensures
        number_in(decimal_text(n as int)) == Some(n),
        number_on_line(decimal_text(n as int)) == Some(n),
{
    let text = decimal_text(n as int);
    lemma_digits_of(n as nat);
    assert(is_digit(text[0]));
    assert(is_digit(text[text.len() - 1]));
    assert(unsigned_part(text) == text);
    assert(leading_whitespace(text) == 0);
    assert(text.skip(0) =~= text);
    assert(trailing_whitespace(text) == 0);
    assert(trimmed(text) =~= text);
}

} // verus!
