//! Helps put texts together: numbers, plurals, and lists with a separator.

use itertools::Itertools;
use vstd::prelude::*;
use vstd::string::StringExecFns;

verus! {

/// The character of a single decimal digit.
pub open spec fn digit_char(digit: int) -> char {
    if digit == 0 {
        '0'
    } else if digit == 1 {
        '1'
    } else if digit == 2 {
        '2'
    } else if digit == 3 {
        '3'
    } else if digit == 4 {
        '4'
    } else if digit == 5 {
        '5'
    } else if digit == 6 {
        '6'
    } else if digit == 7 {
        '7'
    } else if digit == 8 {
        '8'
    } else {
        '9'
    }
}

/// The decimal digits of a number that is not negative, without leading zeros.
pub open spec fn digits(number: nat) -> Seq<char>
    decreases number,
{
    if number < 10 {
        seq![digit_char(number as int)]
    } else {
        digits(number / 10).push(digit_char((number % 10) as int))
    }
}

/// A number written in decimal, with a minus sign in front if it is negative.
pub open spec fn decimal(number: int) -> Seq<char> {
    if number < 0 {
        seq!['-'] + digits((-number) as nat)
    } else {
        digits(number as nat)
    }
}

/// The texts with the separator between each two of them.
pub open spec fn joined(texts: Seq<Seq<char>>, separator: Seq<char>) -> Seq<char>
    decreases texts.len(),
{
    if texts.len() == 0 {
        Seq::empty()
    } else if texts.len() == 1 {
        texts.last()
    } else {
        joined(texts.drop_last(), separator) + separator + texts.last()
    }
}

/// The views of a list of strings, in the order of the list.
pub open spec fn text_views(texts: Seq<String>) -> Seq<Seq<char>> {
    texts.map_values(|text: String| text@)
}

/// The count and the word, with an `s` after the word unless the count is one.
pub open spec fn plural_text(count: int, word: Seq<char>) -> Seq<char> {
    if count == 1 {
        decimal(count) + " "@ + word
    } else {
        decimal(count) + " "@ + word + "s"@
    }
}

/// Writes a number in decimal.
///
/// Calls `to_string` of the standard library on an `i128`, which formats the number as `Display`
/// does for integers: in decimal digits without leading zeros, with a minus sign in front of a
/// negative number.
#[verifier::external_body]
pub(crate) fn number_text(number: i128) -> (text: String)
    ensures
        text@ == decimal(number as int),
{
    number.to_string()
}

/// Puts the texts one behind the other, with the separator between each two of them.
///
/// Calls `itertools::Itertools::format` on the texts and formats what it returns: this writes the
/// first text and then, for each further text, the separator and the text.
#[verifier::external_body]
pub(crate) fn join_texts(texts: &Vec<String>, separator: &str) -> (text: String)
    ensures
        text@ == joined(text_views(texts@), separator@),
{
    format!("{}", texts.iter().format(separator))
}

/// Writes a count with a word in the singular or the plural, as the count asks.
pub fn plural_of(count: i128, word: &str) -> (text: String)
    ensures
        text@ == plural_text(count as int, word@),
{
    let mut text = number_text(count);
    text.append(" ");
    text.append(word);
    if count != 1 {
        text.append("s");
    }
    text
}

/// Helps write correct plurals: `plural(0, "coin")` is `0 coins`, `plural(1, "coin")` is `1 coin`,
/// and `plural(2, "coin")` is `2 coins`.
pub fn plural(count: i32, word: &str) -> (text: String)
    ensures
        text@ == plural_text(count as int, word@),
{
    plural_of(count as i128, word)
}

/// Writes a count and a word with a blank between them.
pub fn counted(count: i128, word: &str) -> (text: String)
    ensures
        text@ == decimal(count as int) + " "@ + word@,
{
    let mut text = number_text(count);
    text.append(" ");
    text.append(word);
    text
}

/// The text without the white space at its start and at its end.
pub uninterp spec fn trimmed_text(text: Seq<char>) -> Seq<char>;

/// The text with each letter in lower case.
pub uninterp spec fn lowercase_text(text: Seq<char>) -> Seq<char>;

/// The value of a decimal digit, if the character is one.
pub open spec fn digit_value(digit: char) -> Option<nat> {
    if '0' <= digit <= '9' {
        Some((digit as nat - '0' as nat) as nat)
    } else {
        None
    }
}

/// The number that the decimal digits stand for, if the text is made of one or more of them.
pub open spec fn digits_value(text: Seq<char>) -> Option<nat>
    decreases text.len(),
{
    if text.len() == 0 {
        None
    } else if text.len() == 1 {
        digit_value(text.last())
    } else {
        match (digits_value(text.drop_last()), digit_value(text.last())) {
            (Some(front), Some(digit)) => Some(10 * front + digit),
            _ => None,
        }
    }
}

/// The number that the text stands for: decimal digits, with a plus sign in front of them or
/// without, for a number that the machine can hold.
pub open spec fn number_of_text(text: Seq<char>) -> Option<usize> {
    let digits = if text.len() > 0 && text.first() == '+' {
        text.drop_first()
    } else {
        text
    };
    match digits_value(digits) {
        Some(number) => if number <= usize::MAX {
            Some(number as usize)
        } else {
            None
        },
        None => None,
    }
}

/// Takes the white space off the start and the end of a text.
///
/// Calls `str::trim` of the standard library. What counts as white space is left to that
/// function: its result has the name [`trimmed_text`].
#[verifier::external_body]
pub(crate) fn trimmed(text: &str) -> (short: &str)
    ensures
        short@ == trimmed_text(text@),
{
    text.trim()
}

/// Puts a text into lower case.
///
/// Calls `str::to_lowercase` of the standard library. Which letters have a lower case is left to
/// that function: its result has the name [`lowercase_text`].
#[verifier::external_body]
pub(crate) fn lowered(text: &str) -> (lower: String)
    ensures
        lower@ == lowercase_text(text@),
{
    text.to_lowercase()
}

/// Reads a number.
///
/// Calls `str::parse` of the standard library for a `usize`, which takes decimal digits with an
/// optional plus sign in front, and fails on an empty text, on any other character, and on a number
/// that a `usize` cannot hold.
#[verifier::external_body]
pub(crate) fn parsed_number(text: &str) -> (number: Option<usize>)
    ensures
        number == number_of_text(text@),
{
    text.parse::<usize>().ok()
}

} // verus!
