//! What the operator typed: the number of a choice, a year, a month. An
//! answer counts without the whitespace around it; one that is not
//! understood gives `None`, and the caller asks again.

use vstd::prelude::*;
use crate::text::{
    all_digits, chars_of, digit_value, digits_value, is_digit, parse_decimal, trim, trimmed,
};

verus! {

/// The choices about a file that only its time in the file system dates.
#[derive(Clone, Copy, Debug, PartialEq, Eq, Structural)]
pub enum DateMenu {
    /// Answer 1: take the file's time.
    UseFileTime,
    /// Answer 2: enter the year and the month.
    EnterManually,
    /// Answer 3: leave the file where it is.
    Skip,
}

/// The choices about a file whose name is taken at the destination by a file
/// of another size.
#[derive(Clone, Copy, Debug, PartialEq, Eq, Structural)]
pub enum ConflictChoice {
    /// Answer 1: put the source in the place of the file that is there.
    Override,
    /// Answer 2: keep the file that is there and leave the source.
    Skip,
    /// Answer 3: keep both, the source under another name.
    KeepBoth,
}

/// The number that answers a menu of `options` choices, numbered from 1: the
/// answer is one digit, and the digit is one of the choices.
pub open spec fn option_of(input: Seq<char>, options: int) -> Option<int> {
    let answer = trimmed(input);
    if answer.len() == 1 && is_digit(answer[0]) && 1 <= digit_value(answer[0]) <= options {
        Some(digit_value(answer[0]) as int)
    } else {
        None
    }
}

/// Reads the answer to a menu of `options` choices.
pub fn parse_option(input: &str, options: u32) -> (option: Option<u32>)
    ensures
        match option {
            Some(number) => option_of(input@, options as int) == Some(number as int),
            None => option_of(input@, options as int) is None,
        },
{
    let answer = trim(input);
    let chars = chars_of(answer.as_str());
    if chars.len() != 1 {
        return None;
    }
    let c = chars[0];
    if !(c >= '0' && c <= '9') {
        return None;
    }
    let number: u32 = c as u32 - '0' as u32;
    if 1 <= number && number <= options {
        Some(number)
    } else {
        None
    }
}

/// The choice that answers the menu about a file's time.
pub open spec fn date_menu_of(input: Seq<char>) -> Option<DateMenu> {
    match option_of(input, 3) {
        Some(number) => if number == 1 {
            Some(DateMenu::UseFileTime)
        } else if number == 2 {
            Some(DateMenu::EnterManually)
        } else {
            Some(DateMenu::Skip)
        },
        None => None,
    }
}

/// Reads the answer to the menu about a file's time.
pub fn parse_date_menu(input: &str) -> (choice: Option<DateMenu>)
    ensures
        choice == date_menu_of(input@),
{
    match parse_option(input, 3) {
        Some(number) => if number == 1 {
            Some(DateMenu::UseFileTime)
        } else if number == 2 {
            Some(DateMenu::EnterManually)
        } else {
            Some(DateMenu::Skip)
        },
        None => None,
    }
}

/// The choice that answers the menu about a name that is taken.
pub open spec fn conflict_choice_of(input: Seq<char>) -> Option<ConflictChoice> {
    match option_of(input, 3) {
        Some(number) => if number == 1 {
            Some(ConflictChoice::Override)
        } else if number == 2 {
            Some(ConflictChoice::Skip)
        } else {
            Some(ConflictChoice::KeepBoth)
        },
        None => None,
    }
}

/// Reads the answer to the menu about a name that is taken.
pub fn parse_conflict_choice(input: &str) -> (choice: Option<ConflictChoice>)
    ensures
        choice == conflict_choice_of(input@),
{
    match parse_option(input, 3) {
        Some(number) => if number == 1 {
            Some(ConflictChoice::Override)
        } else if number == 2 {
            Some(ConflictChoice::Skip)
        } else {
            Some(ConflictChoice::KeepBoth)
        },
        None => None,
    }
}

/// The number that an answer of exactly `width` decimal digits writes.
pub open spec fn fixed_width_number(input: Seq<char>, width: int) -> Option<int> {
    let answer = trimmed(input);
    if answer.len() == width && all_digits(answer) {
        Some(digits_value(answer) as int)
    } else {
        None
    }
}

/// The year that the operator entered: four digits.
pub open spec fn year_of_input(input: Seq<char>) -> Option<int> {
    fixed_width_number(input, 4)
}

/// The month that the operator entered: two digits that number one of the
/// twelve months.
pub open spec fn month_of_input(input: Seq<char>) -> Option<int> {
    match fixed_width_number(input, 2) {
        Some(month) => if 1 <= month <= 12 {
            Some(month)
        } else {
            None
        },
        None => None,
    }
}

fn parse_fixed_width(input: &str, width: usize) -> (number: Option<u32>)
    requires
        1 <= width <= 9,
    ensures
        match number {
            Some(value) => fixed_width_number(input@, width as int) == Some(value as int),
            None => fixed_width_number(input@, width as int) is None,
        },
{
    let answer = trim(input);
    let chars = chars_of(answer.as_str());
    if chars.len() != width {
        return None;
    }
    let parsed = parse_decimal(answer.as_str());
    proof {
        if all_digits(answer@) {
            lemma_digits_value_bound(answer@);
            lemma_pow10_bound(width as nat);
        }
    }
    parsed
}

/// Ten to the power of `exponent`.
pub open spec fn pow10(exponent: nat) -> nat
    decreases exponent,
{
    if exponent == 0 {
        1
    } else {
        10 * pow10((exponent - 1) as nat)
    }
}

proof fn lemma_pow10_bound(exponent: nat)
    requires
        exponent <= 9,
    ensures
        pow10(exponent) <= 1_000_000_000,
{
    reveal_with_fuel(pow10, 10);
}

/// A number of so many digits is below the power of ten with that exponent.
pub proof fn lemma_digits_value_bound(s: Seq<char>)
    requires
        all_digits(s),
    ensures
        digits_value(s) < pow10(s.len()),
    decreases s.len(),
{
    if s.len() > 0 {
        assert(all_digits(s.drop_last())) by {
            assert forall|i: int| 0 <= i < s.drop_last().len() implies is_digit(
                #[trigger] s.drop_last()[i],
            ) by {
                assert(s.drop_last()[i] == s[i]);
            }
        }
        lemma_digits_value_bound(s.drop_last());
        assert(is_digit(s[s.len() - 1]));
    }
}

/// Reads the year that the operator entered.
pub fn parse_year_input(input: &str) -> (year: Option<i32>)
    ensures
        match year {
            Some(value) => year_of_input(input@) == Some(value as int),
            None => year_of_input(input@) is None,
        },
        year matches Some(value) ==> 0 <= value <= 9999,
{
    match parse_fixed_width(input, 4) {
        Some(value) => {
            proof {
                lemma_digits_value_bound(trimmed(input@));
                reveal_with_fuel(pow10, 5);
            }
            Some(value as i32)
        },
        None => None,
    }
}

/// Reads the month that the operator entered.
pub fn parse_month_input(input: &str) -> (month: Option<u32>)
    ensures
        match month {
            Some(value) => month_of_input(input@) == Some(value as int),
            None => month_of_input(input@) is None,
        },
        month matches Some(value) ==> 1 <= value <= 12,
{
    match parse_fixed_width(input, 2) {
        Some(value) => if 1 <= value && value <= 12 {
            Some(value)
        } else {
            None
        },
        None => None,
    }
}

} // verus!
