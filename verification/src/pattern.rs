//! The date that a file name carries: the places where a pattern matches the
//! name, and the year and month that a single match gives.
//!
//! Matching is the regex crate's. The function marked `external_body` calls
//! it; its contract is believed, not proved.

use vstd::prelude::*;
use crate::text::{decimal_value, parse_decimal, same_text};
use crate::timestamp::{first_of_month, first_of_month_of, CaptureTimestamp};

verus! {

/// One group of a match: the name that the pattern gives the group, if any,
/// and the text that the group matched, if it took part in the match.
#[derive(Clone, Debug, PartialEq, Eq)]
pub struct CaptureGroup {
    pub name: Option<String>,
    pub text: Option<String>,
}

/// A group of a match, as texts.
#[verifier::ext_equal]
pub struct GroupText {
    pub name: Option<Seq<char>>,
    pub text: Option<Seq<char>>,
}

impl DeepView for CaptureGroup {
    type V = GroupText;

    open spec fn deep_view(&self) -> GroupText {
        GroupText { name: self.name.deep_view(), text: self.text.deep_view() }
    }
}

/// The pattern that finds a date in a file name: a year from 2000 to 2029,
/// a month and a day, each pair with or without a hyphen between.
pub open spec fn date_pattern_text() -> Seq<char> {
    "(?P<y>20[012]\\d)\\-?(?P<m>[01]\\d)\\-?(?P<d>\\d{2})"@
}

/// The pattern that finds a date in a file name.
pub fn date_pattern() -> (pattern: &'static str)
    ensures
        pattern@ == date_pattern_text(),
{
    "(?P<y>20[012]\\d)\\-?(?P<m>[01]\\d)\\-?(?P<d>\\d{2})"
}

/// The successive matches of `pattern` in `text` that do not overlap, from
/// left to right, as `regex::Regex::captures_iter` finds them, each with all
/// the groups of the pattern in their order (the whole match first); `None`
/// where `regex::Regex::new` refuses the pattern.
pub uninterp spec fn pattern_captures(pattern: Seq<char>, text: Seq<char>) -> Option<
    Seq<Seq<GroupText>>,
>;

/// Compiles `pattern` with `regex::Regex::new` and walks the matches that
/// `Regex::captures_iter` finds in `text`. Of each match it copies every
/// group: its name from `Regex::capture_names`, its text from
/// `Captures::iter` and `Match::as_str`. The result depends on the two texts
/// alone.
#[verifier::external_body]
fn find_captures(pattern: &str, text: &str) -> (found: Option<Vec<Vec<CaptureGroup>>>)
    ensures
        found.deep_view() == pattern_captures(pattern@, text@),
{
    let regex = regex::Regex::new(pattern).ok()?;
    let mut found = Vec::new();
    for captures in regex.captures_iter(text) {
        let groups = regex.capture_names().zip(captures.iter()).map(
            |(name, group)| CaptureGroup {
                name: name.map(|n| n.to_string()),
                text: group.map(|m| m.as_str().to_string()),
            },
        );
        found.push(groups.collect());
    }
    Some(found)
}

/// The text of the first group called `name`; `None` where no group has that
/// name or the group took no part in the match. A proof about given groups
/// gives the definition fuel for their number.
pub open spec fn named_text(groups: Seq<GroupText>, name: Seq<char>) -> Option<Seq<char>>
    decreases groups.len(),
{
    if groups.len() == 0 {
        None
    } else if groups[0].name == Some(name) {
        groups[0].text
    } else {
        named_text(groups.drop_first(), name)
    }
}

/// The number that a captured text writes: decimal digits and nothing else,
/// and no more than an `i32` holds.
pub open spec fn captured_number(text: Option<Seq<char>>) -> Option<int> {
    match text {
        Some(digits) => match decimal_value(digits) {
            Some(value) => if value <= i32::MAX {
                Some(value as int)
            } else {
                None
            },
            None => None,
        },
        None => None,
    }
}

/// The date that the matches of the date pattern give. There is one only
/// where the pattern matched exactly once, so that no match is picked over
/// another; the match has four groups (the whole and three more), and its
/// groups `y` and `m` write a year and a month in decimal. The date is the
/// first of that month at midnight.
pub open spec fn date_of_captures(matches: Seq<Seq<GroupText>>) -> Option<CaptureTimestamp> {
    if matches.len() != 1 || matches[0].len() != 4 {
        None
    } else {
        match (
            captured_number(named_text(matches[0], "y"@)),
            captured_number(named_text(matches[0], "m"@)),
        ) {
            (Some(year), Some(month)) => first_of_month_of(year, month),
            _ => None,
        }
    }
}

/// The date that a file name carries under `pattern`.
pub open spec fn filename_date(pattern: Seq<char>, name: Seq<char>) -> Option<CaptureTimestamp> {
    match pattern_captures(pattern, name) {
        Some(matches) => date_of_captures(matches),
        None => None,
    }
}

fn group_text<'a>(groups: &'a Vec<CaptureGroup>, name: &str) -> (found: Option<&'a String>)
    ensures
        found.deep_view() == named_text(groups.deep_view(), name@),
{
    let mut i: usize = 0;
    assert(groups.deep_view().skip(0) =~= groups.deep_view());
    while i < groups.len()
        invariant
            0 <= i <= groups.len(),
            named_text(groups.deep_view(), name@) == named_text(
                groups.deep_view().skip(i as int),
                name@,
            ),
        decreases groups.len() - i,
    {
        let ghost rest = groups.deep_view().skip(i as int);
        assert(rest[0] == groups[i as int].deep_view());
        assert(rest.drop_first() =~= groups.deep_view().skip(i + 1));
        let named = match &groups[i].name {
            Some(text) => same_text(text.as_str(), name),
            None => false,
        };
        if named {
            return groups[i].text.as_ref();
        }
        i = i + 1;
    }
    None
}

fn number_of(text: Option<&String>) -> (number: Option<i32>)
    ensures
        match number {
            Some(value) => captured_number(text.deep_view()) == Some(value as int),
            None => captured_number(text.deep_view()) is None,
        },
{
    match text {
        Some(digits) => match parse_decimal(digits.as_str()) {
            Some(value) => if value <= 0x7fff_ffff {
                Some(value as i32)
            } else {
                None
            },
            None => None,
        },
        None => None,
    }
}

/// The date that the matches of the date pattern in a file name give: the
/// first of the month that the single match names, and nothing where the
/// pattern matched not at all or more than once.
pub fn date_from_captures(matches: &Vec<Vec<CaptureGroup>>) -> (date: Option<CaptureTimestamp>)
    ensures
        date == date_of_captures(matches.deep_view()),
        matches.len() != 1 ==> date is None,
        date matches Some(stamp) ==> stamp.wf() && captured_number(
            named_text(matches.deep_view()[0], "y"@),
        ) == Some(stamp.year as int) && captured_number(
            named_text(matches.deep_view()[0], "m"@),
        ) == Some(stamp.month as int),
{
    if matches.len() != 1 {
        return None;
    }
    let groups = &matches[0];
    assert(matches.deep_view()[0] == groups.deep_view());
    if groups.len() != 4 {
        return None;
    }
    let year = number_of(group_text(groups, "y"));
    let month = number_of(group_text(groups, "m"));
    match (year, month) {
        (Some(y), Some(m)) => first_of_month(y, m as u32),
        _ => None,
    }
}

/// Looks for a date in `name` with `pattern`.
pub fn date_in_name(pattern: &str, name: &str) -> (date: Option<CaptureTimestamp>)
    ensures
        date == filename_date(pattern@, name@),
        date matches Some(stamp) ==> stamp.wf(),
{
    match find_captures(pattern, name) {
        Some(matches) => date_from_captures(&matches),
        None => None,
    }
}

} // verus!
