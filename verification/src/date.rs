//! Finding the moment a file was taken. The sources are tried in a fixed
//! order and the first that gives a date decides: what the file carries
//! inside, then a date in its name, then the file's time in the file system,
//! which is taken as it is or put before the operator.
//!
//! Reading the file system and asking the operator are the caller's part. A
//! step says what the caller is to do next, and the caller comes back with
//! what it found.

use vstd::prelude::*;
use crate::metadata::{date_from_metadata, embedded_date, EmbeddedMetadata};
use crate::naming::{file_name, file_name_of};
use crate::pattern::{
    captured_number, date_in_name, date_of_captures, filename_date, named_text, pattern_captures,
    GroupText,
};
use crate::timestamp::{
    file_time_of, first_of_month, first_of_month_of, from_unix_seconds, CaptureTimestamp,
};

verus! {

/// What the operator decides about a file that is dated by nothing but its
/// time in the file system.
#[derive(Clone, Copy, Debug, PartialEq, Eq, Structural)]
pub enum DateChoice {
    /// Take the file's time.
    UseFileTime,
    /// Take the first of the month that the operator names.
    Manual { year: i32, month: u32 },
    /// Leave the file where it is.
    Skip,
}

/// How the search for a file's date ended.
#[derive(Clone, Copy, Debug, PartialEq, Eq, Structural)]
pub enum DateOutcome {
    /// The date is found.
    Resolved(CaptureTimestamp),
    /// The operator passed the file over. This is no failure.
    Skipped,
    /// No source gives a date.
    Undeterminable,
}

/// Where the search for a file's date stands.
#[derive(Clone, Copy, Debug, PartialEq, Eq, Structural)]
pub enum DateStep {
    /// The search is over.
    Done(DateOutcome),
    /// Neither the file nor its name gives a date: the caller reads the
    /// file's time and goes on with
    /// `extract_media_creation_time_from_file_metadata`.
    ReadFileTime,
    /// Only the file's time is left, and it is not to be taken unasked: the
    /// caller shows it to the operator and goes on with `apply_date_choice`.
    AskOperator(CaptureTimestamp),
}

/// The step that ends the search with a date.
pub open spec fn resolved(stamp: CaptureTimestamp) -> DateStep {
    DateStep::Done(DateOutcome::Resolved(stamp))
}

/// The date in the name of the file at `path`, if the pattern finds exactly
/// one.
pub fn extract_media_creation_time_from_filename(pattern: &str, path: &str) -> (date: Option<
    CaptureTimestamp,
>)
    ensures
        date == filename_date(pattern@, file_name_of(path@)),
        date matches Some(stamp) ==> stamp.wf(),
{
    let name = file_name(path);
    date_in_name(pattern, name.as_str())
}

/// What the file and its name say of its date: the date inside the file
/// where there is one, whatever the name says; else the date in the name;
/// else nothing yet.
pub open spec fn date_step_of(
    embedded: EmbeddedMetadata,
    pattern: Seq<char>,
    path: Seq<char>,
) -> DateStep {
    match embedded_date(embedded) {
        Some(stamp) => resolved(stamp),
        None => match filename_date(pattern, file_name_of(path)) {
            Some(stamp) => resolved(stamp),
            None => DateStep::ReadFileTime,
        },
    }
}

/// Begins the search for the date of the file at `path`, with what could be
/// read from inside the file. A date inside the file decides, whatever the
/// name and the file system say. Without one, a date in the name decides.
pub fn extract_date_time(embedded: &EmbeddedMetadata, pattern: &str, path: &str) -> (step: DateStep)
    ensures
        step == date_step_of(*embedded, pattern@, path@),
        embedded_date(*embedded) matches Some(stamp) ==> step == resolved(stamp),
        embedded_date(*embedded) is None ==> (match filename_date(
            pattern@,
            file_name_of(path@),
        ) {
            Some(stamp) => step == resolved(stamp),
            None => step == DateStep::ReadFileTime,
        }),
        step matches DateStep::Done(DateOutcome::Resolved(stamp)) ==> stamp.wf(),
{
    match date_from_metadata(embedded) {
        Some(stamp) => DateStep::Done(DateOutcome::Resolved(stamp)),
        None => match extract_media_creation_time_from_filename(pattern, path) {
            Some(stamp) => DateStep::Done(DateOutcome::Resolved(stamp)),
            None => DateStep::ReadFileTime,
        },
    }
}

/// What the file's time says of its date. `file_seconds` is the time of the
/// last change, or of the creation where that is not to be had, in seconds
/// since 1970; `None` where the file system gives neither.
pub open spec fn file_time_step_of(
    file_seconds: Option<i64>,
    file_creation_fallback: bool,
) -> DateStep {
    match file_seconds {
        Some(seconds) => match file_time_of(seconds as int) {
            Some(stamp) => if file_creation_fallback {
                resolved(stamp)
            } else {
                DateStep::AskOperator(stamp)
            },
            None => DateStep::Done(DateOutcome::Undeterminable),
        },
        None => DateStep::Done(DateOutcome::Undeterminable),
    }
}

/// Goes on with the file's time in the file system. With the fallback
/// switched on a time that was found is taken at once; without it the
/// operator is asked. No time, or one outside the calendar, leaves the file
/// without a date.
pub fn extract_media_creation_time_from_file_metadata(
    file_seconds: Option<i64>,
    file_creation_fallback: bool,
) -> (step: DateStep)
    ensures
        step == file_time_step_of(file_seconds, file_creation_fallback),
        file_seconds is None ==> step == DateStep::Done(DateOutcome::Undeterminable),
        step matches DateStep::Done(DateOutcome::Resolved(stamp)) ==> stamp.wf()
            && file_creation_fallback,
        step matches DateStep::AskOperator(stamp) ==> stamp.wf() && !file_creation_fallback,
{
    match file_seconds {
        Some(seconds) => match from_unix_seconds(seconds) {
            Some(stamp) => if file_creation_fallback {
                DateStep::Done(DateOutcome::Resolved(stamp))
            } else {
                DateStep::AskOperator(stamp)
            },
            None => DateStep::Done(DateOutcome::Undeterminable),
        },
        None => DateStep::Done(DateOutcome::Undeterminable),
    }
}

/// What follows from the operator's decision on a file whose time in the
/// file system is `file_time`.
pub open spec fn choice_step_of(file_time: CaptureTimestamp, choice: DateChoice) -> DateStep {
    match choice {
        DateChoice::UseFileTime => resolved(file_time),
        DateChoice::Manual { year, month } => match first_of_month_of(year as int, month as int) {
            Some(stamp) => resolved(stamp),
            None => DateStep::AskOperator(file_time),
        },
        DateChoice::Skip => DateStep::Done(DateOutcome::Skipped),
    }
}

/// Ends the search with the operator's decision: the file's time, the first
/// of the month that the operator named, or no date and no failure. A month
/// that is none is not taken: the operator is asked once more.
pub fn apply_date_choice(file_time: CaptureTimestamp, choice: DateChoice) -> (step: DateStep)
    ensures
        step == choice_step_of(file_time, choice),
        file_time.wf() ==> (step matches DateStep::Done(DateOutcome::Resolved(stamp))
            ==> stamp.wf()),
{
    match choice {
        DateChoice::UseFileTime => DateStep::Done(DateOutcome::Resolved(file_time)),
        DateChoice::Manual { year, month } => match first_of_month(year, month) {
            Some(stamp) => DateStep::Done(DateOutcome::Resolved(stamp)),
            None => DateStep::AskOperator(file_time),
        },
        DateChoice::Skip => DateStep::Done(DateOutcome::Skipped),
    }
}

/// What the operator's answers make of a file whose time is `file_time`:
/// the first answer that can be taken decides; while none is there, the
/// operator is still to be asked.
pub open spec fn answered_step(file_time: CaptureTimestamp, answers: Seq<DateChoice>) -> DateStep
    decreases answers.len(),
{
    if answers.len() == 0 {
        DateStep::AskOperator(file_time)
    } else {
        match choice_step_of(file_time, answers[0]) {
            DateStep::AskOperator(_) => answered_step(file_time, answers.drop_first()),
            step => step,
        }
    }
}

/// The end of the search for a file's date, with all that the sources say:
/// what the file carries inside, its name, its time in the file system, and
/// the answers that the operator has given so far. The search ends with a
/// date, with a skip, without a date, or with the question that no answer is
/// there for yet.
pub open spec fn date_resolution(
    embedded: EmbeddedMetadata,
    pattern: Seq<char>,
    path: Seq<char>,
    file_seconds: Option<i64>,
    file_creation_fallback: bool,
    answers: Seq<DateChoice>,
) -> DateStep {
    match date_step_of(embedded, pattern, path) {
        DateStep::ReadFileTime => match file_time_step_of(file_seconds, file_creation_fallback) {
            DateStep::AskOperator(file_time) => answered_step(file_time, answers),
            step => step,
        },
        step => step,
    }
}

/// Searches the date of the file at `path` with all that the sources say.
/// The operator's answers are taken from `answers` in their order; where
/// they run out the result is the question to put next, and the caller
/// comes back with one answer more.
pub fn resolve_date(
    embedded: &EmbeddedMetadata,
    pattern: &str,
    path: &str,
    file_seconds: Option<i64>,
    file_creation_fallback: bool,
    answers: &Vec<DateChoice>,
) -> (step: DateStep)
    ensures
        step == date_resolution(
            *embedded,
            pattern@,
            path@,
            file_seconds,
            file_creation_fallback,
            answers@,
        ),
        step != DateStep::ReadFileTime,
        step matches DateStep::Done(DateOutcome::Resolved(stamp)) ==> stamp.wf(),
        step matches DateStep::AskOperator(stamp) ==> stamp.wf(),
{
    let first = extract_date_time(embedded, pattern, path);
    let second = match first {
        DateStep::ReadFileTime => extract_media_creation_time_from_file_metadata(
            file_seconds,
            file_creation_fallback,
        ),
        step => {
            return step;
        },
    };
    let file_time = match second {
        DateStep::AskOperator(file_time) => file_time,
        step => {
            return step;
        },
    };
    let mut answered: usize = 0;
    assert(answers@.skip(0) =~= answers@);
    while answered < answers.len()
        invariant
            0 <= answered <= answers.len(),
            file_time.wf(),
            date_resolution(
                *embedded,
                pattern@,
                path@,
                file_seconds,
                file_creation_fallback,
                answers@,
            ) == answered_step(file_time, answers@.skip(answered as int)),
        decreases answers.len() - answered,
    {
        let ghost rest = answers@.skip(answered as int);
        assert(rest[0] == answers@[answered as int]);
        assert(rest.drop_first() =~= answers@.skip(answered + 1));
        match apply_date_choice(file_time, answers[answered]) {
            DateStep::AskOperator(_) => {
                answered = answered + 1;
            },
            step => {
                return step;
            },
        }
    }
    DateStep::AskOperator(file_time)
}

/// The sources are tried in their order. A date inside the file decides,
/// whatever the name of the file, its time in the file system and the
/// operator say.
pub proof fn lemma_embedded_date_decides(
    embedded: EmbeddedMetadata,
    pattern: Seq<char>,
    path: Seq<char>,
    file_seconds: Option<i64>,
    file_creation_fallback: bool,
    answers: Seq<DateChoice>,
    stamp: CaptureTimestamp,
)
    requires
        embedded_date(embedded) == Some(stamp),
    ensures
        date_resolution(embedded, pattern, path, file_seconds, file_creation_fallback, answers)
            == resolved(stamp),
{
}

/// A file without a date inside, whose name the pattern matches exactly
/// once, is dated by that match: its year and its month are the numbers
/// that the groups `y` and `m` of the match write, whatever the file system
/// and the operator say.
pub proof fn lemma_single_match_decides(
    embedded: EmbeddedMetadata,
    pattern: Seq<char>,
    path: Seq<char>,
    file_seconds: Option<i64>,
    file_creation_fallback: bool,
    answers: Seq<DateChoice>,
    matches: Seq<Seq<GroupText>>,
    stamp: CaptureTimestamp,
)
    requires
        embedded_date(embedded) is None,
        pattern_captures(pattern, file_name_of(path)) == Some(matches),
        matches.len() == 1,
        date_of_captures(matches) == Some(stamp),
    ensures
        date_resolution(embedded, pattern, path, file_seconds, file_creation_fallback, answers)
            == resolved(stamp),
        captured_number(named_text(matches[0], "y"@)) == Some(stamp.year as int),
        captured_number(named_text(matches[0], "m"@)) == Some(stamp.month as int),
        stamp.day == 1 && stamp.hour == 0 && stamp.minute == 0 && stamp.second == 0,
{
}

/// A name that the pattern matches more than once, or not at all, dates
/// nothing: a file without a date inside is then dated by its time in the
/// file system and by the operator alone.
pub proof fn lemma_other_match_counts_fall_through(
    embedded: EmbeddedMetadata,
    pattern: Seq<char>,
    path: Seq<char>,
    file_seconds: Option<i64>,
    file_creation_fallback: bool,
    answers: Seq<DateChoice>,
    matches: Seq<Seq<GroupText>>,
)
    requires
        embedded_date(embedded) is None,
        pattern_captures(pattern, file_name_of(path)) == Some(matches),
        matches.len() != 1,
    ensures
        filename_date(pattern, file_name_of(path)) is None,
        date_resolution(embedded, pattern, path, file_seconds, file_creation_fallback, answers)
            == (match file_time_step_of(file_seconds, file_creation_fallback) {
            DateStep::AskOperator(file_time) => answered_step(file_time, answers),
            step => step,
        }),
{
}

/// Without a date inside the file, without one in its name and without a
/// time in the file system, the search ends without a date.
pub proof fn lemma_no_source_no_date(
    embedded: EmbeddedMetadata,
    pattern: Seq<char>,
    path: Seq<char>,
    file_creation_fallback: bool,
    answers: Seq<DateChoice>,
)
    requires
        embedded_date(embedded) is None,
        filename_date(pattern, file_name_of(path)) is None,
    ensures
        date_resolution(embedded, pattern, path, None, file_creation_fallback, answers)
            == DateStep::Done(DateOutcome::Undeterminable),
{
}

} // verus!
