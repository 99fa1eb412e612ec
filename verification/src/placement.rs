//! Finding a place for a file at its destination. A name that is free is
//! taken. A name that is held by a file of the same size holds a duplicate,
//! and the source is skipped. A name that is held by a file of another size
//! is a conflict: by the mode of the run the source replaces the file, is
//! skipped, or is tried again under its alternative name, as often as it
//! takes.

use vstd::prelude::*;
use crate::date::DateOutcome;
use crate::failure::DateUndeterminable;
use crate::naming::{
    alternative_of, create_alternative_path, destination_of, destination_path,
    lemma_alternative_of, nth_alternative,
};
use crate::operator::ConflictChoice;
use crate::text::same_text;

verus! {

/// What is done about a conflict.
#[derive(Clone, Copy, Debug, PartialEq, Eq, Structural)]
pub enum ConflictMode {
    /// The operator decides each conflict.
    Choose,
    /// The source replaces the file at the destination.
    KeepSource,
    /// The file at the destination stays and the source is skipped.
    KeepTarget,
    /// Both are kept, the source under another name.
    KeepBoth,
}

/// What a look at the destination showed.
#[derive(Clone, Copy, Debug, PartialEq, Eq, Structural)]
pub enum Probe {
    /// No file has the name.
    Absent,
    /// A file has the name; the sizes of the source and of that file.
    Present { source_len: u64, target_len: u64 },
}

/// Where a file goes, or that it stays.
#[derive(Clone, Debug, PartialEq, Eq)]
pub enum PlacementOutcome {
    /// The file goes to this path.
    Place(String),
    /// The file stays where it is.
    Skip,
}

/// A place or a skip, the path as text.
#[verifier::ext_equal]
pub enum OutcomeText {
    Place(Seq<char>),
    Skip,
}

impl View for PlacementOutcome {
    type V = OutcomeText;

    open spec fn view(&self) -> OutcomeText {
        match self {
            PlacementOutcome::Place(path) => OutcomeText::Place(path@),
            PlacementOutcome::Skip => OutcomeText::Skip,
        }
    }
}

/// Where the search for a place stands.
#[derive(Clone, Debug, PartialEq, Eq)]
pub enum PlacementStep {
    /// The search is over.
    Done(PlacementOutcome),
    /// The source is tried under this name next: the caller looks whether it
    /// is free.
    Probe(String),
    /// The operator decides between the file at `candidate` and the source,
    /// which could be kept as `alternative`.
    Ask { candidate: String, alternative: String },
}

/// A step of the search, as texts.
#[verifier::ext_equal]
pub enum StepText {
    Place(Seq<char>),
    Skip,
    Probe(Seq<char>),
    Ask { candidate: Seq<char>, alternative: Seq<char> },
}

impl View for PlacementStep {
    type V = StepText;

    open spec fn view(&self) -> StepText {
        match self {
            PlacementStep::Done(PlacementOutcome::Place(path)) => StepText::Place(path@),
            PlacementStep::Done(PlacementOutcome::Skip) => StepText::Skip,
            PlacementStep::Probe(path) => StepText::Probe(path@),
            PlacementStep::Ask { candidate, alternative } => StepText::Ask {
                candidate: candidate@,
                alternative: alternative@,
            },
        }
    }
}

/// Where the search for a place begins, once the search for the date is
/// over: at the file's place in the tree of years and months. A file that
/// the operator passed over is skipped without a look at the destination.
pub open spec fn first_step(date: DateOutcome, target: Seq<char>, source: Seq<char>) -> Result<
    StepText,
    DateUndeterminable,
> {
    match date {
        DateOutcome::Resolved(stamp) => Ok(
            StepText::Probe(
                destination_of(target, stamp.year as int, stamp.month as nat, source),
            ),
        ),
        DateOutcome::Skipped => Ok(StepText::Skip),
        DateOutcome::Undeterminable => Err(DateUndeterminable),
    }
}

/// Begins the search for the place of the file at `source_path` below
/// `target_directory`. A file without a date has no place: that is the one
/// failure.
pub fn begin_placement(date: DateOutcome, target_directory: &str, source_path: &str) -> (begun:
    Result<PlacementStep, DateUndeterminable>)
    ensures
        match begun {
            Ok(step) => first_step(date, target_directory@, source_path@) == Ok::<
                StepText,
                DateUndeterminable,
            >(step@),
            Err(failure) => first_step(date, target_directory@, source_path@) == Err::<
                StepText,
                DateUndeterminable,
            >(failure),
        },
        begun is Err <==> date == DateOutcome::Undeterminable,
{
    match date {
        DateOutcome::Resolved(stamp) => Ok(
            PlacementStep::Probe(
                destination_path(target_directory, stamp.year, stamp.month, source_path),
            ),
        ),
        DateOutcome::Skipped => Ok(PlacementStep::Done(PlacementOutcome::Skip)),
        DateOutcome::Undeterminable => Err(DateUndeterminable),
    }
}

/// What is done about a file that holds the name `target`. Files of one
/// size are taken for the same file, whatever the mode.
pub open spec fn conflict_step(
    source_len: u64,
    target_len: u64,
    target: Seq<char>,
    mode: ConflictMode,
) -> StepText {
    if source_len == target_len {
        StepText::Skip
    } else {
        match mode {
            ConflictMode::Choose => StepText::Ask {
                candidate: target,
                alternative: alternative_of(target),
            },
            ConflictMode::KeepSource => StepText::Place(target),
            ConflictMode::KeepTarget => StepText::Skip,
            ConflictMode::KeepBoth => StepText::Probe(alternative_of(target)),
        }
    }
}

/// What follows from the operator's decision on the conflict at `target`.
pub open spec fn choice_step(target: Seq<char>, choice: ConflictChoice) -> StepText {
    match choice {
        ConflictChoice::Override => StepText::Place(target),
        ConflictChoice::Skip => StepText::Skip,
        ConflictChoice::KeepBoth => StepText::Probe(alternative_of(target)),
    }
}

/// What follows from a look at the name `candidate`.
pub open spec fn probe_step(candidate: Seq<char>, probe: Probe, mode: ConflictMode) -> StepText {
    match probe {
        Probe::Absent => StepText::Place(candidate),
        Probe::Present { source_len, target_len } => conflict_step(
            source_len,
            target_len,
            candidate,
            mode,
        ),
    }
}

/// Decides about the source when a file already has the name `target_path`.
/// Equal sizes always skip the source: the file at the destination is never
/// replaced by its like, nor is the source renamed.
pub fn handle_file_exists_at_target(
    source_len: u64,
    target_len: u64,
    target_path: &str,
    conflict_mode: ConflictMode,
) -> (step: PlacementStep)
    ensures
        step@ == conflict_step(source_len, target_len, target_path@, conflict_mode),
        source_len == target_len ==> step@ == StepText::Skip,
{
    if source_len == target_len {
        PlacementStep::Done(PlacementOutcome::Skip)
    } else {
        match conflict_mode {
            ConflictMode::Choose => PlacementStep::Ask {
                candidate: target_path.to_owned(),
                alternative: create_alternative_path(target_path),
            },
            ConflictMode::KeepSource => PlacementStep::Done(
                PlacementOutcome::Place(target_path.to_owned()),
            ),
            ConflictMode::KeepTarget => PlacementStep::Done(PlacementOutcome::Skip),
            ConflictMode::KeepBoth => PlacementStep::Probe(create_alternative_path(target_path)),
        }
    }
}

/// Carries out the operator's decision on the conflict at `target_path`.
pub fn apply_conflict_choice(target_path: &str, choice: ConflictChoice) -> (step: PlacementStep)
    ensures
        step@ == choice_step(target_path@, choice),
{
    match choice {
        ConflictChoice::Override => PlacementStep::Done(
            PlacementOutcome::Place(target_path.to_owned()),
        ),
        ConflictChoice::Skip => PlacementStep::Done(PlacementOutcome::Skip),
        ConflictChoice::KeepBoth => PlacementStep::Probe(create_alternative_path(target_path)),
    }
}

/// Takes the search one step on, with what a look at `candidate` showed: a
/// free name is the place; a name that is held is a duplicate or a conflict.
pub fn validate_and_resolve_path_problems(
    candidate: &str,
    probe: Probe,
    conflict_mode: ConflictMode,
) -> (step: PlacementStep)
    ensures
        step@ == probe_step(candidate@, probe, conflict_mode),
        probe is Absent ==> step@ == StepText::Place(candidate@),
{
    match probe {
        Probe::Absent => PlacementStep::Done(PlacementOutcome::Place(candidate.to_owned())),
        Probe::Present { source_len, target_len } => handle_file_exists_at_target(
            source_len,
            target_len,
            candidate,
            conflict_mode,
        ),
    }
}

/// A file that is at the destination: its path and its size.
#[derive(Clone, Debug, PartialEq, Eq)]
pub struct ExistingFile {
    pub path: String,
    pub len: u64,
}

/// A file at the destination, its path as text.
#[verifier::ext_equal]
pub struct FileText {
    pub path: Seq<char>,
    pub len: u64,
}

impl DeepView for ExistingFile {
    type V = FileText;

    open spec fn deep_view(&self) -> FileText {
        FileText { path: self.path@, len: self.len }
    }
}

/// The size of the file at `path`, by the first entry for that path; `None`
/// where no entry has it. A proof about given files gives the definition
/// fuel for their number.
pub open spec fn size_at(existing: Seq<FileText>, path: Seq<char>) -> Option<u64>
    decreases existing.len(),
{
    if existing.len() == 0 {
        None
    } else if existing[0].path == path {
        Some(existing[0].len)
    } else {
        size_at(existing.drop_first(), path)
    }
}

/// The length of the longest path among the files.
pub open spec fn longest_path(existing: Seq<FileText>) -> nat
    decreases existing.len(),
{
    if existing.len() == 0 {
        0
    } else if existing[0].path.len() >= longest_path(existing.drop_first()) {
        existing[0].path.len()
    } else {
        longest_path(existing.drop_first())
    }
}

/// A path that is among the files is no longer than the longest of them.
pub proof fn lemma_size_at_bounds(existing: Seq<FileText>, path: Seq<char>)
    requires
        size_at(existing, path) is Some,
    ensures
        path.len() <= longest_path(existing),
    decreases existing.len(),
{
    if existing.len() > 0 && existing[0].path != path {
        lemma_size_at_bounds(existing.drop_first(), path);
    }
}

/// How many more renamings a candidate can take before its name is longer
/// than every path among the files, and so is free.
pub open spec fn renamings_left(existing: Seq<FileText>, candidate: Seq<char>) -> nat {
    if candidate.len() <= longest_path(existing) {
        (longest_path(existing) - candidate.len() + 1) as nat
    } else {
        0
    }
}

/// The end of the search for a place, among the files that are at the
/// destination and with the answers that the operator has given so far, in
/// their order. The search ends with a place, with a skip, or, in the mode
/// `Choose`, with the question that no answer is there for yet. A proof
/// about given files gives the definition fuel for the number of names that
/// are tried.
pub open spec fn resolution(
    candidate: Seq<char>,
    source_len: u64,
    existing: Seq<FileText>,
    mode: ConflictMode,
    answers: Seq<ConflictChoice>,
) -> StepText
    decreases renamings_left(existing, candidate),
    via resolution_decreases
{
    match size_at(existing, candidate) {
        None => StepText::Place(candidate),
        Some(target_len) => if source_len == target_len {
            StepText::Skip
        } else {
            match mode {
                ConflictMode::KeepSource => StepText::Place(candidate),
                ConflictMode::KeepTarget => StepText::Skip,
                ConflictMode::KeepBoth => resolution(
                    alternative_of(candidate),
                    source_len,
                    existing,
                    mode,
                    answers,
                ),
                ConflictMode::Choose => if answers.len() == 0 {
                    StepText::Ask { candidate, alternative: alternative_of(candidate) }
                } else {
                    match answers[0] {
                        ConflictChoice::Override => StepText::Place(candidate),
                        ConflictChoice::Skip => StepText::Skip,
                        ConflictChoice::KeepBoth => resolution(
                            alternative_of(candidate),
                            source_len,
                            existing,
                            mode,
                            answers.drop_first(),
                        ),
                    }
                },
            }
        },
    }
}

#[via_fn]
proof fn resolution_decreases(
    candidate: Seq<char>,
    source_len: u64,
    existing: Seq<FileText>,
    mode: ConflictMode,
    answers: Seq<ConflictChoice>,
) {
    if size_at(existing, candidate) is Some {
        lemma_size_at_bounds(existing, candidate);
        lemma_alternative_of(candidate);
    }
}

/// Renaming the alternative of a path `steps` times is renaming the path
/// once more than that.
pub proof fn lemma_nth_alternative_shift(path: Seq<char>, steps: nat)
    ensures
        nth_alternative(alternative_of(path), steps) == nth_alternative(path, steps + 1),
    decreases steps,
{
    if steps > 0 {
        lemma_nth_alternative_shift(path, (steps - 1) as nat);
    } else {
        assert(nth_alternative(path, 1) == alternative_of(nth_alternative(path, 0)));
    }
}

/// A source of the same size as the file that holds its name is skipped, in
/// every mode and whatever the operator answered.
pub proof fn lemma_equal_size_skips(
    candidate: Seq<char>,
    source_len: u64,
    existing: Seq<FileText>,
    mode: ConflictMode,
    answers: Seq<ConflictChoice>,
)
    requires
        size_at(existing, candidate) == Some(source_len),
    ensures
        resolution(candidate, source_len, existing, mode, answers) == StepText::Skip,
{
}

/// The search always ends, and it ends well. It never stops at a name that
/// is still to be looked at. It asks only in the mode `Choose`. The place it
/// finds is the candidate or one of its alternatives, so it lies in the
/// candidate's directory and has its extension. Unless the mode or the
/// operator let the source replace a file, the place is free: keeping both
/// files goes on renaming until no file has the name.
pub proof fn lemma_resolution(
    candidate: Seq<char>,
    source_len: u64,
    existing: Seq<FileText>,
    mode: ConflictMode,
    answers: Seq<ConflictChoice>,
)
    ensures
        !(resolution(candidate, source_len, existing, mode, answers) is Probe),
        mode != ConflictMode::Choose ==> !(resolution(
            candidate,
            source_len,
            existing,
            mode,
            answers,
        ) is Ask),
        resolution(candidate, source_len, existing, mode, answers) matches StepText::Place(path)
            ==> exists|steps: nat| path == nth_alternative(candidate, steps),
        resolution(candidate, source_len, existing, mode, answers) matches StepText::Place(path)
            ==> (mode == ConflictMode::KeepBoth || mode == ConflictMode::KeepTarget) ==> size_at(
            existing,
            path,
        ) is None,
    decreases renamings_left(existing, candidate),
{
    let renamed = alternative_of(candidate);
    match size_at(existing, candidate) {
        None => {
            assert(candidate == nth_alternative(candidate, 0));
        },
        Some(target_len) => {
            lemma_size_at_bounds(existing, candidate);
            lemma_alternative_of(candidate);
            if source_len != target_len {
                let rest = if mode == ConflictMode::Choose {
                    answers.drop_first()
                } else {
                    answers
                };
                let recurses = mode == ConflictMode::KeepBoth || (mode == ConflictMode::Choose
                    && answers.len() > 0 && answers[0] == ConflictChoice::KeepBoth);
                if recurses {
                    lemma_resolution(renamed, source_len, existing, mode, rest);
                    if let StepText::Place(path) = resolution(
                        renamed,
                        source_len,
                        existing,
                        mode,
                        rest,
                    ) {
                        let steps = choose|steps: nat| path == nth_alternative(renamed, steps);
                        lemma_nth_alternative_shift(candidate, steps);
                        assert(path == nth_alternative(candidate, steps + 1));
                    }
                } else {
                    assert(candidate == nth_alternative(candidate, 0));
                }
            }
        },
    }
}

fn size_of_existing(existing: &Vec<ExistingFile>, path: &str) -> (size: Option<u64>)
    ensures
        size == size_at(existing.deep_view(), path@),
{
    let mut i: usize = 0;
    assert(existing.deep_view().skip(0) =~= existing.deep_view());
    while i < existing.len()
        invariant
            0 <= i <= existing.len(),
            size_at(existing.deep_view(), path@) == size_at(
                existing.deep_view().skip(i as int),
                path@,
            ),
        decreases existing.len() - i,
    {
        let ghost rest = existing.deep_view().skip(i as int);
        assert(rest[0] == existing[i as int].deep_view());
        assert(rest.drop_first() =~= existing.deep_view().skip(i + 1));
        if same_text(existing[i].path.as_str(), path) {
            return Some(existing[i].len);
        }
        i = i + 1;
    }
    None
}

/// Finds the place of a source of `source_len` bytes that is to go to
/// `candidate`, among the files that are at the destination. In the mode
/// `Choose` the operator's answers are taken from `answers` in their order;
/// where they run out the result is the question to put next, and the
/// caller comes back with one answer more.
pub fn resolve_placement(
    candidate: &str,
    source_len: u64,
    existing: &Vec<ExistingFile>,
    conflict_mode: ConflictMode,
    answers: &Vec<ConflictChoice>,
) -> (step: PlacementStep)
    ensures
        step@ == resolution(candidate@, source_len, existing.deep_view(), conflict_mode, answers@),
        !(step@ is Probe),
        conflict_mode != ConflictMode::Choose ==> !(step@ is Ask),
{
    let mut current = candidate.to_owned();
    let mut answered: usize = 0;
    assert(answers@.skip(0) =~= answers@);
    loop
        invariant
            0 <= answered <= answers.len(),
            resolution(candidate@, source_len, existing.deep_view(), conflict_mode, answers@)
                == resolution(
                current@,
                source_len,
                existing.deep_view(),
                conflict_mode,
                answers@.skip(answered as int),
            ),
        decreases renamings_left(existing.deep_view(), current@),
    {
        let ghost rest = answers@.skip(answered as int);
        proof {
            if size_at(existing.deep_view(), current@) is Some {
                lemma_size_at_bounds(existing.deep_view(), current@);
                lemma_alternative_of(current@);
            }
            if answered < answers.len() {
                assert(rest[0] == answers@[answered as int]);
                assert(rest.drop_first() =~= answers@.skip(answered + 1));
            }
        }
        let probe = match size_of_existing(existing, current.as_str()) {
            Some(target_len) => Probe::Present { source_len, target_len },
            None => Probe::Absent,
        };
        let step = validate_and_resolve_path_problems(current.as_str(), probe, conflict_mode);
        match step {
            PlacementStep::Probe(next) => {
                current = next;
            },
            PlacementStep::Ask { candidate: asked, alternative } => {
                if answered >= answers.len() {
                    return PlacementStep::Ask { candidate: asked, alternative };
                }
                let choice = answers[answered];
                answered = answered + 1;
                match apply_conflict_choice(current.as_str(), choice) {
                    PlacementStep::Probe(next) => {
                        current = next;
                    },
                    decided => {
                        return decided;
                    },
                }
            },
            PlacementStep::Done(outcome) => {
                return PlacementStep::Done(outcome);
            },
        }
    }
}

} // verus!
