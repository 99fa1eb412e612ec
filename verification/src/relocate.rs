//! Carrying a file to its place. What is to be done with a file follows
//! from where it goes, from the mode of the run and from the directories
//! that are known to exist; the caller does it and reports back, and the
//! directory of each file that arrived is remembered, so that no directory
//! is created twice in a run.

use vstd::prelude::*;
use crate::naming::{classify, kind_of, parent, parent_of, MediaKind};
use crate::placement::{OutcomeText, PlacementOutcome};
use crate::text::same_text;

verus! {

/// What a run does with the files it finds.
#[derive(Clone, Copy, Debug, PartialEq, Eq, Structural)]
pub enum Mode {
    /// Nothing is changed; what would be done is reported.
    DryRun,
    /// Files are moved to their places.
    Move,
    /// Files are copied to their places.
    Copy,
}

/// How a file gets to its place.
#[derive(Clone, Copy, Debug, PartialEq, Eq, Structural)]
pub enum Transfer {
    Move,
    Copy,
}

/// What the caller is to do with a file.
#[derive(Clone, Debug, PartialEq, Eq)]
pub enum FileAction {
    /// Report that the source would go to `destination`. Nothing is changed.
    Describe { destination: String },
    /// Create the directory `create_parent`, with the directories above it,
    /// if one is named; then move or copy the source to `destination`.
    Relocate { create_parent: Option<String>, destination: String, transfer: Transfer },
    /// Leave the source where it is.
    Leave,
    /// Report that the source, which is skipped, would be deleted. Nothing is
    /// changed.
    DescribeDeletion,
    /// Delete the source, which is skipped.
    DeleteSource,
}

/// An action, its paths as texts.
#[verifier::ext_equal]
pub enum ActionText {
    Describe { destination: Seq<char> },
    Relocate { create_parent: Option<Seq<char>>, destination: Seq<char>, transfer: Transfer },
    Leave,
    DescribeDeletion,
    DeleteSource,
}

impl View for FileAction {
    type V = ActionText;

    open spec fn view(&self) -> ActionText {
        match self {
            FileAction::Describe { destination } => ActionText::Describe {
                destination: destination@,
            },
            FileAction::Relocate { create_parent, destination, transfer } => ActionText::Relocate {
                create_parent: create_parent.deep_view(),
                destination: destination@,
                transfer: *transfer,
            },
            FileAction::Leave => ActionText::Leave,
            FileAction::DescribeDeletion => ActionText::DescribeDeletion,
            FileAction::DeleteSource => ActionText::DeleteSource,
        }
    }
}

/// Whether carrying out the action changes anything in the file system.
pub open spec fn mutates(action: ActionText) -> bool {
    action is Relocate || action is DeleteSource
}

/// The directories that are known to exist: those that held a file that
/// arrived in this run. The set belongs to the run and only grows.
pub struct KnownParents {
    directories: Vec<String>,
}

impl View for KnownParents {
    type V = Set<Seq<char>>;

    closed spec fn view(&self) -> Set<Seq<char>> {
        self.texts().to_set()
    }
}

impl KnownParents {
    /// The directories in the order in which they became known.
    pub closed spec fn texts(&self) -> Seq<Seq<char>> {
        Seq::new(self.directories.len() as nat, |i: int| self.directories[i]@)
    }

    /// No directory is held twice.
    pub closed spec fn wf(&self) -> bool {
        self.texts().no_duplicates()
    }

    /// The set at the beginning of a run: no directory is known.
    pub fn new() -> (known: KnownParents)
        ensures
            known.wf(),
            known@ == Set::<Seq<char>>::empty(),
    {
        let known = KnownParents { directories: Vec::new() };
        assert(known@ =~= Set::<Seq<char>>::empty());
        known
    }

    /// How many directories are known.
    pub fn len(&self) -> (count: usize)
        requires
            self.wf(),
        ensures
            count == self@.len(),
            self@.finite(),
    {
        proof {
            self.texts().unique_seq_to_set();
            vstd::seq_lib::seq_to_set_is_finite(self.texts());
        }
        self.directories.len()
    }

    /// Whether `directory` is known to exist.
    pub fn contains(&self, directory: &str) -> (known: bool)
        ensures
            known == self@.contains(directory@),
    {
        let mut i: usize = 0;
        while i < self.directories.len()
            invariant
                0 <= i <= self.directories.len(),
                forall|j: int| 0 <= j < i ==> self.texts()[j] != directory@,
            decreases self.directories.len() - i,
        {
            if same_text(self.directories[i].as_str(), directory) {
                assert(self.texts()[i as int] == directory@);
                return true;
            }
            i = i + 1;
        }
        false
    }

    /// Remembers that `directory` exists. A directory that is known already
    /// is not held again; nothing is ever forgotten.
    pub fn insert(&mut self, directory: &str) -> (added: bool)
        requires
            old(self).wf(),
        ensures
            final(self).wf(),
            final(self)@ == old(self)@.insert(directory@),
            added == !old(self)@.contains(directory@),
    {
        if self.contains(directory) {
            assert(self@ =~= self@.insert(directory@));
            false
        } else {
            let ghost before = self.texts();
            self.directories.push(directory.to_owned());
            proof {
                assert(self.texts() =~= before.push(directory@));
                assert(self@ =~= old(self)@.insert(directory@)) by {
                    assert forall|d: Seq<char>| old(self)@.insert(directory@).contains(
                        d,
                    ) implies self@.contains(d) by {
                        if d == directory@ {
                            assert(self.texts()[before.len() as int] == d);
                        } else {
                            let i = choose|i: int| 0 <= i < before.len() && before[i] == d;
                            assert(self.texts()[i] == d);
                        }
                    }
                    assert forall|d: Seq<char>| self@.contains(d) implies old(self)@.insert(
                        directory@,
                    ).contains(d) by {
                        let i = choose|i: int| 0 <= i < self.texts().len() && self.texts()[i] == d;
                        if i < before.len() {
                            assert(before[i] == d);
                        }
                    }
                }
            }
            true
        }
    }
}

/// The directory that is to be created before a file goes to `target`: the
/// one that holds `target`, unless it is known to exist.
pub open spec fn missing_parent(target: Seq<char>, known: Set<Seq<char>>) -> Option<Seq<char>> {
    if known.contains(parent_of(target)) {
        None
    } else {
        Some(parent_of(target))
    }
}

/// Names the directory that is to be created before a file goes to
/// `target_path`, if there is one.
pub fn handle_missing_parents(target_path: &str, target_parents: &KnownParents) -> (missing: Option<
    String,
>)
    ensures
        missing.deep_view() == missing_parent(target_path@, target_parents@),
{
    let directory = parent(target_path);
    if target_parents.contains(directory.as_str()) {
        None
    } else {
        Some(directory)
    }
}

/// What is to be done with a file whose place was sought. In a dry run
/// nothing is changed, whatever was found. A file that has a place is moved
/// or copied there, after the directory was created if it is not known to
/// exist. A file that is skipped is left, or deleted where the run deletes
/// the sources it skips.
pub open spec fn action_of(
    outcome: OutcomeText,
    mode: Mode,
    delete_skipped: bool,
    known: Set<Seq<char>>,
) -> ActionText {
    match outcome {
        OutcomeText::Place(destination) => match mode {
            Mode::DryRun => ActionText::Describe { destination },
            Mode::Move => ActionText::Relocate {
                create_parent: missing_parent(destination, known),
                destination,
                transfer: Transfer::Move,
            },
            Mode::Copy => ActionText::Relocate {
                create_parent: missing_parent(destination, known),
                destination,
                transfer: Transfer::Copy,
            },
        },
        OutcomeText::Skip => if !delete_skipped {
            ActionText::Leave
        } else if mode == Mode::DryRun {
            ActionText::DescribeDeletion
        } else {
            ActionText::DeleteSource
        },
    }
}

/// Says what is to be done with a file whose place was sought.
pub fn handle_image(
    outcome: &PlacementOutcome,
    mode: Mode,
    delete_skipped_source_duplicates: bool,
    target_parents: &KnownParents,
) -> (action: FileAction)
    ensures
        action@ == action_of(outcome@, mode, delete_skipped_source_duplicates, target_parents@),
        mode == Mode::DryRun ==> !mutates(action@),
{
    match outcome {
        PlacementOutcome::Place(destination) => match mode {
            Mode::DryRun => FileAction::Describe { destination: destination.clone() },
            Mode::Move => FileAction::Relocate {
                create_parent: handle_missing_parents(destination.as_str(), target_parents),
                destination: destination.clone(),
                transfer: Transfer::Move,
            },
            Mode::Copy => FileAction::Relocate {
                create_parent: handle_missing_parents(destination.as_str(), target_parents),
                destination: destination.clone(),
                transfer: Transfer::Copy,
            },
        },
        PlacementOutcome::Skip => if !delete_skipped_source_duplicates {
            FileAction::Leave
        } else {
            match mode {
                Mode::DryRun => FileAction::DescribeDeletion,
                _ => FileAction::DeleteSource,
            }
        },
    }
}

/// The directories that are known to exist once an action was carried out:
/// the directory of a file that was moved or copied is known from then on.
pub open spec fn known_after(action: ActionText, known: Set<Seq<char>>) -> Set<Seq<char>> {
    match action {
        ActionText::Relocate { destination, .. } => known.insert(parent_of(destination)),
        _ => known,
    }
}

/// Takes note that `action` was carried out. To be called only then: a
/// directory is remembered when a file has arrived in it.
pub fn handle_file(action: &FileAction, target_parents: &mut KnownParents)
    requires
        old(target_parents).wf(),
    ensures
        final(target_parents).wf(),
        final(target_parents)@ == known_after(action@, old(target_parents)@),
        old(target_parents)@.subset_of(final(target_parents)@),
{
    match action {
        FileAction::Relocate { destination, .. } => {
            let directory = parent(destination.as_str());
            target_parents.insert(directory.as_str());
        },
        _ => {},
    }
}

/// Once a file has arrived in a directory, no file that goes to the same
/// directory asks for it to be created again.
pub proof fn lemma_parent_created_once(
    first: Seq<char>,
    second: Seq<char>,
    mode: Mode,
    delete_skipped: bool,
    known: Set<Seq<char>>,
)
    requires
        parent_of(first) == parent_of(second),
        mode != Mode::DryRun,
    ensures
        action_of(
            OutcomeText::Place(second),
            mode,
            delete_skipped,
            known_after(action_of(OutcomeText::Place(first), mode, delete_skipped, known), known),
        ) matches ActionText::Relocate { create_parent, .. } && create_parent is None,
{
}

/// Whether a run takes up the file at `path`: images and videos always, any
/// other file only where the run includes them.
pub open spec fn takes_up(path: Seq<char>, include_unsupported: bool) -> bool {
    include_unsupported || kind_of(path) != MediaKind::Unsupported
}

/// Whether a run takes up the file at `path`.
pub fn is_taken_up(path: &str, include_unsupported: bool) -> (taken: bool)
    ensures
        taken == takes_up(path@, include_unsupported),
{
    if include_unsupported {
        true
    } else {
        match classify(path) {
            MediaKind::Unsupported => false,
            _ => true,
        }
    }
}

} // verus!
