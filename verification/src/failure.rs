//! What can go wrong with a single file. A failure leaves the file untouched
//! and the run goes on with the next file. A file that is skipped has not
//! failed.

use vstd::prelude::*;

verus! {

/// No source gave a date for the file.
#[derive(Clone, Copy, Debug, PartialEq, Eq, Structural)]
pub struct DateUndeterminable;

/// What the operator is told about a file without a date.
pub open spec fn undeterminable_text() -> Seq<char> {
    "Could not determine a media file creation date."@
}

impl DateUndeterminable {
    /// What the operator is told.
    pub fn message(&self) -> (text: String)
        ensures
            text@ == undeterminable_text(),
    {
        "Could not determine a media file creation date.".to_owned()
    }
}

/// The file system refused to read, create, move, copy or delete something.
#[derive(Clone, Debug, PartialEq, Eq)]
pub struct FilesystemError {
    /// The path that the file system was asked about.
    pub path: String,
    /// What the file system said.
    pub cause: String,
}

/// What the operator is told about a refusal of the file system: the path,
/// then the cause.
pub open spec fn filesystem_text(path: Seq<char>, cause: Seq<char>) -> Seq<char> {
    path + seq![':', ' '] + cause
}

impl FilesystemError {
    /// What the operator is told.
    pub fn message(&self) -> (text: String)
        ensures
            text@ == filesystem_text(self.path@, self.cause@),
    {
        proof {
            reveal_strlit(": ");
            assert(": "@ =~= seq![':', ' ']);
        }
        let mut text = self.path.clone();
        text.append(": ");
        text.append(self.cause.as_str());
        text
    }
}

} // verus!
