use vstd::prelude::*;

verus! {

/// The one fatal failure of a run: the root argument does not name a
/// readable directory. Every other failure (an unreadable child, a command
/// that cannot be spawned, a command that exits non-zero) is absorbed
/// silently where it arises.
#[derive(Debug)]
pub enum SyncError {
    InvalidPath { path: String },
}

/// The text of the invalid-path message, before the `Error: ` prefix that
/// the entry point adds.
pub open spec fn invalid_path_message(path: Seq<char>) -> Seq<char> {
    "invalid path "@ + path
}

impl SyncError {
    /// The path the error carries.
    pub open spec fn spec_path(self) -> Seq<char> {
        match self {
            SyncError::InvalidPath { path } => path@,
        }
    }

    /// The human-readable description of the error.
    pub fn message(&self) -> (r: String)
        ensures
            r@ == invalid_path_message(self.spec_path()),
    {
        match self {
            SyncError::InvalidPath { path } => String::from_str("invalid path ").concat(
                path.as_str(),
            ),
        }
    }
}

/// The single line a failed run prints: `Error: invalid path <root>`.
pub fn error_line(e: &SyncError) -> (r: String)
    ensures
        r@ == "Error: "@ + invalid_path_message(e.spec_path()),
{
    String::from_str("Error: ").concat(e.message().as_str())
}

} // verus!
