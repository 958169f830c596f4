//! The failures that the store and the synchroniser report.
use vstd::prelude::*;

verus! {

/// Why an operation failed.
///
/// None of these stops the application: after a failure the store holds what
/// it held before, and the last known copy of every guide is still shown.
#[derive(Debug, Clone, Copy, PartialEq, Eq, Structural)]
pub enum GuideError {
    /// The storage layout could not be created: the base path is not writable.
    StorageInit,
    /// Storage could not be read, or what it holds is corrupt.
    StorageRead,
    /// A write to storage failed.
    StorageWrite,
    /// No guide, or no item, has the id that was asked for, locally or on
    /// the server.
    NotFound,
    /// The server could not be reached.
    Network,
    /// The server's answer could not be understood.
    Decode,
}

/// The text that `message` gives for each failure.
pub open spec fn message_text(e: GuideError) -> Seq<char> {
    match e {
        GuideError::StorageInit => "could not prepare local storage, continuing with defaults"@,
        GuideError::StorageRead => "could not read local storage"@,
        GuideError::StorageWrite => "could not save changes"@,
        GuideError::NotFound => "no such guide or item"@,
        GuideError::Network => "could not update this guide, showing last known copy"@,
        GuideError::Decode => "could not update this guide, showing last known copy"@,
    }
}

impl GuideError {
    /// Whether the failure arose while asking the server, so that the user
    /// goes on with the last known copy.
    pub fn keeps_last_copy(self) -> (r: bool)
        ensures
            r == (self == GuideError::Network || self == GuideError::Decode),
    {
        match self {
            GuideError::Network | GuideError::Decode => true,
            _ => false,
        }
    }

    /// What to tell the user.
    pub fn message(self) -> (r: &'static str)
        ensures
            r@ == message_text(self),
    {
        match self {
            GuideError::StorageInit => "could not prepare local storage, continuing with defaults",
            GuideError::StorageRead => "could not read local storage",
            GuideError::StorageWrite => "could not save changes",
            GuideError::NotFound => "no such guide or item",
            GuideError::Network => "could not update this guide, showing last known copy",
            GuideError::Decode => "could not update this guide, showing last known copy",
        }
    }
}

} // verus!
