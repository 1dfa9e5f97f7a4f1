//! Writing a document so that no reader ever sees it half written: the new
//! content goes to a file beside the document, and takes the document's
//! place by one rename.

use crate::error::StoreError;
use vstd::prelude::*;

verus! {

/// What whoever touches the file system is asked to do for a commit.
#[derive(Clone, Copy, Debug, PartialEq, Eq, Structural)]
pub enum CommitAction {
    /// Write the whole new content to the temporary file beside the
    /// document, replacing what that file held, and then ask for it to be
    /// flushed to the disk.
    WriteTemp,
    /// Remove the document, if it is there.
    RemoveFinal,
    /// Rename the temporary file to the document.
    Rename,
}

/// How an action of a commit came out.
#[derive(Clone, Debug, PartialEq, Eq)]
pub enum CommitEvent {
    /// The temporary file holds the whole new content. `flushed` tells
    /// whether the flush succeeded too.
    TempWritten { flushed: bool },
    /// The temporary file could not be written in full.
    WriteFailed(String),
    /// The removal of the document was tried. `gone` tells whether the
    /// document is absent now.
    FinalCleared { gone: bool },
    /// The temporary file has taken the document's place.
    Renamed,
    /// The rename failed.
    RenameFailed(String),
}

/// How far a commit has come.
#[derive(Debug, PartialEq, Eq)]
pub enum Commit {
    /// The new content is being written to the temporary file.
    Writing,
    /// The temporary file is complete; the document is being removed.
    Clearing,
    /// The temporary file is being renamed to the document.
    Renaming,
    /// The commit has ended, well or not.
    Done(Result<(), StoreError>),
}

/// What a commit in the state `state` waits for.
pub open spec fn awaited(state: Commit) -> Option<CommitAction> {
    match state {
        Commit::Writing => Some(CommitAction::WriteTemp),
        Commit::Clearing => Some(CommitAction::RemoveFinal),
        Commit::Renaming => Some(CommitAction::Rename),
        Commit::Done(_) => None,
    }
}

/// Whether `event` tells how `action` came out.
pub open spec fn answers(action: CommitAction, event: CommitEvent) -> bool {
    match action {
        CommitAction::WriteTemp => event is TempWritten || event is WriteFailed,
        CommitAction::RemoveFinal => event is FinalCleared,
        CommitAction::Rename => event is Renamed || event is RenameFailed,
    }
}

/// The state of a commit after `event`. A failed flush and a failed removal
/// do not stop it; a failed write and a failed rename end it. An event
/// that does not answer what the commit waits for changes nothing.
pub open spec fn committed(state: Commit, event: CommitEvent) -> Commit {
    match (state, event) {
        (Commit::Writing, CommitEvent::TempWritten { flushed }) => Commit::Clearing,
        (Commit::Writing, CommitEvent::WriteFailed(text)) => Commit::Done(
            Err(StoreError::Io(text)),
        ),
        (Commit::Clearing, CommitEvent::FinalCleared { gone }) => Commit::Renaming,
        (Commit::Renaming, CommitEvent::Renamed) => Commit::Done(Ok(())),
        (Commit::Renaming, CommitEvent::RenameFailed(text)) => Commit::Done(
            Err(StoreError::Io(text)),
        ),
        (state, _) => state,
    }
}

impl Commit {
    /// A commit of which nothing has been done yet.
    pub fn begin() -> (state: Commit)
        ensures
            state == Commit::Writing,
    {
        Commit::Writing
    }

    /// What is to be done next, or `None` when the commit has ended.
    pub fn pending(&self) -> (action: Option<CommitAction>)
        ensures
            action == awaited(*self),
    {
        match self {
            Commit::Writing => Some(CommitAction::WriteTemp),
            Commit::Clearing => Some(CommitAction::RemoveFinal),
            Commit::Renaming => Some(CommitAction::Rename),
            Commit::Done(_) => None,
        }
    }

    /// The state after the pending action came out as `event` tells.
    pub fn advance(self, event: CommitEvent) -> (next: Commit)
        ensures
            next == committed(self, event),
    {
        match (self, event) {
            (Commit::Writing, CommitEvent::TempWritten { flushed: _ }) => Commit::Clearing,
            (Commit::Writing, CommitEvent::WriteFailed(text)) => Commit::Done(
                Err(StoreError::Io(text)),
            ),
            (Commit::Clearing, CommitEvent::FinalCleared { gone: _ }) => Commit::Renaming,
            (Commit::Renaming, CommitEvent::Renamed) => Commit::Done(Ok(())),
            (Commit::Renaming, CommitEvent::RenameFailed(text)) => Commit::Done(
                Err(StoreError::Io(text)),
            ),
            (state, _) => state,
        }
    }

    /// How the commit ended, or `None` while it is under way.
    pub fn outcome(self) -> (r: Option<Result<(), StoreError>>)
        ensures
            r == match self {
                Commit::Done(outcome) => Some(outcome),
                _ => None,
            },
    {
        match self {
            Commit::Done(outcome) => Some(outcome),
            _ => None,
        }
    }
}

} // verus!
