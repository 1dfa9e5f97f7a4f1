//! What the file system held at the place of a document.

use vstd::prelude::*;

verus! {

/// What was found at the place of a document, as far as whoever looked could
/// tell. `T` is the form in which the content is handed on: the text or the
/// bytes of the file, or the value that they decode to.
#[derive(Clone, Debug, PartialEq, Eq)]
pub enum Found<T> {
    /// There is no file at the place.
    Absent,
    /// There is a file, but reading it failed; the text is what the file
    /// system reported.
    Unreadable(String),
    /// The file was read, but its content is not of the document's type;
    /// the text says why.
    Corrupt(String),
    /// The content of the file.
    Present(T),
}

} // verus!
