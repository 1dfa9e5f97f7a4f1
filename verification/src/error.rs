//! The ways in which an operation on the store fails.

use vstd::prelude::*;

verus! {

/// The documents that are asked for by name, and whose absence is a failure.
#[derive(Clone, Copy, Debug, PartialEq, Eq, Structural)]
pub enum DocumentKind {
    /// A signature profile, stored under its name.
    Signature,
    /// An image that a signature profile refers to.
    Image,
}

/// Why an operation on the store failed.
#[derive(Clone, Debug, PartialEq, Eq)]
pub enum StoreError {
    /// The named document does not exist.
    NotFound { kind: DocumentKind, name: String },
    /// The file system refused; the text is what it reported.
    Io(String),
    /// The lock was held by someone else until the deadline passed.
    LockTimeout,
    /// The document exists but its content is not what its type asks for.
    Decode(String),
}

/// What `message` says of a document that was not found.
pub open spec fn not_found_text(kind: DocumentKind, name: Seq<char>) -> Seq<char> {
    match kind {
        DocumentKind::Signature => "Signature '"@ + name + "' not found"@,
        DocumentKind::Image => "Image file '"@ + name + "' not found"@,
    }
}

/// What `message` says of `error`.
pub open spec fn message_text(error: StoreError) -> Seq<char> {
    match error {
        StoreError::NotFound { kind, name } => not_found_text(kind, name@),
        StoreError::Io(text) => text@,
        StoreError::LockTimeout => "Timed out waiting for cache lock"@,
        StoreError::Decode(text) => text@,
    }
}

impl StoreError {
    /// The failure in words, as it is shown to the user.
    pub fn message(&self) -> (text: String)
        ensures
            text@ == message_text(*self),
    {
        match self {
            StoreError::NotFound { kind, name } => {
                let mut text = match kind {
                    DocumentKind::Signature => "Signature '".to_string(),
                    DocumentKind::Image => "Image file '".to_string(),
                };
                text.append(name.as_str());
                text.append("' not found");
                text
            },
            StoreError::Io(text) => text.clone(),
            StoreError::LockTimeout => "Timed out waiting for cache lock".to_string(),
            StoreError::Decode(text) => text.clone(),
        }
    }
}

} // verus!
