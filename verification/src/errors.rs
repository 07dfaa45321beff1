//! The error taxonomy shared by every provider: configuration problems found
//! before any backend work, and failures met while producing vectors.

use vstd::prelude::*;

verus! {

/// Which of the two failure families an error belongs to.
///
/// `Validation` covers malformed or contradictory configuration discovered
/// before any backend call; `Embedding` covers everything that goes wrong
/// while actually producing vectors.
#[derive(Clone, Copy, Debug, PartialEq, Eq, Structural)]
pub enum ErrorKind {
    Validation,
    Embedding,
}

/// An error surfaced to the caller, carrying its kind and a diagnostic
/// message with enough context (service URL, status code, or model name)
/// to act on without re-running.
#[derive(Debug)]
pub struct SkypydbError {
    pub kind: ErrorKind,
    pub message: String,
}

impl SkypydbError {
    /// A configuration problem found before any backend call.
    pub fn validation(message: String) -> (e: Self)
        ensures
            e.kind == ErrorKind::Validation,
            e.message@ == message@,
    {
        SkypydbError { kind: ErrorKind::Validation, message }
    }

    /// A failure met while producing vectors.
    pub fn embedding(message: String) -> (e: Self)
        ensures
            e.kind == ErrorKind::Embedding,
            e.message@ == message@,
    {
        SkypydbError { kind: ErrorKind::Embedding, message }
    }

    /// The diagnostic text of the error.
    pub fn message(&self) -> (m: &str)
        ensures
            m@ == self.message@,
    {
        self.message.as_str()
    }

    /// The failure family of the error.
    pub fn kind(&self) -> (k: ErrorKind)
        ensures
            k == self.kind,
    {
        self.kind
    }
}

} // verus!
