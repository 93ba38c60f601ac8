use vstd::prelude::*;

verus! {

/// What can go wrong while serving a request.
#[derive(Debug, Clone, Copy, PartialEq, Eq, Structural)]
pub enum TodoError {
    /// A required request field is absent.
    MissingParameter,
    /// The file or the connection behind the store failed.
    StorageIO,
    /// The persisted content could not be decoded.
    Deserialize,
    /// A relational query failed.
    QueryFailure,
    /// No item has the requested identifier, or no route has the path.
    NotFound,
    /// A counter or the identifier space has reached the top of its range.
    Overflow,
}

impl TodoError {
    /// A short message naming the error, used as the title of a failure page.
    pub fn message(&self) -> (r: &'static str) {
        match self {
            TodoError::MissingParameter => "missing parameter",
            TodoError::StorageIO => "storage failure",
            TodoError::Deserialize => "malformed stored data",
            TodoError::QueryFailure => "query failure",
            TodoError::NotFound => "not found",
            TodoError::Overflow => "value out of range",
        }
    }
}

} // verus!
