use vstd::prelude::*;

verus! {

/// The kind of entity a command refers to, carried by resolution errors so
/// that the presentation layer can name the entity in its message.
#[derive(Clone, Copy, Debug, PartialEq, Eq, Structural)]
pub enum EntityKind {
    Project,
    Module,
    Feature,
    Task,
    Research,
}

/// A caller-input validation failure, with the structured reason.
#[derive(Clone, Debug, PartialEq, Eq)]
pub enum ValidationReason {
    /// The trimmed name handed to an add or rename operation was empty.
    EmptyName,
    /// The given string is not one of the five lifecycle state names.
    InvalidStateName(String),
    /// The given string is neither a date nor a second-precision UTC timestamp.
    InvalidDateFormat(String),
    /// A link or unlink request selected this many targets instead of exactly one.
    WrongLinkTargetCount(usize),
}

/// The error taxonomy of the library. Every fallible operation reports one of
/// these structured variants; no variant carries pre-formatted prose.
#[derive(Clone, Debug, PartialEq, Eq)]
pub enum MemError {
    /// No row of the given kind matches the token.
    NotFound(EntityKind, String),
    /// The token names several rows of the given kind; the final field is the
    /// flag that narrows the scope to a single parent.
    Ambiguous(EntityKind, String, String),
    /// The caller's input was rejected before any row was touched.
    Validation(ValidationReason),
    /// Deletion was refused: the row has this many direct children and the
    /// flag in the second field was not passed.
    ConflictHasChildren(u64, String),
    /// The requested lifecycle transition is not an edge of the state graph.
    InvalidTransition(crate::state::State, crate::state::State),
    /// The persistence layer failed; the field carries its report.
    Storage(String),
}

} // verus!
