use vstd::prelude::*;

verus! {

/// The ways in which a login attempt can fail.
#[derive(PartialEq, Eq, Structural, Clone, Copy, Debug)]
pub enum LoginError {
    /// No such account or record.
    NotFound,
    /// The caller may not read a restricted store.
    PermissionDenied,
    /// A lookup buffer could not grow any further.
    ResourceExhausted,
    /// Every display slot is taken.
    NoFreeDisplay,
    /// The display never accepted a connection.
    DisplayUnready,
    /// A raw operating-system failure code.
    OsError(i32),
    /// A session command line that is empty or malformed.
    InvalidSessionDefinition,
}

} // verus!
