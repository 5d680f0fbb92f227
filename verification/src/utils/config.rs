use vstd::prelude::*;

use crate::db::DatabaseError;

verus! {

/// Why the application state could not be made.
#[derive(Debug, Clone, Copy, PartialEq, Eq, Structural)]
pub enum AppStateError {
    /// The database pool could not be made.
    DatabasePoolError(DatabaseError),
}

impl AppStateError {
    /// The text this error is displayed with.
    pub open spec fn spec_message(self) -> Seq<char> {
        "Cannot get database pools."@
    }

    /// Renders the error as it is displayed.
    pub fn message(&self) -> (text: String)
        ensures
            text@ == self.spec_message(),
            text@ == "Cannot get database pools."@,
    {
        String::from_str("Cannot get database pools.")
    }

    /// The database error this error carries.
    pub fn source(&self) -> (cause: DatabaseError)
        ensures
            *self == AppStateError::DatabasePoolError(cause),
    {
        match self {
            AppStateError::DatabasePoolError(e) => *e,
        }
    }
}

impl From<DatabaseError> for AppStateError {
    fn from(e: DatabaseError) -> (wrapped: Self) {
        AppStateError::DatabasePoolError(e)
    }
}

impl vstd::std_specs::convert::FromSpecImpl<DatabaseError> for AppStateError {
    open spec fn obeys_from_spec() -> bool {
        true
    }

    open spec fn from_spec(e: DatabaseError) -> Self {
        AppStateError::DatabasePoolError(e)
    }
}

} // verus!
