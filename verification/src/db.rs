use vstd::prelude::*;

pub mod url;

verus! {

/// Upper bound on the number of connections the database pool holds.
pub const POOL_MAX_SIZE: u32 = 10;

/// Why the database pool could not be made.
#[derive(Debug, Clone, Copy, PartialEq, Eq, Structural)]
pub enum DatabaseError {
    /// `DATABASE_URL` is not set.
    DatabaseEnvVarError,
    /// The pool could not be built.
    PoolConnectionError,
}

impl DatabaseError {
    /// The text this error is displayed with.
    pub open spec fn spec_message(self) -> Seq<char> {
        match self {
            DatabaseError::DatabaseEnvVarError => "DATABASE_URL env not found"@,
            DatabaseError::PoolConnectionError => "Cannot create pool"@,
        }
    }

    /// Renders the error as it is displayed.
    pub fn message(&self) -> (text: String)
        ensures
            text@ == self.spec_message(),
            *self == DatabaseError::DatabaseEnvVarError ==> text@ == "DATABASE_URL env not found"@,
            *self == DatabaseError::PoolConnectionError ==> text@ == "Cannot create pool"@,
    {
        match self {
            DatabaseError::DatabaseEnvVarError => String::from_str("DATABASE_URL env not found"),
            DatabaseError::PoolConnectionError => String::from_str("Cannot create pool"),
        }
    }
}

/// Placeholder for a connectivity probe; it does nothing.
pub fn check_connection() {
}

} // verus!
