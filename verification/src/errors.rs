//! Error taxonomy of the store layer.

use vstd::prelude::*;
use vstd::string::*;

verus! {

/// Failure classes of the persona and binding stores.
#[derive(Clone, Copy, Debug, PartialEq, Eq, Structural)]
pub enum ModelError {
    /// An issue with the connection to the database occurred.
    ConnectionError,
    /// An error occurred while querying the database.
    QueryDatabaseError,
    /// No such item found in the database.
    NoSuchItem,
    /// An error occurred while running database migrations.
    MigrationError,
}

impl ModelError {
    /// The user-facing description of this error.
    pub fn message(&self) -> (r: String)
        ensures
            *self is ConnectionError ==> r@ == "An issue with the connection to the database occurred."@,
            *self is QueryDatabaseError ==> r@ == "An error occurred while querying the database."@,
            *self is NoSuchItem ==> r@ == "No such item found in the database."@,
            *self is MigrationError ==> r@ == "An error occurred while running database migrations."@,
    {
        match self {
            ModelError::ConnectionError => String::from_str(
                "An issue with the connection to the database occurred.",
            ),
            ModelError::QueryDatabaseError => String::from_str(
                "An error occurred while querying the database.",
            ),
            ModelError::NoSuchItem => String::from_str("No such item found in the database."),
            ModelError::MigrationError => String::from_str(
                "An error occurred while running database migrations.",
            ),
        }
    }
}

} // verus!
