//! Errors of database operations.

use vstd::prelude::*;
use crate::text::concat_str;

verus! {

/// Database errors, each with a message describing the failed step.
#[derive(Debug, Clone, PartialEq, Eq)]
pub enum DatabaseError {
    /// Establishing or using the connection failed.
    Connection(String),
    /// Initialising or migrating the schema failed.
    Schema(String),
    /// A query failed.
    Query(String),
    /// The configuration is invalid.
    Configuration(String),
    /// The connection lock could not be acquired.
    LockError,
    /// A transaction failed.
    Transaction(String),
    /// An insert failed.
    Insert(String),
    /// A record was not found.
    NotFound(String),
    /// A data migration failed.
    Migration(String),
}

/// The text an error is shown with: a prefix naming its kind, then its message.
pub open spec fn error_text(e: DatabaseError) -> Seq<char> {
    match e {
        DatabaseError::Connection(m) => "Connection error: "@ + m@,
        DatabaseError::Schema(m) => "Schema error: "@ + m@,
        DatabaseError::Query(m) => "Query error: "@ + m@,
        DatabaseError::Configuration(m) => "Configuration error: "@ + m@,
        DatabaseError::LockError => "Lock error: failed to acquire database lock"@,
        DatabaseError::Transaction(m) => "Transaction error: "@ + m@,
        DatabaseError::Insert(m) => "Insert error: "@ + m@,
        DatabaseError::NotFound(m) => "Not found: "@ + m@,
        DatabaseError::Migration(m) => "Migration error: "@ + m@,
    }
}

impl DatabaseError {
    /// The text the error is shown with.
    pub fn to_message(&self) -> (s: String)
        ensures
            s@ == error_text(*self),
    {
        match self {
            DatabaseError::Connection(m) => concat_str("Connection error: ", m.as_str()),
            DatabaseError::Schema(m) => concat_str("Schema error: ", m.as_str()),
            DatabaseError::Query(m) => concat_str("Query error: ", m.as_str()),
            DatabaseError::Configuration(m) => concat_str("Configuration error: ", m.as_str()),
            DatabaseError::LockError => "Lock error: failed to acquire database lock".to_owned(),
            DatabaseError::Transaction(m) => concat_str("Transaction error: ", m.as_str()),
            DatabaseError::Insert(m) => concat_str("Insert error: ", m.as_str()),
            DatabaseError::NotFound(m) => concat_str("Not found: ", m.as_str()),
            DatabaseError::Migration(m) => concat_str("Migration error: ", m.as_str()),
        }
    }
}

} // verus!
