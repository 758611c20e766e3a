//! The errors of the storage layer.
use vstd::prelude::*;
use vstd::std_specs::convert::FromSpecImpl;
use vstd::string::StringExecFns;

verus! {

/// Why an operation on the database failed.
#[derive(Debug)]
pub enum DbError {
    /// The executor could not do its part; the field says why.
    Database(String),
    /// The database refused the operation. The field is its own error,
    /// handed on as it came.
    Sqlite(rusqlite::Error),
}

impl DbError {
    /// The text shown for any of these errors.
    pub fn message(&self) -> (text: String)
        ensures
            text@ == "Custom Error"@,
    {
        String::from_str("Custom Error")
    }
}

impl From<rusqlite::Error> for DbError {
    fn from(err: rusqlite::Error) -> (e: DbError) {
        DbError::Sqlite(err)
    }
}

impl FromSpecImpl<rusqlite::Error> for DbError {
    open spec fn obeys_from_spec() -> bool {
        true
    }

    open spec fn from_spec(err: rusqlite::Error) -> DbError {
        DbError::Sqlite(err)
    }
}

} // verus!
