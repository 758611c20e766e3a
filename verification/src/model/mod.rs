//! What is stored: the entities and the statements that read and write
//! them.
pub mod error;
pub mod movie;

pub use error::DbError;
pub use movie::{Movie, MovieTable};

use crate::sqlite::database::Operation;
use vstd::prelude::*;

verus! {

/// An entity that a table holds.
pub trait Model {

}

/// A table of the database. Each method describes one operation on the
/// table; submitting it to the executor is up to the caller.
pub trait Table {
    type Model;

    /// Create the table
    fn create_table(&self) -> Operation;

    /// Tries to fetch a model by id
    fn by_id(&self, id: i32) -> Operation;

    /// Get all entries from the table.
    /// WARNING: This can take a lot of resources depending on the
    /// table size
    fn all(&self) -> Operation;

    /// Saves a model
    fn save(&self, model: Self::Model) -> Operation;

    /// Get the name of the table
    fn get_name(&self) -> &str;
}

} // verus!
