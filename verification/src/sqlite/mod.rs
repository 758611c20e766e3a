//! The database behind the service: one connection, one owner, and a queue
//! of jobs in front of it.
pub mod database;
pub mod driver;

pub use database::{AsyncSqlite, Runtime};
