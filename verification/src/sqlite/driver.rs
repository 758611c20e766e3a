//! The calls into `rusqlite`. Nothing is known of a connection but that
//! these calls can be made on it.
use crate::model::movie::Movie;
use rusqlite::Connection;
use vstd::prelude::*;

verus! {

/// `rusqlite::Connection`, a handle to one database.
#[verifier::external_type_specification]
#[verifier::external_body]
pub struct ExConnection(rusqlite::Connection);

/// `rusqlite::Error`, what a call on a connection fails with.
#[verifier::external_type_specification]
#[verifier::external_body]
pub struct ExSqliteError(rusqlite::Error);

/// Calls `rusqlite::Connection::open_in_memory`, which opens a new database
/// that lives in memory. Nothing is claimed of the outcome.
#[verifier::external_body]
pub(crate) fn open_in_memory() -> (opened: Result<Connection, rusqlite::Error>) {
    Connection::open_in_memory()
}

/// Calls `rusqlite::Connection::execute` with a statement that takes no
/// parameters. On success the number is the count of rows that were
/// changed, inserted or deleted; which it is depends on the database, so
/// nothing is claimed of the outcome.
#[verifier::external_body]
pub(crate) fn execute(conn: &Connection, sql: &str) -> (changed: Result<usize, rusqlite::Error>) {
    conn.execute(sql, ())
}

/// Calls `rusqlite::Connection::execute` with the fields of `movie` after
/// `id` as the statement's seven parameters, in their order. Nothing is
/// claimed of the outcome.
#[verifier::external_body]
pub(crate) fn insert_movie(conn: &Connection, sql: &str, movie: &Movie) -> (changed: Result<
    usize,
    rusqlite::Error,
>) {
    conn.execute(
        sql,
        (
            movie.tmdb_id,
            &movie.title,
            &movie.overview,
            movie.release_year,
            &movie.file_path,
            &movie.poster_path,
            &movie.backdrop_path,
        ),
    )
}

/// Calls `rusqlite::Connection::prepare` and `rusqlite::Statement::query_map`
/// with `id` as the statement's parameter where it is there, and reads each
/// row's first eight columns with `rusqlite::Row::get` into the fields of a
/// movie, in their order. The first error ends the call. Nothing is claimed
/// of the outcome.
#[verifier::external_body]
pub(crate) fn select_movies(conn: &Connection, sql: &str, id: Option<i32>) -> (rows: Result<
    Vec<Movie>,
    rusqlite::Error,
>) {
    let mut stmt = conn.prepare(sql)?;
    let rows = stmt.query_map(rusqlite::params_from_iter(id), |row| {
        Ok(Movie {
            id: row.get(0)?,
            tmdb_id: row.get(1)?,
            title: row.get(2)?,
            overview: row.get(3)?,
            release_year: row.get(4)?,
            file_path: row.get(5)?,
            poster_path: row.get(6)?,
            backdrop_path: row.get(7)?,
        })
    })?;
    rows.collect()
}

} // verus!
