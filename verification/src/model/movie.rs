//! Movies, and the table that holds them.
use super::error::DbError;
use super::{Model, Table};
use crate::sqlite::database::{Operation, Outcome};
use crate::text::{join, joined, texts};
use vstd::prelude::*;
use vstd::string::StringExecFns;

verus! {

/// One entry of the library.
#[derive(Debug, Eq, PartialEq)]
pub struct Movie {
    pub id: i32,
    pub tmdb_id: i32,
    pub title: String,
    pub overview: String,
    pub release_year: i32,
    pub file_path: String,
    pub poster_path: String,
    pub backdrop_path: String,
}

impl Clone for Movie {
    fn clone(&self) -> (copy: Movie)
        ensures
            copy == *self,
    {
        Movie {
            id: self.id,
            tmdb_id: self.tmdb_id,
            title: self.title.clone(),
            overview: self.overview.clone(),
            release_year: self.release_year,
            file_path: self.file_path.clone(),
            poster_path: self.poster_path.clone(),
            backdrop_path: self.backdrop_path.clone(),
        }
    }
}

impl Model for Movie {

}

/// The columns of the table, the key first.
pub open spec fn movie_fields() -> Seq<Seq<char>> {
    seq![
        "id"@,
        "tmdb_id"@,
        "title"@,
        "overview"@,
        "release_year"@,
        "file_path"@,
        "poster_path"@,
        "backdrop_path"@,
    ]
}

/// The statement that creates the table.
pub open spec fn create_sql() -> Seq<char> {
    "CREATE TABLE movies (
                    id              INTEGER PRIMARY KEY,
                    tmdb_id         INTEGER,
                    title           VARCHAR(255) NOT NULL,
                    overview        TEXT,
                    release_year    INTEGER NOT NULL,
                    file_path       VARCHAR(255) NOT NULL,
                    poster_path     VARCHAR(255),
                    backdrop_path   VARCHAR(255)
                )"@
}

/// The statement that reads every row of the table `name`.
pub open spec fn select_all_sql(fields: Seq<Seq<char>>, name: Seq<char>) -> Seq<char> {
    "SELECT "@ + joined(fields, ","@) + " FROM "@ + name
}

/// The statement that reads the row whose key is its one parameter.
pub open spec fn select_by_id_sql(fields: Seq<Seq<char>>, name: Seq<char>) -> Seq<char> {
    select_all_sql(fields, name) + " WHERE ID=?1 LIMIT 1"@
}

/// The columns that are stored as given: all but the key, which comes first.
pub open spec fn after_key(fields: Seq<Seq<char>>) -> Seq<Seq<char>> {
    if fields.len() == 0 {
        fields
    } else {
        fields.drop_first()
    }
}

/// The statement that adds a row. Its parameters are the columns after the
/// key, in their order; the key is left for the database to assign.
pub open spec fn insert_sql(fields: Seq<Seq<char>>, name: Seq<char>) -> Seq<char> {
    "INSERT INTO "@ + name + " ("@ + joined(after_key(fields), ","@)
        + ") VALUES (?1, ?2, ?3, ?4, ?5, ?6, ?7)"@
}

/// The one row of `rows`, where there is exactly one.
pub open spec fn single(rows: Seq<Movie>) -> Option<Movie> {
    if rows.len() == 1 {
        Some(rows[0])
    } else {
        None
    }
}

/// Represents the table movies in the database.
pub struct MovieTable {
    fields: Vec<&'static str>,
    name: String,
}

impl MovieTable {
    /// The name of the table.
    pub closed spec fn name(&self) -> Seq<char> {
        self.name@
    }

    /// The columns of the table, the key first.
    pub closed spec fn fields(&self) -> Seq<Seq<char>> {
        texts(self.fields@)
    }

    /// Create a new handler to the movies table.
    pub fn new() -> (table: MovieTable)
        ensures
            table.name() == "movies"@,
            table.fields() == movie_fields(),
    {
        let mut fields: Vec<&'static str> = Vec::new();
        fields.push("id");
        fields.push("tmdb_id");
        fields.push("title");
        fields.push("overview");
        fields.push("release_year");
        fields.push("file_path");
        fields.push("poster_path");
        fields.push("backdrop_path");
        assert(texts(fields@) =~= movie_fields());
        MovieTable { fields, name: String::from_str("movies") }
    }

    /// What the answer to `create_table` or `save` means: nothing but
    /// success or the error.
    pub fn done(outcome: Result<Outcome, DbError>) -> (result: Result<(), DbError>)
        ensures
            match outcome {
                Ok(Outcome::Changed(_)) => result == Ok::<(), DbError>(()),
                Ok(_) => result matches Err(DbError::Database(why)) && why@ == "unexpected answer"@,
                Err(e) => result == Err::<(), DbError>(e),
            },
    {
        match outcome {
            Ok(Outcome::Changed(_)) => Ok(()),
            Ok(_) => Err(DbError::Database(String::from_str("unexpected answer"))),
            Err(e) => Err(e),
        }
    }

    /// What the answer to `by_id` means. Exactly one row is the movie; no
    /// row at all is `Ok(None)`, an explicit "not found" and no error; an
    /// error of the database is handed on as it came.
    pub fn found(outcome: Result<Outcome, DbError>) -> (result: Result<Option<Movie>, DbError>)
        ensures
            match outcome {
                Ok(Outcome::Movies(rows)) => result == Ok::<Option<Movie>, DbError>(
                    single(rows@),
                ),
                Ok(_) => result matches Err(DbError::Database(why)) && why@ == "unexpected answer"@,
                Err(e) => result == Err::<Option<Movie>, DbError>(e),
            },
    {
        match outcome {
            Ok(Outcome::Movies(rows)) => {
                let mut rows = rows;
                if rows.len() != 1 {
                    Ok(None)
                } else {
                    Ok(rows.pop())
                }
            },
            Ok(_) => Err(DbError::Database(String::from_str("unexpected answer"))),
            Err(e) => Err(e),
        }
    }

    /// What the answer to `all` means: the rows, in the order in which the
    /// database gave them.
    pub fn listed(outcome: Result<Outcome, DbError>) -> (result: Result<Vec<Movie>, DbError>)
        ensures
            match outcome {
                Ok(Outcome::Movies(rows)) => result == Ok::<Vec<Movie>, DbError>(rows),
                Ok(_) => result matches Err(DbError::Database(why)) && why@ == "unexpected answer"@,
                Err(e) => result == Err::<Vec<Movie>, DbError>(e),
            },
    {
        match outcome {
            Ok(Outcome::Movies(rows)) => Ok(rows),
            Ok(_) => Err(DbError::Database(String::from_str("unexpected answer"))),
            Err(e) => Err(e),
        }
    }
}

impl Table for MovieTable {
    type Model = Movie;

    /// The statement that creates the table.
    fn create_table(&self) -> (operation: Operation)
        ensures
            operation matches Operation::Execute { sql } && sql@ == create_sql(),
    {
        Operation::Execute {
            sql: String::from_str(
                "CREATE TABLE movies (
                    id              INTEGER PRIMARY KEY,
                    tmdb_id         INTEGER,
                    title           VARCHAR(255) NOT NULL,
                    overview        TEXT,
                    release_year    INTEGER NOT NULL,
                    file_path       VARCHAR(255) NOT NULL,
                    poster_path     VARCHAR(255),
                    backdrop_path   VARCHAR(255)
                )",
            ),
        }
    }

    /// The query for the movie with the key `id`.
    fn by_id(&self, id: i32) -> (operation: Operation)
        ensures
            operation matches Operation::Select { sql, id: key } && key == Some(id) && sql@
                == select_by_id_sql(self.fields(), self.name()),
    {
        let mut sql = String::from_str("SELECT ");
        sql.append(join(&self.fields, ",").as_str());
        sql.append(" FROM ");
        sql.append(self.get_name());
        sql.append(" WHERE ID=?1 LIMIT 1");
        Operation::Select { sql, id: Some(id) }
    }

    /// The query for every movie.
    fn all(&self) -> (operation: Operation)
        ensures
            operation matches Operation::Select { sql, id } && id is None && sql@
                == select_all_sql(self.fields(), self.name()),
    {
        let mut sql = String::from_str("SELECT ");
        sql.append(join(&self.fields, ",").as_str());
        sql.append(" FROM ");
        sql.append(self.get_name());
        Operation::Select { sql, id: None }
    }

    /// The statement that stores `model` as a new row. Its `id` is not
    /// stored: the database assigns the key.
    fn save(&self, model: Movie) -> (operation: Operation)
        ensures
            operation matches Operation::Insert { sql, movie } && movie == model && sql@
                == insert_sql(self.fields(), self.name()),
    {
        let mut stored: Vec<&str> = Vec::new();
        let mut i: usize = 1;
        while i < self.fields.len()
            invariant
                1 <= i,
                self.fields@.len() == 0 ==> stored@.len() == 0,
                self.fields@.len() > 0 ==> i <= self.fields@.len() && stored@.len() == i - 1,
                forall|j: int| 0 <= j < stored@.len() ==> stored@[j]@ == self.fields@[j + 1]@,
            decreases self.fields@.len() - i,
        {
            stored.push(self.fields[i]);
            i += 1;
        }
        assert(texts(stored@) =~= after_key(self.fields()));
        let mut sql = String::from_str("INSERT INTO ");
        sql.append(self.get_name());
        sql.append(" (");
        sql.append(join(&stored, ",").as_str());
        sql.append(") VALUES (?1, ?2, ?3, ?4, ?5, ?6, ?7)");
        Operation::Insert { sql, movie: model }
    }

    /// The name of the table.
    fn get_name(&self) -> (name: &str)
        ensures
            name@ == self.name(),
    {
        self.name.as_str()
    }
}

} // verus!
