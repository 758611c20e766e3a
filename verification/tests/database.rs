use moviebay::config::DatabaseConfig;
use moviebay::model::{DbError, Movie, MovieTable, Table};
use moviebay::sqlite::database::{AsyncSqlite, Operation, Outcome, Runtime, Step};

/// Submits `operation` and lets the owner take its turn; the queue is empty
/// before, so the turn runs this job.
fn call(db: &mut AsyncSqlite, rt: &mut Runtime, operation: Operation) -> Result<Outcome, DbError> {
    let ticket = db.spawn(operation).unwrap();
    match rt.run(db) {
        Step::Done(done) => {
            assert_eq!(ticket, done.ticket);
            done.outcome
        }
        other => panic!("the job did not run: {:?}", other),
    }
}

fn test_movie() -> Movie {
    Movie {
        id: 0,
        tmdb_id: 0,
        title: "Test Movie".to_owned(),
        overview: "".into(),
        release_year: 2020,
        file_path: "/test_file.mkv".to_owned(),
        poster_path: "/test_poster.jpg".to_owned(),
        backdrop_path: "/test_backdrop.jpg".to_owned(),
    }
}

#[test]
fn test_by_id() {
    let config = DatabaseConfig { name: "test.db".to_owned() };
    let (mut db, mut rt) = Runtime::channel(config).unwrap();
    let t = MovieTable::new();
    MovieTable::done(call(&mut db, &mut rt, t.create_table())).unwrap();

    let movie = MovieTable::found(call(&mut db, &mut rt, t.by_id(1))).unwrap();
    assert_eq!(None, movie);

    let mut newmovie = test_movie();
    MovieTable::done(call(&mut db, &mut rt, t.save(newmovie.clone()))).unwrap();
    newmovie.id = 1;

    let movie = MovieTable::found(call(&mut db, &mut rt, t.by_id(1))).unwrap();
    assert_eq!(Some(newmovie), movie);
}

#[test]
fn test_all() {
    let config = DatabaseConfig { name: "test.db".to_owned() };
    let (mut db, mut rt) = Runtime::channel(config).unwrap();
    let t = MovieTable::new();
    MovieTable::done(call(&mut db, &mut rt, t.create_table())).unwrap();

    let movie = test_movie();
    MovieTable::done(call(&mut db, &mut rt, t.save(movie))).unwrap();

    let movies = MovieTable::listed(call(&mut db, &mut rt, t.all())).unwrap();
    assert_eq!(1, movies.len());
}

#[test]
fn test_async_sql() {
    let config = DatabaseConfig { name: "test.db".to_owned() };
    let (mut sqlite, mut rt) = Runtime::channel(config).unwrap();

    let res = call(
        &mut sqlite,
        &mut rt,
        Operation::Execute {
            sql: "CREATE TABLE person (
                            id      INTEGER PRIMARY KEY,
                            name    TEXT NOT NULL,
                            data    BLOB
                        )"
            .to_owned(),
        },
    )
    .unwrap();

    match res {
        Outcome::Changed(n) => assert_eq!(0, n),
        other => panic!("unexpected answer: {:?}", other),
    }
}

fn config() -> DatabaseConfig {
    DatabaseConfig { name: "snapshot.db".to_owned() }
}

fn execute(sql: &str) -> Operation {
    Operation::Execute { sql: sql.to_owned() }
}

#[test]
fn empty_lookup_is_not_found() {
    let (mut db, mut rt) = Runtime::channel(config()).unwrap();
    let t = MovieTable::new();
    MovieTable::done(call(&mut db, &mut rt, t.create_table())).unwrap();
    let found = MovieTable::found(call(&mut db, &mut rt, t.by_id(42)));
    assert!(matches!(found, Ok(None)));
}

#[test]
fn saved_movies_get_ids_in_order() {
    let (mut db, mut rt) = Runtime::channel(config()).unwrap();
    let t = MovieTable::new();
    MovieTable::done(call(&mut db, &mut rt, t.create_table())).unwrap();
    let mut first = test_movie();
    let mut second = test_movie();
    second.title = "Second".to_owned();
    second.tmdb_id = 7;
    second.overview = "about".to_owned();
    MovieTable::done(call(&mut db, &mut rt, t.save(first.clone()))).unwrap();
    MovieTable::done(call(&mut db, &mut rt, t.save(second.clone()))).unwrap();
    first.id = 1;
    second.id = 2;
    let all = MovieTable::listed(call(&mut db, &mut rt, t.all())).unwrap();
    assert_eq!(vec![first, second.clone()], all);
    let found = MovieTable::found(call(&mut db, &mut rt, t.by_id(2))).unwrap();
    assert_eq!(Some(second), found);
}

#[test]
fn statements_are_written_out() {
    let t = MovieTable::new();
    assert_eq!("movies", t.get_name());
    match t.all() {
        Operation::Select { sql, id } => {
            assert_eq!(
                "SELECT id,tmdb_id,title,overview,release_year,file_path,poster_path,backdrop_path FROM movies",
                sql
            );
            assert_eq!(None, id);
        }
        other => panic!("unexpected operation: {:?}", other),
    }
    match t.by_id(5) {
        Operation::Select { sql, id } => {
            assert_eq!(
                "SELECT id,tmdb_id,title,overview,release_year,file_path,poster_path,backdrop_path FROM movies WHERE ID=?1 LIMIT 1",
                sql
            );
            assert_eq!(Some(5), id);
        }
        other => panic!("unexpected operation: {:?}", other),
    }
    match t.save(test_movie()) {
        Operation::Insert { sql, movie } => {
            assert_eq!(
                "INSERT INTO movies (tmdb_id,title,overview,release_year,file_path,poster_path,backdrop_path) VALUES (?1, ?2, ?3, ?4, ?5, ?6, ?7)",
                sql
            );
            assert_eq!(test_movie(), movie);
        }
        other => panic!("unexpected operation: {:?}", other),
    }
    match t.create_table() {
        Operation::Execute { sql } => {
            assert!(sql.starts_with("CREATE TABLE movies ("));
            assert!(sql.contains("id              INTEGER PRIMARY KEY,"));
            assert!(sql.ends_with(")"));
        }
        other => panic!("unexpected operation: {:?}", other),
    }
}

#[test]
fn jobs_run_in_arrival_order() {
    let (mut db, mut rt) = Runtime::channel(config()).unwrap();
    let t = MovieTable::new();
    assert_eq!(Some(0), db.spawn(t.create_table()));
    assert_eq!(Some(1), db.spawn(t.save(test_movie())));
    assert_eq!(Some(2), db.spawn(t.all()));
    assert_eq!(3, db.pending());

    match rt.run(&mut db) {
        Step::Done(done) => {
            assert_eq!(0, done.ticket);
            assert!(matches!(done.outcome, Ok(Outcome::Changed(0))));
        }
        other => panic!("unexpected step: {:?}", other),
    }
    assert_eq!(2, db.pending());
    match rt.run(&mut db) {
        Step::Done(done) => {
            assert_eq!(1, done.ticket);
            assert!(matches!(done.outcome, Ok(Outcome::Changed(1))));
        }
        other => panic!("unexpected step: {:?}", other),
    }
    match rt.run(&mut db) {
        Step::Done(done) => {
            assert_eq!(2, done.ticket);
            match done.outcome {
                Ok(Outcome::Movies(rows)) => assert_eq!(1, rows.len()),
                other => panic!("unexpected answer: {:?}", other),
            }
        }
        other => panic!("unexpected step: {:?}", other),
    }
    assert_eq!(0, db.pending());
    assert!(matches!(rt.run(&mut db), Step::Idle));
}

#[test]
fn a_failing_job_does_not_stop_the_owner() {
    let (mut db, mut rt) = Runtime::channel(config()).unwrap();
    let failed = call(&mut db, &mut rt, execute("THIS IS NO STATEMENT"));
    assert!(matches!(failed, Err(DbError::Sqlite(_))));
    let t = MovieTable::new();
    // the table is not there yet: the database refuses, the owner goes on
    let missing = MovieTable::found(call(&mut db, &mut rt, t.by_id(1)));
    assert!(matches!(missing, Err(DbError::Sqlite(_))));
    MovieTable::done(call(&mut db, &mut rt, t.create_table())).unwrap();
    let found = MovieTable::found(call(&mut db, &mut rt, t.by_id(1)));
    assert!(matches!(found, Ok(None)));
}

#[test]
fn a_snapshot_waits_its_turn_and_holds_the_owner() {
    let (mut db, mut rt) = Runtime::channel(config()).unwrap();
    let t = MovieTable::new();
    assert_eq!("snapshot.db", db.file());
    assert_eq!(Some(0), db.spawn(t.create_table()));
    assert_eq!(Some(1), db.save());
    assert_eq!(Some(2), db.spawn(t.save(test_movie())));

    assert!(matches!(rt.run(&mut db), Step::Done(_)));
    assert!(!rt.is_busy());
    match rt.run(&mut db) {
        Step::Backup { ticket, file, pages_per_step, pause_ms } => {
            assert_eq!(1, ticket);
            assert_eq!("snapshot.db", file);
            assert_eq!(5, pages_per_step);
            assert_eq!(250, pause_ms);
        }
        other => panic!("unexpected step: {:?}", other),
    }
    assert!(rt.is_busy());
    // the write behind the snapshot is not run while the copy is made
    assert!(matches!(rt.run(&mut db), Step::Busy));
    assert_eq!(1, db.pending());
    // what the copy would see: the table is there, and empty
    let rows: i64 = rt
        .connection()
        .query_row("SELECT COUNT(*) FROM movies", (), |row| row.get(0))
        .unwrap();
    assert_eq!(0, rows);

    let done = rt.finish(Ok(())).unwrap();
    assert_eq!(1, done.ticket);
    assert!(matches!(done.outcome, Ok(Outcome::Saved)));
    assert!(!rt.is_busy());
    assert!(rt.finish(Ok(())).is_none());

    match rt.run(&mut db) {
        Step::Done(done) => {
            assert_eq!(2, done.ticket);
            assert!(matches!(done.outcome, Ok(Outcome::Changed(1))));
        }
        other => panic!("unexpected step: {:?}", other),
    }
}

#[test]
fn a_failed_snapshot_is_an_answer_too() {
    let (mut db, mut rt) = Runtime::channel(config()).unwrap();
    db.save().unwrap();
    assert!(matches!(rt.run(&mut db), Step::Backup { .. }));
    let done = rt.finish(Err(DbError::from(rusqlite::Error::InvalidQuery))).unwrap();
    assert_eq!(0, done.ticket);
    assert!(matches!(done.outcome, Err(DbError::Sqlite(rusqlite::Error::InvalidQuery))));
    assert!(matches!(rt.run(&mut db), Step::Idle));
}

#[test]
fn a_job_out_of_turn_is_handed_back() {
    let (mut db, mut rt) = Runtime::channel(config()).unwrap();
    db.spawn(execute("CREATE TABLE a (x INTEGER)")).unwrap();
    db.spawn(execute("CREATE TABLE b (x INTEGER)")).unwrap();
    let first = db.take().unwrap();
    let second = db.take().unwrap();
    assert!(db.take().is_none());
    assert_eq!(0, first.ticket);
    assert_eq!(1, second.ticket);
    let second = match rt.execute(second) {
        Step::Refused(job) => job,
        other => panic!("unexpected step: {:?}", other),
    };
    assert!(matches!(rt.execute(first), Step::Done(_)));
    assert!(matches!(rt.execute(second), Step::Done(_)));
}

#[test]
fn answers_are_read_by_their_kind() {
    assert!(matches!(MovieTable::done(Ok(Outcome::Changed(3))), Ok(())));
    assert!(matches!(MovieTable::done(Ok(Outcome::Saved)), Err(DbError::Database(_))));
    assert!(matches!(MovieTable::found(Ok(Outcome::Changed(1))), Err(DbError::Database(_))));
    assert!(matches!(MovieTable::listed(Ok(Outcome::Saved)), Err(DbError::Database(_))));
    let two = vec![test_movie(), test_movie()];
    assert!(matches!(MovieTable::found(Ok(Outcome::Movies(two))), Ok(None)));
    let one = vec![test_movie()];
    assert_eq!(Some(test_movie()), MovieTable::found(Ok(Outcome::Movies(one))).unwrap());
    let err = MovieTable::found(Err(DbError::Sqlite(rusqlite::Error::QueryReturnedNoRows)));
    assert!(matches!(err, Err(DbError::Sqlite(rusqlite::Error::QueryReturnedNoRows))));
    assert!(matches!(Outcome::changed(Ok(4)), Ok(Outcome::Changed(4))));
    assert!(matches!(
        Outcome::movies(Err(rusqlite::Error::InvalidQuery)),
        Err(DbError::Sqlite(rusqlite::Error::InvalidQuery))
    ));
    assert_eq!("Custom Error", DbError::Database("x".to_owned()).message());
    assert!(matches!(DbError::from(rusqlite::Error::InvalidQuery), DbError::Sqlite(_)));
}
