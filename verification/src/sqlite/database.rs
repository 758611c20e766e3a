//! The serialized executor: callers submit operations, which wait in one
//! queue; the owner of the connection takes them out in the order of their
//! arrival and runs each to completion before it takes the next.
use super::driver;
use crate::config::DatabaseConfig;
use crate::model::error::DbError;
use crate::model::movie::Movie;
use rusqlite::Connection;
use std::collections::VecDeque;
use vstd::prelude::*;

verus! {

/// The number of pages that one step of a snapshot copies.
pub const SNAPSHOT_PAGES: i32 = 5;

/// The pause between two steps of a snapshot, in milliseconds.
pub const SNAPSHOT_PAUSE_MS: u64 = 250;

/// A unit of work on the connection.
#[derive(Debug)]
pub enum Operation {
    /// A statement without parameters. Its answer is the number of rows it
    /// changed.
    Execute { sql: String },
    /// A statement that stores `movie`: its parameters are the fields of
    /// the movie after `id`, in their order. Its answer is the number of
    /// rows it changed.
    Insert { sql: String, movie: Movie },
    /// A query for movies, with `id` as its one parameter where it is there.
    /// Its answer is the rows.
    Select { sql: String, id: Option<i32> },
    /// A full copy of the database into `file`, made in steps of
    /// `pages_per_step` pages with a pause of `pause_ms` milliseconds
    /// between them.
    Snapshot { file: String, pages_per_step: i32, pause_ms: u64 },
}

/// The answer to an operation that succeeded.
#[derive(Debug)]
pub enum Outcome {
    /// The number of rows that were changed, inserted or deleted.
    Changed(usize),
    /// The rows of a query.
    Movies(Vec<Movie>),
    /// The snapshot is complete.
    Saved,
}

impl Outcome {
    /// Whether this is the kind of answer that `operation` has.
    pub open spec fn answers(self, operation: Operation) -> bool {
        match operation {
            Operation::Execute { .. } => self is Changed,
            Operation::Insert { .. } => self is Changed,
            Operation::Select { .. } => self is Movies,
            Operation::Snapshot { .. } => self is Saved,
        }
    }

    /// The answer to a statement, from what the database returned.
    pub fn changed(raw: Result<usize, rusqlite::Error>) -> (outcome: Result<Outcome, DbError>)
        ensures
            match raw {
                Ok(n) => outcome == Ok::<Outcome, DbError>(Outcome::Changed(n)),
                Err(e) => outcome == Err::<Outcome, DbError>(DbError::Sqlite(e)),
            },
    {
        match raw {
            Ok(n) => Ok(Outcome::Changed(n)),
            Err(e) => Err(DbError::Sqlite(e)),
        }
    }

    /// The answer to a query, from what the database returned.
    pub fn movies(raw: Result<Vec<Movie>, rusqlite::Error>) -> (outcome: Result<Outcome, DbError>)
        ensures
            match raw {
                Ok(rows) => outcome == Ok::<Outcome, DbError>(Outcome::Movies(rows)),
                Err(e) => outcome == Err::<Outcome, DbError>(DbError::Sqlite(e)),
            },
    {
        match raw {
            Ok(rows) => Ok(Outcome::Movies(rows)),
            Err(e) => Err(DbError::Sqlite(e)),
        }
    }
}

/// An operation in the queue. Its ticket tells its place in the order of
/// arrival.
#[derive(Debug)]
pub struct Job {
    pub ticket: u64,
    pub operation: Operation,
}

/// The result of a job, for the caller who holds its ticket.
#[derive(Debug)]
pub struct Completion {
    pub ticket: u64,
    pub outcome: Result<Outcome, DbError>,
}

/// What one turn of the owner came to.
#[derive(Debug)]
pub enum Step {
    /// No job is waiting.
    Idle,
    /// A snapshot is being made; nothing else runs until it is reported
    /// complete.
    Busy,
    /// A job was run to completion.
    Done(Completion),
    /// The job is a snapshot. The driver makes the copy from the owner's
    /// connection and reports how it ended.
    Backup { ticket: u64, file: String, pages_per_step: i32, pause_ms: u64 },
    /// The job was not run, and is handed back: it is not the one whose turn
    /// it is, or a snapshot is being made.
    Refused(Job),
}

/// The queue as a mathematical value.
pub struct QueueView {
    /// The jobs that wait, the oldest first.
    pub pending: Seq<Job>,
    /// The number of tickets handed out so far.
    pub issued: nat,
}

impl QueueView {
    /// A queue that has seen no job.
    pub open spec fn empty() -> QueueView {
        QueueView { pending: Seq::empty(), issued: 0 }
    }

    /// Whether there is a ticket left to hand out.
    pub open spec fn has_ticket(self) -> bool {
        self.issued < u64::MAX
    }

    /// The queue after `operation` was submitted: it waits behind all that
    /// is there, under the next ticket.
    pub open spec fn submit(self, operation: Operation) -> QueueView {
        if self.has_ticket() {
            QueueView {
                pending: self.pending.push(Job { ticket: self.issued as u64, operation }),
                issued: self.issued + 1,
            }
        } else {
            self
        }
    }

    /// The queue without its oldest job.
    pub open spec fn rest(self) -> QueueView {
        QueueView { pending: self.pending.drop_first(), ..self }
    }
}

/// The owner of the connection as a mathematical value.
pub struct OwnerView {
    /// The jobs that were run on the connection, in the order in which they
    /// ran. Each has been answered.
    pub applied: Seq<Job>,
    /// The snapshot that is being made, if one is.
    pub in_flight: Option<Job>,
    /// The ticket of the job whose turn it is.
    pub turn: nat,
}

impl OwnerView {
    /// An owner that has run nothing.
    pub open spec fn fresh() -> OwnerView {
        OwnerView { applied: Seq::empty(), in_flight: None, turn: 0 }
    }

    /// Whether the owner takes `job` in: no snapshot is being made, and it
    /// is the turn of `job`.
    pub open spec fn admits(self, job: Job) -> bool {
        self.in_flight is None && job.ticket == self.turn && self.turn < u64::MAX
    }

    /// The owner after it was handed `job`. A snapshot is from then on being
    /// made, any other job is run to completion; a job that is not admitted
    /// changes nothing.
    pub open spec fn accept(self, job: Job) -> OwnerView {
        if !self.admits(job) {
            self
        } else if job.operation is Snapshot {
            OwnerView { in_flight: Some(job), turn: self.turn + 1, ..self }
        } else {
            OwnerView { applied: self.applied.push(job), turn: self.turn + 1, ..self }
        }
    }

    /// The owner after the snapshot that was being made is complete: it
    /// counts as run, and nothing is being made any more.
    pub open spec fn finish(self) -> OwnerView {
        match self.in_flight {
            Some(job) => OwnerView { applied: self.applied.push(job), in_flight: None, ..self },
            None => self,
        }
    }
}

/// A move of the executor as a whole.
pub enum Move {
    /// A caller submits an operation.
    Submit(Operation),
    /// The owner takes its turn.
    Run,
    /// The snapshot that was being made is reported complete.
    Finish,
}

/// The executor as a whole: the queue and the owner of the connection.
pub struct Executor {
    pub queue: QueueView,
    pub owner: OwnerView,
}

impl Executor {
    /// An executor that has seen no job.
    pub open spec fn idle() -> Executor {
        Executor { queue: QueueView::empty(), owner: OwnerView::fresh() }
    }

    /// The executor after a caller submitted `operation`.
    pub open spec fn submit(self, operation: Operation) -> Executor {
        Executor { queue: self.queue.submit(operation), ..self }
    }

    /// The executor after a turn of the owner. While a snapshot is being
    /// made, or with nothing waiting, the turn changes nothing. Otherwise
    /// the oldest job leaves the queue and is handed to the owner.
    pub open spec fn run(self) -> Executor {
        if self.owner.in_flight is Some || self.queue.pending.len() == 0 {
            self
        } else {
            Executor {
                queue: self.queue.rest(),
                owner: self.owner.accept(self.queue.pending[0]),
            }
        }
    }

    /// The executor after the snapshot that was being made is complete.
    pub open spec fn finish(self) -> Executor {
        Executor { owner: self.owner.finish(), ..self }
    }

    /// The executor after the move `m`.
    pub open spec fn step(self, m: Move) -> Executor {
        match m {
            Move::Submit(operation) => self.submit(operation),
            Move::Run => self.run(),
            Move::Finish => self.finish(),
        }
    }

    /// The executor after the moves of `moves`, in order.
    pub open spec fn after(self, moves: Seq<Move>) -> Executor
        decreases moves.len(),
    {
        if moves.len() == 0 {
            self
        } else {
            self.after(moves.drop_last()).step(moves.last())
        }
    }

    /// The snapshot that is being made, as a sequence of one or no job.
    pub open spec fn running(self) -> Seq<Job> {
        match self.owner.in_flight {
            Some(job) => seq![job],
            None => Seq::empty(),
        }
    }

    /// Every job that the executor has accepted: those that were run, the
    /// one that is being run, and those that wait.
    pub open spec fn jobs(self) -> Seq<Job> {
        self.owner.applied + self.running() + self.queue.pending
    }
}

/// The operations that callers submit during `moves`, in the order of their
/// arrival.
pub open spec fn operations(moves: Seq<Move>) -> Seq<Operation>
    decreases moves.len(),
{
    if moves.len() == 0 {
        Seq::empty()
    } else {
        match moves.last() {
            Move::Submit(operation) => operations(moves.drop_last()).push(operation),
            _ => operations(moves.drop_last()),
        }
    }
}

/// The handle through which jobs are submitted.
pub struct AsyncSqlite {
    queue: VecDeque<Job>,
    issued: u64,
    config: DatabaseConfig,
}

impl View for AsyncSqlite {
    type V = QueueView;

    closed spec fn view(&self) -> QueueView {
        QueueView { pending: self.queue@, issued: self.issued as nat }
    }
}

impl AsyncSqlite {
    /// The settings this handle was made with.
    pub closed spec fn config(&self) -> DatabaseConfig {
        self.config
    }

    /// Submits `operation`: it is put behind all jobs that wait, and the
    /// ticket under which its answer will come is returned. `None`, with
    /// nothing submitted, once every ticket has been handed out.
    pub fn spawn(&mut self, operation: Operation) -> (ticket: Option<u64>)
        ensures
            final(self)@ == old(self)@.submit(operation),
            final(self).config() == old(self).config(),
            ticket == if old(self)@.has_ticket() {
                Some(old(self)@.issued as u64)
            } else {
                None
            },
    {
        if self.issued == u64::MAX {
            return None;
        }
        let ticket: u64 = self.issued;
        self.queue.push_back(Job { ticket, operation });
        self.issued = ticket + 1;
        Some(ticket)
    }

    /// Submits a snapshot of the database into the file that the settings
    /// name. It is a job like any other, so it runs after all that was
    /// submitted before it and before all that is submitted after it.
    pub fn save(&mut self) -> (ticket: Option<u64>)
        ensures
            final(self)@ == old(self)@.submit(
                Operation::Snapshot {
                    file: old(self).config().name,
                    pages_per_step: SNAPSHOT_PAGES,
                    pause_ms: SNAPSHOT_PAUSE_MS,
                },
            ),
            final(self).config() == old(self).config(),
            ticket == if old(self)@.has_ticket() {
                Some(old(self)@.issued as u64)
            } else {
                None
            },
    {
        let file = self.config.name.clone();
        self.spawn(
            Operation::Snapshot {
                file,
                pages_per_step: SNAPSHOT_PAGES,
                pause_ms: SNAPSHOT_PAUSE_MS,
            },
        )
    }

    /// Takes the oldest job out of the queue, for the owner to run. `None`
    /// where nothing waits.
    pub fn take(&mut self) -> (job: Option<Job>)
        ensures
            final(self).config() == old(self).config(),
            match job {
                Some(j) => old(self)@.pending.len() > 0 && j == old(self)@.pending[0]
                    && final(self)@ == old(self)@.rest(),
                None => old(self)@.pending.len() == 0 && final(self)@ == old(self)@,
            },
    {
        let job = self.queue.pop_front();
        assert(job is Some ==> self.queue@ =~= old(self)@.pending.drop_first());
        job
    }

    /// The number of jobs that wait.
    pub fn pending(&self) -> (n: usize)
        ensures
            n == self@.pending.len(),
    {
        self.queue.len()
    }

    /// The name of the file that a snapshot goes to.
    pub fn file(&self) -> (name: &str)
        ensures
            name@ == self.config().name@,
    {
        self.config.name.as_str()
    }
}

/// The owner of the connection: the only one that ever touches it.
pub struct Runtime {
    conn: Connection,
    in_flight: Option<Job>,
    turn: u64,
    applied: Ghost<Seq<Job>>,
}

impl View for Runtime {
    type V = OwnerView;

    closed spec fn view(&self) -> OwnerView {
        OwnerView { applied: self.applied@, in_flight: self.in_flight, turn: self.turn as nat }
    }
}

impl Runtime {
    /// The connection that this owner holds.
    pub closed spec fn conn(&self) -> Connection {
        self.conn
    }

    /// Opens a database in memory and returns the handle through which jobs
    /// are submitted together with the owner of the connection. Nothing has
    /// been submitted and nothing run.
    pub fn channel(config: DatabaseConfig) -> (made: Result<(AsyncSqlite, Runtime), DbError>)
        ensures
            match made {
                Ok((db, rt)) => (Executor { queue: db@, owner: rt@ }) == Executor::idle()
                    && db.config() == config,
                Err(e) => e is Sqlite,
            },
    {
        match driver::open_in_memory() {
            Ok(conn) => Ok(
                (
                    AsyncSqlite { queue: VecDeque::new(), issued: 0, config },
                    Runtime { conn, in_flight: None, turn: 0, applied: Ghost(Seq::empty()) },
                ),
            ),
            Err(e) => Err(DbError::Sqlite(e)),
        }
    }

    /// Runs `job` on the connection, to completion, and returns its answer
    /// for the caller who holds its ticket. An error of the database is part
    /// of the answer: the owner goes on with the next job. A snapshot is
    /// not run here: it is handed to the driver as `Backup`, and until
    /// `finish` is called no job is taken in. A job that is not admitted is
    /// handed back.
    pub fn execute(&mut self, job: Job) -> (step: Step)
        ensures
            final(self)@ == old(self)@.accept(job),
            final(self).conn() == old(self).conn(),
            match step {
                Step::Refused(back) => !old(self)@.admits(job) && back == job,
                Step::Done(done) => {
                    &&& old(self)@.admits(job)
                    &&& !(job.operation is Snapshot)
                    &&& done.ticket == job.ticket
                    &&& done.outcome matches Ok(answer) ==> answer.answers(job.operation)
                    &&& done.outcome matches Err(e) ==> e is Sqlite
                },
                Step::Backup { ticket, file, pages_per_step, pause_ms } => {
                    &&& old(self)@.admits(job)
                    &&& job.ticket == ticket
                    &&& job.operation == (Operation::Snapshot { file, pages_per_step, pause_ms })
                },
                _ => false,
            },
    {
        if self.in_flight.is_some() || job.ticket != self.turn || self.turn == u64::MAX {
            return Step::Refused(job);
        }
        self.turn = self.turn + 1;
        match &job.operation {
            Operation::Snapshot { file, pages_per_step, pause_ms } => {
                let step = Step::Backup {
                    ticket: job.ticket,
                    file: file.clone(),
                    pages_per_step: *pages_per_step,
                    pause_ms: *pause_ms,
                };
                self.in_flight = Some(job);
                step
            },
            Operation::Execute { sql } => {
                let outcome = Outcome::changed(driver::execute(&self.conn, sql.as_str()));
                self.applied = Ghost(self.applied@.push(job));
                Step::Done(Completion { ticket: job.ticket, outcome })
            },
            Operation::Insert { sql, movie } => {
                let outcome = Outcome::changed(
                    driver::insert_movie(&self.conn, sql.as_str(), movie),
                );
                self.applied = Ghost(self.applied@.push(job));
                Step::Done(Completion { ticket: job.ticket, outcome })
            },
            Operation::Select { sql, id } => {
                let outcome = Outcome::movies(
                    driver::select_movies(&self.conn, sql.as_str(), *id),
                );
                self.applied = Ghost(self.applied@.push(job));
                Step::Done(Completion { ticket: job.ticket, outcome })
            },
        }
    }

    /// One turn of the owner: the oldest job that waits in `db` is taken out
    /// and executed. Nothing is taken out while a snapshot is being made.
    pub fn run(&mut self, db: &mut AsyncSqlite) -> (step: Step)
        ensures
            (Executor { queue: final(db)@, owner: final(self)@ }) == (Executor {
                queue: old(db)@,
                owner: old(self)@,
            }).run(),
            final(db).config() == old(db).config(),
            final(self).conn() == old(self).conn(),
            match step {
                Step::Busy => old(self)@.in_flight is Some,
                Step::Idle => old(self)@.in_flight is None && old(db)@.pending.len() == 0,
                Step::Refused(back) => {
                    &&& old(self)@.in_flight is None
                    &&& old(db)@.pending.len() > 0
                    &&& !old(self)@.admits(old(db)@.pending[0])
                    &&& back == old(db)@.pending[0]
                },
                Step::Done(done) => {
                    &&& old(self)@.in_flight is None
                    &&& old(db)@.pending.len() > 0
                    &&& old(self)@.admits(old(db)@.pending[0])
                    &&& !(old(db)@.pending[0].operation is Snapshot)
                    &&& done.ticket == old(db)@.pending[0].ticket
                    &&& done.outcome matches Ok(answer) ==> answer.answers(
                        old(db)@.pending[0].operation,
                    )
                    &&& done.outcome matches Err(e) ==> e is Sqlite
                },
                Step::Backup { ticket, file, pages_per_step, pause_ms } => {
                    &&& old(self)@.in_flight is None
                    &&& old(db)@.pending.len() > 0
                    &&& old(self)@.admits(old(db)@.pending[0])
                    &&& old(db)@.pending[0].ticket == ticket
                    &&& old(db)@.pending[0].operation == (Operation::Snapshot {
                        file,
                        pages_per_step,
                        pause_ms,
                    })
                },
            },
    {
        if self.in_flight.is_some() {
            return Step::Busy;
        }
        match db.take() {
            None => Step::Idle,
            Some(job) => self.execute(job),
        }
    }

    /// Takes in how the snapshot that was being made has ended, and returns
    /// its answer for the caller who holds its ticket. From then on the
    /// owner takes jobs in again. `None`, with nothing changed, where no
    /// snapshot was being made.
    pub fn finish(&mut self, ended: Result<(), DbError>) -> (done: Option<Completion>)
        ensures
            final(self)@ == old(self)@.finish(),
            final(self).conn() == old(self).conn(),
            match old(self)@.in_flight {
                None => done is None,
                Some(job) => done matches Some(c) && c.ticket == job.ticket && (match ended {
                    Ok(_) => c.outcome == Ok::<Outcome, DbError>(Outcome::Saved),
                    Err(e) => c.outcome == Err::<Outcome, DbError>(e),
                }),
            },
    {
        match self.in_flight.take() {
            None => None,
            Some(job) => {
                let ticket: u64 = job.ticket;
                self.applied = Ghost(self.applied@.push(job));
                let outcome = match ended {
                    Ok(_) => Ok(Outcome::Saved),
                    Err(e) => Err(e),
                };
                Some(Completion { ticket, outcome })
            },
        }
    }

    /// The connection, for the driver to copy a snapshot from. It is not to
    /// be used for anything else: every other use of the connection is a
    /// job.
    pub fn connection(&self) -> (conn: &Connection)
        ensures
            *conn == self.conn(),
    {
        &self.conn
    }

    /// Whether a snapshot is being made.
    pub fn is_busy(&self) -> (busy: bool)
        ensures
            busy == self@.in_flight is Some,
    {
        self.in_flight.is_some()
    }
}

/// The operations that are accepted during `moves`, in the order of their
/// arrival: all that are submitted while a ticket is left.
pub open spec fn accepted(moves: Seq<Move>) -> Seq<Operation> {
    if operations(moves).len() <= u64::MAX {
        operations(moves)
    } else {
        operations(moves).take(u64::MAX as int)
    }
}

/// The tickets of the jobs that wait go on from the one whose turn it is,
/// without a gap.
pub open spec fn in_step(e: Executor) -> bool {
    &&& e.owner.turn == e.owner.applied.len() + e.running().len()
    &&& e.queue.issued == e.owner.turn + e.queue.pending.len()
    &&& e.queue.issued <= u64::MAX
    &&& forall|i: int|
        0 <= i < e.queue.pending.len() ==> (#[trigger] e.queue.pending[i]).ticket == e.owner.turn
            + i
}

/// Whatever callers and owner do, queue and owner stay in step: the owner
/// is never handed a job out of turn.
pub proof fn lemma_in_step(moves: Seq<Move>)
    ensures
        in_step(Executor::idle().after(moves)),
    decreases moves.len(),
{
    if moves.len() > 0 {
        lemma_in_step(moves.drop_last());
        let before = Executor::idle().after(moves.drop_last());
        let now = before.step(moves.last());
        match moves.last() {
            Move::Run => {
                if before.owner.in_flight is None && before.queue.pending.len() > 0 {
                    assert(before.owner.admits(before.queue.pending[0]));
                    assert forall|i: int| 0 <= i < now.queue.pending.len() implies (
                    #[trigger] now.queue.pending[i]).ticket == now.owner.turn + i by {
                        assert(now.queue.pending[i] == before.queue.pending[i + 1]);
                    }
                }
            },
            _ => {},
        }
    }
}

/// Jobs are neither lost nor run twice nor reordered: whatever callers and
/// owner do in whatever interleaving, the jobs that were run, the one that is
/// being run and those that wait are, in this order, the accepted operations
/// in the order in which they were submitted, under the tickets 0, 1, 2 and
/// so on. So what was run on the connection is always a start of that one
/// sequence.
pub proof fn law_jobs_run_in_arrival_order(moves: Seq<Move>)
    ensures
        Executor::idle().after(moves).jobs().len() == accepted(moves).len(),
        Executor::idle().after(moves).queue.issued == accepted(moves).len(),
        forall|i: int|
            0 <= i < accepted(moves).len() ==> {
                &&& (#[trigger] Executor::idle().after(moves).jobs()[i]).ticket == i
                &&& Executor::idle().after(moves).jobs()[i].operation == accepted(moves)[i]
            },
    decreases moves.len(),
{
    if moves.len() > 0 {
        let earlier = moves.drop_last();
        law_jobs_run_in_arrival_order(earlier);
        lemma_in_step(earlier);
        let before = Executor::idle().after(earlier);
        let now = before.step(moves.last());
        match moves.last() {
            Move::Submit(operation) => {
                if before.queue.has_ticket() {
                    assert(now.jobs() =~= before.jobs().push(
                        Job { ticket: before.queue.issued as u64, operation },
                    ));
                    assert(accepted(moves) =~= accepted(earlier).push(operation));
                } else {
                    assert(accepted(moves) =~= accepted(earlier));
                }
            },
            Move::Run => {
                if before.owner.in_flight is None && before.queue.pending.len() > 0 {
                    assert(before.owner.admits(before.queue.pending[0]));
                }
                assert(now.jobs() =~= before.jobs());
            },
            Move::Finish => {
                assert(now.jobs() =~= before.jobs());
            },
        }
    }
}

/// Once nothing waits and nothing is being run, what was run on the
/// connection is every accepted operation, each once, one after the other
/// in the order of arrival: the state of the database is that of a
/// sequential run.
pub proof fn law_drained_is_sequential(moves: Seq<Move>)
    requires
        Executor::idle().after(moves).queue.pending.len() == 0,
        Executor::idle().after(moves).owner.in_flight is None,
    ensures
        Executor::idle().after(moves).owner.applied.len() == accepted(moves).len(),
        forall|i: int|
            0 <= i < accepted(moves).len() ==> {
                &&& (#[trigger] Executor::idle().after(moves).owner.applied[i]).ticket == i
                &&& Executor::idle().after(moves).owner.applied[i].operation == accepted(
                    moves,
                )[i]
            },
{
    law_jobs_run_in_arrival_order(moves);
    let e = Executor::idle().after(moves);
    assert(e.jobs() =~= e.owner.applied);
}

/// A snapshot is serialized with every other job. While it is being made,
/// what was run on the connection is exactly the jobs with a smaller
/// ticket, each of them answered, and it stays so until the snapshot is
/// reported complete: a turn of the owner runs nothing, and a submission
/// only waits. So the copy holds every write that was answered before it
/// began and none that was not.
pub proof fn law_snapshot_is_serialized(moves: Seq<Move>)
    requires
        Executor::idle().after(moves).owner.in_flight is Some,
    ensures
        Executor::idle().after(moves).owner.in_flight->0.operation is Snapshot,
        Executor::idle().after(moves).owner.applied.len() == Executor::idle().after(
            moves,
        ).owner.in_flight->0.ticket,
        forall|i: int|
            0 <= i < Executor::idle().after(moves).owner.applied.len() ==> {
                &&& (#[trigger] Executor::idle().after(moves).owner.applied[i]).ticket == i
                &&& Executor::idle().after(moves).owner.applied[i].operation == accepted(
                    moves,
                )[i]
            },
        Executor::idle().after(moves).run() == Executor::idle().after(moves),
        forall|operation: Operation| #[trigger]
            Executor::idle().after(moves).submit(operation).owner == Executor::idle().after(
                moves,
            ).owner,
{
    law_jobs_run_in_arrival_order(moves);
    lemma_in_flight_is_snapshot(moves);
    let e = Executor::idle().after(moves);
    let k = e.owner.applied.len() as int;
    assert(e.jobs()[k] == e.owner.in_flight->0);
    assert forall|i: int| 0 <= i < k implies {
        &&& (#[trigger] e.owner.applied[i]).ticket == i
        &&& e.owner.applied[i].operation == accepted(moves)[i]
    } by {
        assert(e.jobs()[i] == e.owner.applied[i]);
    }
}

/// Only a snapshot is ever being made.
proof fn lemma_in_flight_is_snapshot(moves: Seq<Move>)
    ensures
        Executor::idle().after(moves).owner.in_flight matches Some(job)
            ==> job.operation is Snapshot,
    decreases moves.len(),
{
    if moves.len() > 0 {
        lemma_in_flight_is_snapshot(moves.drop_last());
    }
}

} // verus!
