//! The write-back session: the order in which a write or an end-to-end
//! table creation asks for a connection, checks and narrows it, opens a
//! transaction, runs its statements and commits. The session decides; its
//! caller performs each action and reports what came of it.

use vstd::prelude::*;

use crate::data_components::postgres::Error;
use crate::dbconnection::Backend;

verus! {

/// What a session is for.
#[derive(Clone, Copy, Debug, PartialEq, Eq, Structural)]
pub enum Entry {
    /// Creating the table from end to end, pool included. The table is not
    /// expected to exist, so its existence is not checked.
    Create,
    /// Any other operation on the table, which must exist.
    Write,
}

/// How far a session has come: what it is waiting for.
#[derive(Clone, Copy, Debug, PartialEq, Eq, Structural)]
pub enum Stage {
    BuildingPool,
    Connecting,
    CheckingExistence,
    Beginning,
    Running,
    Committing,
    /// The session is over, in success or in failure; it waits for nothing.
    Finished,
}

/// What the caller reports: the outcome of the action it was asked for. A
/// failure carries the backend's own text.
#[derive(Debug, PartialEq, Eq)]
pub enum Event {
    PoolBuilt(Result<(), String>),
    /// A connection was asked of the pool; on success, the adapter it is.
    Connected(Result<Backend, String>),
    /// The existence check ran; on success, whether it found the table.
    ExistenceChecked(Result<bool, String>),
    TransactionBegun(Result<(), String>),
    /// The next statement ran inside the transaction; on success, the
    /// number of rows it reports.
    StatementRun(Result<u64, Error>),
    Committed(Result<(), String>),
}

impl Event {
    /// The report of a statement that counts no rows: on success it reports
    /// zero rows.
    pub fn done(outcome: Result<(), Error>) -> (event: Event)
        ensures
            outcome is Ok ==> event == Event::StatementRun(Ok(0)),
            outcome matches Err(error) ==> event == Event::StatementRun(Err(error)),
    {
        match outcome {
            Ok(_) => Event::StatementRun(Ok(0)),
            Err(error) => Event::StatementRun(Err(error)),
        }
    }

    /// The report of a statement that counts the rows it changed.
    pub fn counted(outcome: Result<u64, Error>) -> (event: Event)
        ensures
            event == Event::StatementRun(outcome),
    {
        Event::StatementRun(outcome)
    }
}

/// What the session asks of its caller next.
#[derive(Debug, PartialEq, Eq)]
pub enum Action {
    BuildPool,
    Connect,
    CheckExistence,
    BeginTransaction,
    /// Run the next statement, in the caller's order, inside the transaction.
    RunStatement,
    Commit,
    /// Nothing more: the session is over with this result. On success it is
    /// the number of rows that the last statement reported, and zero where
    /// there was no statement.
    Finish(Result<u64, Error>),
}

/// One run of the write-back path over one table.
#[derive(Clone, Debug, PartialEq, Eq)]
pub struct Session {
    pub entry: Entry,
    pub stage: Stage,
    pub table_name: String,
    /// The statements that are still to run.
    pub pending: usize,
    /// The rows that the last statement reported, once one has run.
    pub rows: u64,
}

impl Session {
    /// The session moved to `stage`.
    pub open spec fn at(self, stage: Stage) -> Session {
        Session { stage, ..self }
    }

    /// The session ended by `error`.
    pub open spec fn failed(self, error: Error) -> (Session, Action) {
        (self.at(Stage::Finished), Action::Finish(Err(error)))
    }

    /// The session is at a stage that belongs to what it is for: a creation
    /// checks no existence, a write builds no pool, and a session that runs
    /// its statements has one to run.
    pub open spec fn well_formed(self) -> bool {
        &&& self.entry == Entry::Create ==> self.stage != Stage::CheckingExistence
        &&& self.entry == Entry::Write ==> self.stage != Stage::BuildingPool
        &&& self.stage == Stage::Running ==> self.pending > 0
    }

    /// The session of an end-to-end creation of `table_name` and its first
    /// action. Its one statement is the `CREATE TABLE`.
    pub open spec fn create_start(table_name: String) -> (Session, Action) {
        (
            Session {
                entry: Entry::Create,
                stage: Stage::BuildingPool,
                table_name,
                pending: 1,
                rows: 0,
            },
            Action::BuildPool,
        )
    }

    /// The session of a write of `statements` statements to `table_name`
    /// and its first action.
    pub open spec fn write_start(table_name: String, statements: usize) -> (Session, Action) {
        (
            Session {
                entry: Entry::Write,
                stage: Stage::Connecting,
                table_name,
                pending: statements,
                rows: 0,
            },
            Action::Connect,
        )
    }

    /// `event` reports on the action that the session is waiting for.
    pub open spec fn expects(self, event: Event) -> bool {
        match (self.stage, event) {
            (Stage::BuildingPool, Event::PoolBuilt(_)) => true,
            (Stage::Connecting, Event::Connected(_)) => true,
            (Stage::CheckingExistence, Event::ExistenceChecked(_)) => true,
            (Stage::Beginning, Event::TransactionBegun(_)) => true,
            (Stage::Running, Event::StatementRun(_)) => true,
            (Stage::Committing, Event::Committed(_)) => true,
            _ => false,
        }
    }

    /// The session after `event`, and the action it asks for next.
    ///
    /// Every failure ends the session with the error of its step. A
    /// connection that is not the network-protocol adapter ends it as well,
    /// and so does, in a write, an existence check that answers no: that
    /// alone is table absence. A check that failed is a connection error
    /// and carries the backend's text.
    /// The statements run one after the other as long as each succeeds, and
    /// the commit is asked for when none is left.
    pub open spec fn next(self, event: Event) -> (Session, Action) {
        match event {
            Event::PoolBuilt(Ok(_)) => (self.at(Stage::Connecting), Action::Connect),
            Event::PoolBuilt(Err(source)) => self.failed(
                Error::UnableToCreatePostgresConnectionPool { source },
            ),
            Event::Connected(Ok(backend)) => if backend != Backend::Postgres {
                self.failed(Error::UnableToDowncastDbConnection {  })
            } else if self.entry == Entry::Write {
                (self.at(Stage::CheckingExistence), Action::CheckExistence)
            } else {
                (self.at(Stage::Beginning), Action::BeginTransaction)
            },
            Event::Connected(Err(source)) => self.failed(Error::DbConnectionError { source }),
            Event::ExistenceChecked(Ok(found)) => if found {
                (self.at(Stage::Beginning), Action::BeginTransaction)
            } else {
                self.failed(Error::TableDoesntExist { table_name: self.table_name })
            },
            Event::ExistenceChecked(Err(source)) => self.failed(
                Error::DbConnectionError { source },
            ),
            Event::TransactionBegun(Ok(_)) => if self.pending == 0 {
                (self.at(Stage::Committing), Action::Commit)
            } else {
                (self.at(Stage::Running), Action::RunStatement)
            },
            Event::TransactionBegun(Err(source)) => self.failed(
                Error::UnableToBeginTransaction { source },
            ),
            Event::StatementRun(Ok(rows)) => if self.pending <= 1 {
                (Session { stage: Stage::Committing, pending: 0, rows, ..self }, Action::Commit)
            } else {
                (
                    Session { pending: (self.pending - 1) as usize, rows, ..self },
                    Action::RunStatement,
                )
            },
            Event::StatementRun(Err(error)) => self.failed(error),
            Event::Committed(Ok(_)) => (self.at(Stage::Finished), Action::Finish(Ok(self.rows))),
            Event::Committed(Err(source)) => self.failed(
                Error::UnableToCommitPostgresTransaction { source },
            ),
        }
    }

    /// The caller may report `events` in this order: each one reports on
    /// the action that the session was then waiting for.
    pub open spec fn accepts(self, events: Seq<Event>) -> bool
        decreases events.len(),
    {
        events.len() > 0 ==> self.expects(events[0]) && self.next(events[0]).0.accepts(
            events.drop_first(),
        )
    }

    /// The actions that the session asks for as `events` are reported, one
    /// for each event.
    pub open spec fn actions(self, events: Seq<Event>) -> Seq<Action>
        decreases events.len(),
    {
        if events.len() == 0 {
            Seq::<Action>::empty()
        } else {
            seq![self.next(events[0]).1] + self.next(events[0]).0.actions(events.drop_first())
        }
    }

    /// Opens the session of an end-to-end creation of `table_name`.
    pub fn create(table_name: String) -> (start: (Session, Action))
        ensures
            start == Session::create_start(table_name),
            start.0.well_formed(),
    {
        (
            Session {
                entry: Entry::Create,
                stage: Stage::BuildingPool,
                table_name,
                pending: 1,
                rows: 0,
            },
            Action::BuildPool,
        )
    }

    /// Opens the session of a write of `statements` statements to
    /// `table_name`.
    pub fn write(table_name: String, statements: usize) -> (start: (Session, Action))
        ensures
            start == Session::write_start(table_name, statements),
            start.0.well_formed(),
    {
        (
            Session {
                entry: Entry::Write,
                stage: Stage::Connecting,
                table_name,
                pending: statements,
                rows: 0,
            },
            Action::Connect,
        )
    }

    /// Whether `event` reports on the action that the session is waiting for.
    pub fn awaits(&self, event: &Event) -> (expected: bool)
        ensures
            expected == self.expects(*event),
    {
        match (self.stage, event) {
            (Stage::BuildingPool, Event::PoolBuilt(_)) => true,
            (Stage::Connecting, Event::Connected(_)) => true,
            (Stage::CheckingExistence, Event::ExistenceChecked(_)) => true,
            (Stage::Beginning, Event::TransactionBegun(_)) => true,
            (Stage::Running, Event::StatementRun(_)) => true,
            (Stage::Committing, Event::Committed(_)) => true,
            _ => false,
        }
    }

    /// Whether the session is over.
    pub fn is_finished(&self) -> (finished: bool)
        ensures
            finished == (self.stage == Stage::Finished),
    {
        match self.stage {
            Stage::Finished => true,
            _ => false,
        }
    }

    /// Takes the report of the action that the session was waiting for, and
    /// says what to do next.
    pub fn step(self, event: Event) -> (step: (Session, Action))
        requires
            self.expects(event),
        ensures
            step == self.next(event),
            self.well_formed() ==> step.0.well_formed(),
    {
        match event {
            Event::PoolBuilt(Ok(_)) => (self.moved(Stage::Connecting), Action::Connect),
            Event::PoolBuilt(Err(source)) => self.fail(
                Error::UnableToCreatePostgresConnectionPool { source },
            ),
            Event::Connected(Ok(backend)) => {
                if backend != Backend::Postgres {
                    self.fail(Error::UnableToDowncastDbConnection {  })
                } else if self.entry == Entry::Write {
                    (self.moved(Stage::CheckingExistence), Action::CheckExistence)
                } else {
                    (self.moved(Stage::Beginning), Action::BeginTransaction)
                }
            },
            Event::Connected(Err(source)) => self.fail(Error::DbConnectionError { source }),
            Event::ExistenceChecked(Ok(found)) => {
                if found {
                    (self.moved(Stage::Beginning), Action::BeginTransaction)
                } else {
                    let table_name = self.table_name.clone();
                    self.fail(Error::TableDoesntExist { table_name })
                }
            },
            Event::ExistenceChecked(Err(source)) => self.fail(
                Error::DbConnectionError { source },
            ),
            Event::TransactionBegun(Ok(_)) => {
                if self.pending == 0 {
                    (self.moved(Stage::Committing), Action::Commit)
                } else {
                    (self.moved(Stage::Running), Action::RunStatement)
                }
            },
            Event::TransactionBegun(Err(source)) => self.fail(
                Error::UnableToBeginTransaction { source },
            ),
            Event::StatementRun(Ok(rows)) => {
                if self.pending <= 1 {
                    (
                        Session {
                            entry: self.entry,
                            stage: Stage::Committing,
                            table_name: self.table_name,
                            pending: 0,
                            rows,
                        },
                        Action::Commit,
                    )
                } else {
                    (
                        Session {
                            entry: self.entry,
                            stage: self.stage,
                            table_name: self.table_name,
                            pending: self.pending - 1,
                            rows,
                        },
                        Action::RunStatement,
                    )
                }
            },
            Event::StatementRun(Err(error)) => self.fail(error),
            Event::Committed(Ok(_)) => {
                let rows = self.rows;
                (self.moved(Stage::Finished), Action::Finish(Ok(rows)))
            },
            Event::Committed(Err(source)) => self.fail(
                Error::UnableToCommitPostgresTransaction { source },
            ),
        }
    }

    fn moved(self, stage: Stage) -> (session: Session)
        ensures
            session == self.at(stage),
    {
        Session {
            entry: self.entry,
            stage,
            table_name: self.table_name,
            pending: self.pending,
            rows: self.rows,
        }
    }

    fn fail(self, error: Error) -> (end: (Session, Action))
        ensures
            end == self.failed(error),
    {
        (self.moved(Stage::Finished), Action::Finish(Err(error)))
    }
}

/// The report says that its action succeeded and that the session may go
/// on: the pool was built, the network-protocol adapter handed out, the
/// table found, the transaction begun, a statement run or the commit done.
pub open spec fn succeeded(event: Event) -> bool {
    match event {
        Event::PoolBuilt(outcome) => outcome is Ok,
        Event::Connected(outcome) => outcome == Ok::<Backend, String>(Backend::Postgres),
        Event::ExistenceChecked(answer) => answer == Ok::<bool, String>(true),
        Event::TransactionBegun(outcome) => outcome is Ok,
        Event::StatementRun(outcome) => outcome is Ok,
        Event::Committed(outcome) => outcome is Ok,
    }
}

/// The number of reports that take a well-formed session from its stage to
/// success.
pub open spec fn steps_left(session: Session) -> nat {
    let committing = 1nat;
    let running = session.pending as nat + committing;
    let beginning = 1 + running;
    let checking = 1 + beginning;
    let connecting = 1 + (if session.entry == Entry::Write {
        checking
    } else {
        beginning
    });
    match session.stage {
        Stage::BuildingPool => 1 + connecting,
        Stage::Connecting => connecting,
        Stage::CheckingExistence => checking,
        Stage::Beginning => beginning,
        Stage::Running => running,
        Stage::Committing => committing,
        Stage::Finished => 0,
    }
}

/// Every session that starts as a creation or as a write is well formed, and
/// stays so whatever is reported to it.
pub proof fn sessions_stay_well_formed(session: Session, statements: usize, event: Event)
    ensures
        Session::create_start(session.table_name).0.well_formed(),
        Session::write_start(session.table_name, statements).0.well_formed(),
        session.well_formed() && session.expects(event) ==> session.next(event).0.well_formed(),
{
}

/// A pool that cannot hand out a connection ends the session with the
/// connection error, which carries the pool's own text; nothing more is
/// asked of the backend.
pub proof fn unreachable_backend_fails(session: Session, source: String)
    requires
        session.stage == Stage::Connecting,
    ensures
        session.expects(Event::Connected(Err(source))),
        session.next(Event::Connected(Err(source))).1 == Action::Finish(
            Err(Error::DbConnectionError { source }),
        ),
        session.next(Event::Connected(Err(source))).0.stage == Stage::Finished,
        forall|event: Event| !session.next(Event::Connected(Err(source))).0.expects(event),
{
}

/// A pooled connection that is the network-protocol adapter is accepted:
/// the session goes on, to the existence check in a write and to the
/// transaction in a creation.
pub proof fn own_adapter_is_accepted(session: Session)
    requires
        session.stage == Stage::Connecting,
    ensures
        session.next(Event::Connected(Ok(Backend::Postgres))).1 == (if session.entry
            == Entry::Write {
            Action::CheckExistence
        } else {
            Action::BeginTransaction
        }),
        session.next(Event::Connected(Ok(Backend::Postgres))).0.stage != Stage::Finished,
{
}

/// A pooled connection of any other adapter ends the session with the
/// narrowing error, in a write and in a creation alike; nothing more is
/// asked of the backend.
pub proof fn foreign_adapter_is_refused(session: Session, backend: Backend)
    requires
        session.stage == Stage::Connecting,
        backend != Backend::Postgres,
    ensures
        session.next(Event::Connected(Ok(backend))).1 == Action::Finish(
            Err(Error::UnableToDowncastDbConnection {  }),
        ),
        session.next(Event::Connected(Ok(backend))).0.stage == Stage::Finished,
        forall|event: Event| !session.next(Event::Connected(Ok(backend))).0.expects(event),
{
}

/// A write to a table that the existence check does not find ends with the
/// table-absence error as soon as the check has answered: whatever the
/// caller reports, the session has then asked for a connection and for the
/// check and for nothing else, so no transaction is begun, no statement run
/// and nothing committed.
pub proof fn absent_table_stops_write(table_name: String, statements: usize, events: Seq<Event>)
    requires
        Session::write_start(table_name, statements).0.accepts(events),
        events.len() >= 2,
        events[1] == Event::ExistenceChecked(Ok(false)),
    ensures
        events.len() == 2,
        events[0] == Event::Connected(Ok(Backend::Postgres)),
        Session::write_start(table_name, statements).1 == Action::Connect,
        Session::write_start(table_name, statements).0.actions(events) == seq![
            Action::CheckExistence,
            Action::Finish(Err(Error::TableDoesntExist { table_name })),
        ],
{
    lemma_unchecked_write_stops(table_name, statements, events);
}

/// A write whose existence check fails ends as soon as the check has failed,
/// with the connection error that carries the backend's text, and not with
/// table absence: nothing is known of the table. Here too the session has
/// asked for a connection and for the check and for nothing else.
pub proof fn failed_check_stops_write(
    table_name: String,
    statements: usize,
    events: Seq<Event>,
    source: String,
)
    requires
        Session::write_start(table_name, statements).0.accepts(events),
        events.len() >= 2,
        events[1] == Event::ExistenceChecked(Err(source)),
    ensures
        events.len() == 2,
        events[0] == Event::Connected(Ok(Backend::Postgres)),
        Session::write_start(table_name, statements).0.actions(events) == seq![
            Action::CheckExistence,
            Action::Finish(Err(Error::DbConnectionError { source })),
        ],
{
    lemma_unchecked_write_stops(table_name, statements, events);
}

/// Table absence is what the existence check's no gives and nothing else
/// that the session decides: where a report other than a statement's own
/// ends the session with table absence, the report is that no, and the
/// table is the session's.
pub proof fn absence_is_the_checks_no(session: Session, event: Event)
    requires
        session.expects(event),
        !(event is StatementRun),
        session.next(event).1 matches Action::Finish(Err(error)) && error is TableDoesntExist,
    ensures
        event == Event::ExistenceChecked(Ok(false)),
        session.next(event).1 == Action::Finish(
            Err(Error::TableDoesntExist { table_name: session.table_name }),
        ),
{
}

/// A write that the existence check does not let through ends with the
/// check: the reports are the connection and the check, and the actions
/// the check and the end that the check's answer gives.
proof fn lemma_unchecked_write_stops(table_name: String, statements: usize, events: Seq<Event>)
    requires
        Session::write_start(table_name, statements).0.accepts(events),
        events.len() >= 2,
        events[1] != Event::ExistenceChecked(Ok(true)),
    ensures
        events.len() == 2,
        events[0] == Event::Connected(Ok(Backend::Postgres)),
        events[1] is ExistenceChecked,
        Session::write_start(table_name, statements).0.actions(events) == seq![
            Action::CheckExistence,
            Session::write_start(table_name, statements).0.at(Stage::CheckingExistence).next(
                events[1],
            ).1,
        ],
{
    let start = Session::write_start(table_name, statements).0;
    let checking = start.next(events[0]).0;
    let rest = events.drop_first();
    assert(start.expects(events[0]) && checking.accepts(rest));
    assert(rest[0] == events[1]);
    assert(checking.expects(rest[0]));
    let ended = checking.next(rest[0]).0;
    let tail = rest.drop_first();
    assert(ended.accepts(tail));
    assert(ended.stage == Stage::Finished);
    if tail.len() > 0 {
        assert(ended.expects(tail[0]));
    }
    assert(tail.len() == 0);
    assert(ended.actions(tail) == Seq::<Action>::empty());
    assert(checking.actions(rest) == seq![checking.next(rest[0]).1] + ended.actions(tail));
    assert(start.actions(events) == seq![start.next(events[0]).1] + checking.actions(rest));
    assert(checking == start.at(Stage::CheckingExistence));
    assert(start.actions(events) =~= seq![Action::CheckExistence, checking.next(events[1]).1]);
}

/// A transaction is begun only on the step after the session has what it
/// must have first: in a write the existence check's yes, in a creation the
/// network-protocol adapter from the pool.
pub proof fn transaction_follows_admission(session: Session, event: Event)
    requires
        session.well_formed(),
        session.expects(event),
        session.next(event).1 == Action::BeginTransaction,
    ensures
        session.entry == Entry::Write ==> event == Event::ExistenceChecked(Ok(true)),
        session.entry == Entry::Create ==> event == Event::Connected(Ok(Backend::Postgres)),
{
}

/// A statement is run only right after the transaction was begun or the
/// statement before it succeeded, and only while one is left to run: after
/// a failure no further statement is run.
pub proof fn statement_follows_success(session: Session, event: Event)
    requires
        session.expects(event),
        session.next(event).1 == Action::RunStatement,
    ensures
        event is TransactionBegun || event is StatementRun,
        succeeded(event),
        session.next(event).0.pending > 0,
        event is StatementRun ==> session.next(event).0.pending == session.pending - 1,
{
}

/// Nothing is committed unless the transaction was begun and every
/// statement succeeded, and success is reported only after the commit
/// succeeded: a failure at any step ends the session without a commit.
pub proof fn commit_follows_success(session: Session, event: Event)
    requires
        session.expects(event),
    ensures
        session.next(event).1 == Action::Commit ==> succeeded(event) && session.pending <= 1 && (
        event is StatementRun || (event is TransactionBegun && session.pending == 0)),
        session.next(event).1 matches Action::Finish(Ok(rows)) ==> event == Event::Committed(
            Ok(()),
        ) && rows == session.rows,
        session.next(event).1 matches Action::Finish(Err(_)) ==> !succeeded(event),
        session.next(event).1 is Finish <==> session.next(event).0.stage == Stage::Finished,
{
    match event {
        Event::Committed(outcome) => lemma_unit(outcome),
        _ => {},
    }
}

/// A session that is over accepts no further report, so it asks for no
/// further action.
pub proof fn finished_session_is_over(session: Session, events: Seq<Event>)
    requires
        session.stage == Stage::Finished,
        session.accepts(events),
    ensures
        events.len() == 0,
{
    if events.len() > 0 {
        assert(session.expects(events[0]));
    }
}

/// A session reports success only after every step of it succeeded: the
/// pool built (in a creation), the connection handed out and narrowed, the
/// table confirmed (in a write), the transaction begun, every statement run
/// and, last, the commit done. The rows it reports are those of the last
/// statement.
pub proof fn success_is_complete(session: Session, events: Seq<Event>, rows: u64)
    requires
        session.well_formed(),
        session.accepts(events),
        events.len() > 0,
        session.actions(events).last() == Action::Finish(Ok(rows)),
    ensures
        forall|i: int| 0 <= i < events.len() ==> succeeded(#[trigger] events[i]),
        events.len() == steps_left(session),
        events.last() == Event::Committed(Ok(())),
        session.pending > 0 && session.stage != Stage::Committing ==> events[events.len() - 2]
            == Event::StatementRun(Ok(rows)),
    decreases events.len(),
{
    let first = events[0];
    let rest = events.drop_first();
    let then = session.next(first).0;
    assert(session.expects(first) && then.accepts(rest));
    assert(session.actions(events) == seq![session.next(first).1] + then.actions(rest));
    lemma_actions_len(then, rest);
    match first {
        Event::Committed(outcome) => lemma_unit(outcome),
        _ => {},
    }
    if rest.len() == 0 {
        assert(then.actions(rest) =~= Seq::<Action>::empty());
        assert(session.actions(events).last() == session.next(first).1);
    } else {
        assert(then.expects(rest[0]));
        assert(session.actions(events).last() == then.actions(rest).last());
        success_is_complete(then, rest, rows);
        assert(forall|i: int| 1 <= i < events.len() ==> events[i] == rest[i - 1]);
        assert(events.last() == rest.last());
        if then.stage == Stage::Committing {
            assert(rest.len() == 1);
            assert(then.next(rest[0]).1 == then.actions(rest).last()) by {
                assert(then.actions(rest) == seq![then.next(rest[0]).1] + then.next(
                    rest[0],
                ).0.actions(rest.drop_first()));
                assert(then.next(rest[0]).0.actions(rest.drop_first()) =~= Seq::<
                    Action,
                >::empty());
            }
        }
    }
}

/// One action is asked for each event.
proof fn lemma_actions_len(session: Session, events: Seq<Event>)
    ensures
        session.actions(events).len() == events.len(),
    decreases events.len(),
{
    if events.len() > 0 {
        lemma_actions_len(session.next(events[0]).0, events.drop_first());
    }
}

/// A report of success without a value is the one such report.
proof fn lemma_unit(outcome: Result<(), String>)
    ensures
        outcome is Ok ==> outcome == Ok::<(), String>(()),
{
    if outcome is Ok {
        assert(outcome->Ok_0 == ());
    }
}

} // verus!
