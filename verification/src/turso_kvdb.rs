//! The turso storage: which calls each operation makes on turso, and what it returns.
//!
//! Each of the nine tables is a SQL table with the columns `key BLOB PRIMARY KEY` and
//! `value BLOB NOT NULL`.

use vstd::prelude::*;

use crate::config::{DatabaseFile, DatabaseFileView, RocksDbConfig};
use crate::error::{BackendError, StorageError, StorageResult};
use crate::script::{OnError, PanicReason, Progress, Script, Signal, Step, Verdict};
use crate::turso_row::{row_value, Cell};
use crate::turso_sql::{cache_size_kib, Sql, Statement};
use crate::turso_table::TursoTable;

verus! {

/// The file name of a database whose configured path is a directory.
pub const TURSO_FILE: &'static str = "data.turso";

// ACTIONS
// ================================================================================================

/// A call on turso.
#[derive(Debug)]
pub enum TursoAction {
    /// Build the runtime that drives the other calls.
    BuildRuntime,
    /// Open or create the database in `file`.
    Open { file: DatabaseFile },
    /// Open a connection to the database.
    Connect,
    /// Prepare a statement, or take it from the cache of prepared statements.
    Prepare { sql: Statement },
    /// Execute the prepared statement with these byte strings as its parameters.
    ExecutePrepared { params: Vec<Vec<u8>> },
    /// Start the query of the prepared statement with these byte strings as its parameters.
    QueryPrepared { params: Vec<Vec<u8>> },
    /// Execute a statement without parameters.
    Execute { sql: Statement },
    /// Execute several statements at once.
    ExecuteBatch { sql: Statement },
    /// Start a query without parameters.
    Query { sql: Statement },
    /// Fetch the next row of the query.
    FetchRow,
    /// Fetch the next row of the query and drop it; made again until there is none.
    DrainRow,
    /// Flush the connection's cache.
    CacheFlush,
    /// Ask whether the connection is outside a transaction.
    CheckAutocommit,
}

/// What a [`TursoAction`] says, over sequences.
pub enum TursoCall {
    BuildRuntime,
    Open { file: DatabaseFileView },
    Connect,
    Prepare { sql: Sql },
    ExecutePrepared { params: Seq<Seq<u8>> },
    QueryPrepared { params: Seq<Seq<u8>> },
    Execute { sql: Sql },
    ExecuteBatch { sql: Sql },
    Query { sql: Sql },
    FetchRow,
    DrainRow,
    CacheFlush,
    CheckAutocommit,
}

/// The byte strings of `params`.
pub open spec fn params_view(params: Vec<Vec<u8>>) -> Seq<Seq<u8>> {
    params@.map_values(|p: Vec<u8>| p@)
}

impl View for TursoAction {
    type V = TursoCall;

    open spec fn view(&self) -> TursoCall {
        match *self {
            TursoAction::BuildRuntime => TursoCall::BuildRuntime,
            TursoAction::Open { file } => TursoCall::Open { file: file@ },
            TursoAction::Connect => TursoCall::Connect,
            TursoAction::Prepare { sql } => TursoCall::Prepare { sql: sql@ },
            TursoAction::ExecutePrepared { params } => TursoCall::ExecutePrepared {
                params: params_view(params),
            },
            TursoAction::QueryPrepared { params } => TursoCall::QueryPrepared {
                params: params_view(params),
            },
            TursoAction::Execute { sql } => TursoCall::Execute { sql: sql@ },
            TursoAction::ExecuteBatch { sql } => TursoCall::ExecuteBatch { sql: sql@ },
            TursoAction::Query { sql } => TursoCall::Query { sql: sql@ },
            TursoAction::FetchRow => TursoCall::FetchRow,
            TursoAction::DrainRow => TursoCall::DrainRow,
            TursoAction::CacheFlush => TursoCall::CacheFlush,
            TursoAction::CheckAutocommit => TursoCall::CheckAutocommit,
        }
    }
}

/// The answer of turso to a call.
#[derive(Debug)]
pub enum TursoReply {
    /// The call succeeded and returned nothing to pass on.
    Done,
    /// The query has this next row.
    Row(turso::Row),
    /// The query has no next row.
    End,
    /// Whether the connection is outside a transaction.
    Autocommit(bool),
    /// The call failed.
    Failed(turso::Error),
    /// The runtime could not be built.
    RuntimeFailed(std::io::Error),
}

/// What an operation on turso returns.
#[derive(Debug)]
pub enum TursoOutput {
    /// Nothing.
    Done,
    /// The row that was fetched, if there was one.
    Row(Option<turso::Row>),
}

/// What a [`TursoOutput`] says, over the columns of the row.
pub enum TursoAnswer {
    Done,
    Row(Option<Seq<Cell>>),
}

impl View for TursoOutput {
    type V = TursoAnswer;

    open spec fn view(&self) -> TursoAnswer {
        match *self {
            TursoOutput::Done => TursoAnswer::Done,
            TursoOutput::Row(None) => TursoAnswer::Row(None),
            TursoOutput::Row(Some(row)) => TursoAnswer::Row(
                Some(crate::turso_row::row_columns(row)),
            ),
        }
    }
}

/// Whether `r` is the value that `answer` stands for: no value where there is no row, else that
/// of the first column of the row.
pub open spec fn is_answered_value(
    r: StorageResult<Option<Vec<u8>>>,
    answer: TursoAnswer,
) -> bool {
    match answer {
        TursoAnswer::Done => crate::turso_row::is_value(r, None),
        TursoAnswer::Row(None) => crate::turso_row::is_value(r, None),
        TursoAnswer::Row(Some(columns)) => if columns.len() > 0 {
            crate::turso_row::is_value(r, crate::turso_row::cell_value(columns[0]))
        } else {
            r == Err::<Option<Vec<u8>>, StorageError>(crate::turso_row::missing_column(0, 0))
        },
    }
}

impl TursoOutput {
    /// The value that was read, if there is one.
    pub fn into_value(self) -> (r: StorageResult<Option<Vec<u8>>>)
        ensures
            is_answered_value(r, self@),
            match self {
                TursoOutput::Row(Some(row)) => crate::turso_row::row_columns(row).len() > 0 ==> (
                match crate::turso_row::row_columns(row)[0] {
                    Cell::Blob(bytes) => r matches Ok(Some(v)) && v@ == bytes,
                    _ => r matches Ok(None),
                }),
                _ => r matches Ok(None),
            },
    {
        match self {
            TursoOutput::Done => Ok(None),
            TursoOutput::Row(row) => row_value(row),
        }
    }
}

impl TursoReply {
    /// The error of a failed call; `None` of a call that succeeded.
    pub open spec fn failure(self) -> Option<StorageError> {
        match self {
            TursoReply::Failed(e) => Some(StorageError::Backend(BackendError::Turso(e))),
            TursoReply::RuntimeFailed(e) => Some(StorageError::Backend(BackendError::Runtime(e))),
            _ => None,
        }
    }

    /// What a call that succeeded returned.
    pub open spec fn output(self) -> TursoAnswer {
        match self {
            TursoReply::Row(row) => TursoAnswer::Row(Some(crate::turso_row::row_columns(row))),
            TursoReply::End => TursoAnswer::Row(None),
            _ => TursoAnswer::Done,
        }
    }

    /// What the reply to `call` means for the operation: a row that is only drained is asked for
    /// again, and a connection outside a transaction has nothing to take back.
    pub open spec fn meaning(self, call: TursoCall) -> Signal {
        match self {
            TursoReply::Done => Signal::Advance,
            TursoReply::Row(_) => if call is DrainRow {
                Signal::Repeat
            } else {
                Signal::Advance
            },
            TursoReply::End => Signal::Advance,
            TursoReply::Autocommit(outside) => if outside {
                Signal::Finish
            } else {
                Signal::Advance
            },
            TursoReply::Failed(_) => Signal::Fail,
            TursoReply::RuntimeFailed(_) => Signal::Fail,
        }
    }

    /// What the call returned, or the error that it failed with.
    fn settle(self) -> (r: Result<TursoOutput, StorageError>)
        ensures
            match self.failure() {
                None => r matches Ok(out) && out@ == self.output(),
                Some(e) => r == Err::<TursoOutput, StorageError>(e),
            },
            match self {
                TursoReply::Row(row) => r == Ok::<TursoOutput, StorageError>(
                    TursoOutput::Row(Some(row)),
                ),
                TursoReply::End => r == Ok::<TursoOutput, StorageError>(TursoOutput::Row(None)),
                TursoReply::Failed(_) => r is Err,
                TursoReply::RuntimeFailed(_) => r is Err,
                _ => r == Ok::<TursoOutput, StorageError>(TursoOutput::Done),
            },
    {
        match self {
            TursoReply::Done => Ok(TursoOutput::Done),
            TursoReply::Row(row) => Ok(TursoOutput::Row(Some(row))),
            TursoReply::End => Ok(TursoOutput::Row(None)),
            TursoReply::Autocommit(_) => Ok(TursoOutput::Done),
            TursoReply::Failed(e) => Err(StorageError::from(e)),
            TursoReply::RuntimeFailed(e) => Err(StorageError::Backend(BackendError::Runtime(e))),
        }
    }
}

// RUNS
// ================================================================================================

/// The calls of one operation on turso that are still to be made.
pub type TursoRun = Script<TursoAction>;

/// Where the operation with the calls `steps` left stands after `reply` to the first of them.
pub open spec fn turso_after(steps: Seq<Step<TursoCall>>, reply: TursoReply) -> (
    Seq<Step<TursoCall>>,
    Verdict,
) {
    crate::script::after(steps, reply.meaning(steps[0].action))
}

impl Script<TursoAction> {
    /// Goes on after `reply` to the call of [`Script::action`].
    ///
    /// A failing call ends the operation with its error, makes it panic where it has no error to
    /// return, or is passed over; after the last call the operation returns what that call
    /// returned.
    pub fn resume(&mut self, reply: TursoReply) -> (r: Progress<TursoOutput>)
        ensures
            final(self)@ == turso_after(old(self)@, reply).0,
            match turso_after(old(self)@, reply).1 {
                Verdict::Continue => r is Continue,
                Verdict::Finished => r matches Progress::Finished(Ok(out)) && out@ == (
                if reply.failure() is Some {
                    TursoAnswer::Done
                } else {
                    reply.output()
                }),
                Verdict::Failed => r == Progress::<TursoOutput>::Finished(
                    Err(reply.failure()->0),
                ),
                Verdict::Panic(reason) => r == Progress::<TursoOutput>::Panic(
                    reason,
                    reply.failure()->0,
                ),
            },
            r matches Progress::Finished(Ok(out)) ==> out == (match reply {
                TursoReply::Row(row) => TursoOutput::Row(Some(row)),
                TursoReply::End => TursoOutput::Row(None),
                _ => TursoOutput::Done,
            }),
    {
        let drains = match self.action() {
            Some(TursoAction::DrainRow) => true,
            _ => false,
        };
        let signal = match &reply {
            TursoReply::Done => Signal::Advance,
            TursoReply::Row(_) => if drains {
                Signal::Repeat
            } else {
                Signal::Advance
            },
            TursoReply::End => Signal::Advance,
            TursoReply::Autocommit(outside) => if *outside {
                Signal::Finish
            } else {
                Signal::Advance
            },
            TursoReply::Failed(_) => Signal::Fail,
            TursoReply::RuntimeFailed(_) => Signal::Fail,
        };
        let verdict = self.signal(signal);
        match reply.settle() {
            Ok(out) => match verdict {
                Verdict::Continue => Progress::Continue,
                _ => Progress::Finished(Ok(out)),
            },
            Err(e) => match verdict {
                Verdict::Continue => Progress::Continue,
                Verdict::Finished => Progress::Finished(Ok(TursoOutput::Done)),
                Verdict::Failed => Progress::Finished(Err(e)),
                Verdict::Panic(reason) => Progress::Panic(reason, e),
            },
        }
    }
}

/// A step whose failure ends the operation with its error.
pub open spec fn must(call: TursoCall) -> Step<TursoCall> {
    Step { action: call, on_error: OnError::Return }
}

/// A step whose failure is passed over.
pub open spec fn may(call: TursoCall) -> Step<TursoCall> {
    Step { action: call, on_error: OnError::Skip(0) }
}

/// The calls that execute `sql` as a prepared statement.
pub open spec fn prepared_steps(sql: Sql, params: Seq<Seq<u8>>) -> Seq<Step<TursoCall>> {
    seq![must(TursoCall::Prepare { sql }), must(TursoCall::ExecutePrepared { params })]
}

/// Adds the calls that execute `sql` as a prepared statement.
fn push_prepared(run: &mut TursoRun, sql: Statement, params: Vec<Vec<u8>>)
    ensures
        final(run)@ == old(run)@ + prepared_steps(sql@, params_view(params)),
{
    run.push(TursoAction::Prepare { sql }, OnError::Return);
    run.push(TursoAction::ExecutePrepared { params }, OnError::Return);
    assert(run@ =~= old(run)@ + prepared_steps(sql@, params_view(params)));
}

/// One parameter.
fn one_param(first: &[u8]) -> (params: Vec<Vec<u8>>)
    ensures
        params_view(params) == seq![first@],
{
    let mut params: Vec<Vec<u8>> = Vec::new();
    params.push(vstd::slice::slice_to_vec(first));
    assert(params_view(params) =~= seq![first@]);
    params
}

/// Two parameters.
fn two_params(first: &[u8], second: &[u8]) -> (params: Vec<Vec<u8>>)
    ensures
        params_view(params) == seq![first@, second@],
{
    let mut params: Vec<Vec<u8>> = Vec::new();
    params.push(vstd::slice::slice_to_vec(first));
    params.push(vstd::slice::slice_to_vec(second));
    assert(params_view(params) =~= seq![first@, second@]);
    params
}

// TURSO KVDB
// ================================================================================================

/// The calls that open a database, tune it as far as turso lets them, and create all tables.
pub open spec fn turso_new_steps(config: RocksDbConfig, path_is_dir: bool) -> Seq<
    Step<TursoCall>,
> {
    seq![
        must(TursoCall::BuildRuntime),
        must(
            TursoCall::Open {
                file: crate::config::database_file(config.path, path_is_dir, TURSO_FILE@),
            },
        ),
        must(TursoCall::Connect),
        Step { action: TursoCall::Query { sql: Sql::JournalModeWal }, on_error: OnError::Skip(1) },
        may(TursoCall::DrainRow),
        may(TursoCall::Execute { sql: Sql::SynchronousNormal }),
        may(
            TursoCall::Execute {
                sql: Sql::CacheSize(crate::turso_sql::cache_kib(config.cache_size) as i64),
            },
        ),
        may(TursoCall::Execute { sql: Sql::WalAutocheckpoint }),
        must(TursoCall::ExecuteBatch { sql: Sql::CreateTables }),
    ]
}

/// The calls that remove `key` from the table `name`.
pub open spec fn turso_delete_steps(name: Seq<char>, key: Seq<u8>) -> Seq<Step<TursoCall>> {
    prepared_steps(Sql::Delete(name), seq![key])
}

/// The call that starts a batch. A batch cannot report its failure.
pub open spec fn turso_batch_steps() -> Seq<Step<TursoCall>> {
    seq![
        Step {
            action: TursoCall::Execute { sql: Sql::BeginDeferred },
            on_error: OnError::Panic(PanicReason::TursoBegin),
        },
    ]
}

/// The calls that start a snapshot on a connection of its own. The read makes the transaction
/// take its view of the tables before another connection can change them.
pub open spec fn turso_snapshot_steps() -> Seq<Step<TursoCall>> {
    seq![
        must(TursoCall::Connect),
        must(TursoCall::Execute { sql: Sql::BeginDeferred }),
        must(TursoCall::Query { sql: Sql::AnchorRead }),
        must(TursoCall::DrainRow),
    ]
}

/// The calls that move the commits made so far into the database file, as far as the views that
/// other connections hold of the tables allow.
pub open spec fn turso_sync_steps() -> Seq<Step<TursoCall>> {
    seq![
        must(TursoCall::CacheFlush),
        must(TursoCall::Query { sql: Sql::Checkpoint }),
        must(TursoCall::DrainRow),
    ]
}

/// The calls that read `key` from the table `name`.
pub open spec fn turso_get_steps(name: Seq<char>, key: Seq<u8>) -> Seq<Step<TursoCall>> {
    seq![
        must(TursoCall::Prepare { sql: Sql::Select(name) }),
        must(TursoCall::QueryPrepared { params: seq![key] }),
        must(TursoCall::FetchRow),
    ]
}

/// The calls that start reading all entries of the table `name`.
pub open spec fn turso_iter_steps(name: Seq<char>) -> Seq<Step<TursoCall>> {
    seq![
        must(TursoCall::Prepare { sql: Sql::SelectAll(name) }),
        must(TursoCall::QueryPrepared { params: Seq::empty() }),
    ]
}

/// The calls that take back a transaction that is still open on a connection.
pub open spec fn turso_close_steps() -> Seq<Step<TursoCall>> {
    seq![
        Step { action: TursoCall::CheckAutocommit, on_error: OnError::Skip(1) },
        may(TursoCall::Execute { sql: Sql::Rollback }),
    ]
}

/// Reads `key` from `table`.
fn get_run(table: &TursoTable, key: &[u8]) -> (r: TursoRun)
    ensures
        r@ == turso_get_steps(table@, key@),
{
    let mut run = TursoRun::new();
    run.push(TursoAction::Prepare { sql: Statement::Select(table.name()) }, OnError::Return);
    run.push(TursoAction::QueryPrepared { params: one_param(key) }, OnError::Return);
    run.push(TursoAction::FetchRow, OnError::Return);
    assert(run@ =~= turso_get_steps(table@, key@));
    run
}

/// Starts reading all entries of `table`.
fn iter_run(table: &TursoTable) -> (r: TursoRun)
    ensures
        r@ == turso_iter_steps(table@),
{
    let mut run = TursoRun::new();
    let params: Vec<Vec<u8>> = Vec::new();
    assert(params_view(params) =~= Seq::empty());
    run.push(TursoAction::Prepare { sql: Statement::SelectAll(table.name()) }, OnError::Return);
    run.push(TursoAction::QueryPrepared { params }, OnError::Return);
    assert(run@ =~= turso_iter_steps(table@));
    run
}

/// Takes back a transaction that is still open.
fn close_run() -> (r: TursoRun)
    ensures
        r@ == turso_close_steps(),
{
    let mut run = TursoRun::new();
    run.push(TursoAction::CheckAutocommit, OnError::Skip(1));
    run.push(TursoAction::Execute { sql: Statement::Rollback }, OnError::Skip(0));
    assert(run@ =~= turso_close_steps());
    run
}

/// Turso-backed storage.
///
/// Its operations share one connection, so while a batch is open on it they see, and join, the
/// transaction of the batch.
#[derive(Debug, Clone, Copy)]
pub struct TursoKVDB;

impl TursoKVDB {
    /// Opens or creates the database that `config` describes, and creates all tables in it.
    ///
    /// Where the configured path is a directory, the file is [`TURSO_FILE`] in it. Settings that
    /// turso does not know are passed over.
    pub fn new(config: RocksDbConfig, path_is_dir: bool) -> (r: TursoRun)
        ensures
            r@ == turso_new_steps(config, path_is_dir),
    {
        let mut run = TursoRun::new();
        let kib: i64 = cache_size_kib(config.cache_size);
        let file = DatabaseFile::select(config.path, path_is_dir, TURSO_FILE);
        run.push(TursoAction::BuildRuntime, OnError::Return);
        run.push(TursoAction::Open { file }, OnError::Return);
        run.push(TursoAction::Connect, OnError::Return);
        run.push(TursoAction::Query { sql: Statement::JournalModeWal }, OnError::Skip(1));
        run.push(TursoAction::DrainRow, OnError::Skip(0));
        run.push(TursoAction::Execute { sql: Statement::SynchronousNormal }, OnError::Skip(0));
        run.push(TursoAction::Execute { sql: Statement::CacheSize(kib) }, OnError::Skip(0));
        run.push(TursoAction::Execute { sql: Statement::WalAutocheckpoint }, OnError::Skip(0));
        run.push(TursoAction::ExecuteBatch { sql: Statement::CreateTables }, OnError::Return);
        assert(run@ =~= turso_new_steps(config, path_is_dir));
        run
    }

    /// Removes `key` from `table`.
    pub fn delete(&self, table: &TursoTable, key: &[u8]) -> (r: TursoRun)
        ensures
            r@ == turso_delete_steps(table@, key@),
    {
        let mut run = TursoRun::new();
        push_prepared(&mut run, Statement::Delete(table.name()), one_param(key));
        assert(run@ =~= turso_delete_steps(table@, key@));
        run
    }

    /// Starts a batch.
    pub fn batch(&self) -> (r: (TursoRun, TursoKVDBBatch))
        ensures
            r.0@ == turso_batch_steps(),
            r.1.error() is None,
            !r.1.committed(),
    {
        let mut run = TursoRun::new();
        run.push(
            TursoAction::Execute { sql: Statement::BeginDeferred },
            OnError::Panic(PanicReason::TursoBegin),
        );
        assert(run@ =~= turso_batch_steps());
        (run, TursoKVDBBatch { err: None, committed: false })
    }

    /// Starts a snapshot of the database, on a connection of its own.
    pub fn snapshot(&self) -> (r: (TursoRun, TursoKVDBSnapshot))
        ensures
            r.0@ == turso_snapshot_steps(),
    {
        let mut run = TursoRun::new();
        run.push(TursoAction::Connect, OnError::Return);
        run.push(TursoAction::Execute { sql: Statement::BeginDeferred }, OnError::Return);
        run.push(TursoAction::Query { sql: Statement::AnchorRead }, OnError::Return);
        run.push(TursoAction::DrainRow, OnError::Return);
        assert(run@ =~= turso_snapshot_steps());
        (run, TursoKVDBSnapshot)
    }

    /// Moves the commits made so far into the database file. An open snapshot can keep some of them
    /// from being moved; that is no error.
    pub fn sync(&self) -> (r: TursoRun)
        ensures
            r@ == turso_sync_steps(),
    {
        let mut run = TursoRun::new();
        run.push(TursoAction::CacheFlush, OnError::Return);
        run.push(TursoAction::Query { sql: Statement::Checkpoint }, OnError::Return);
        run.push(TursoAction::DrainRow, OnError::Return);
        assert(run@ =~= turso_sync_steps());
        run
    }

    /// The handle of the table `name`.
    pub fn table(&self, name: &str) -> (r: StorageResult<TursoTable>)
        ensures
            r is Ok <==> crate::schema::schema().contains(name@),
            r matches Ok(table) ==> table@ == name@,
            r matches Err(e) ==> crate::schema::is_unknown_table(e, name@),
    {
        TursoTable::new(name)
    }

    /// Reads `key` from `table`. The value is [`TursoOutput::into_value`] of what the run
    /// returns.
    pub fn get(&self, table: &TursoTable, key: &[u8]) -> (r: TursoRun)
        ensures
            r@ == turso_get_steps(table@, key@),
    {
        get_run(table, key)
    }

    /// Starts reading all entries of `table`. The entries come through
    /// [`crate::turso_row::TursoRowIter::new`] of what the run returns.
    pub fn iter(&self, table: TursoTable) -> (r: TursoRun)
        ensures
            r@ == turso_iter_steps(table@),
    {
        iter_run(&table)
    }
}

// TURSO KVDB BATCH
// ================================================================================================

/// The calls that put `value` under `key` in the table `name`.
pub open spec fn turso_put_steps(name: Seq<char>, key: Seq<u8>, value: Seq<u8>) -> Seq<
    Step<TursoCall>,
> {
    prepared_steps(Sql::Replace(name), seq![key, value])
}

/// The calls that end a batch: a commit, or, of a batch that met an error, a rollback.
pub open spec fn turso_commit_steps(met_error: bool) -> Seq<Step<TursoCall>> {
    if met_error {
        seq![may(TursoCall::Execute { sql: Sql::Rollback })]
    } else {
        seq![must(TursoCall::Execute { sql: Sql::Commit })]
    }
}

/// Atomic batch of put and delete operations, in one transaction on the shared connection.
///
/// Neither operation returns an error: the first error is kept, every later operation does
/// nothing, and [`TursoKVDBBatch::commit`] takes the transaction back in place of committing it.
/// A batch is committed by [`TursoKVDBBatch::commit`], whose run returns to
/// [`TursoKVDBBatch::finish`]; when it goes out of scope, the run of [`TursoKVDBBatch::close`]
/// takes back what was not committed.
#[derive(Debug)]
pub struct TursoKVDBBatch {
    err: Option<StorageError>,
    committed: bool,
}

impl TursoKVDBBatch {
    /// The first error that an operation of the batch met.
    pub closed spec fn error(self) -> Option<StorageError> {
        self.err
    }

    /// Whether the transaction has been ended by [`TursoKVDBBatch::commit`].
    pub closed spec fn committed(self) -> bool {
        self.committed
    }

    /// Puts `value` under `key` in `table`. What the run returns goes to
    /// [`TursoKVDBBatch::record`].
    pub fn put(&self, table: &TursoTable, key: &[u8], value: &[u8]) -> (r: TursoRun)
        ensures
            r@ == (if self.error() is Some {
                Seq::empty()
            } else {
                turso_put_steps(table@, key@, value@)
            }),
    {
        let mut run = TursoRun::new();
        if self.err.is_some() {
            return run;
        }
        push_prepared(&mut run, Statement::Replace(table.name()), two_params(key, value));
        assert(run@ =~= turso_put_steps(table@, key@, value@));
        run
    }

    /// Removes `key` from `table`. What the run returns goes to [`TursoKVDBBatch::record`].
    pub fn delete(&self, table: &TursoTable, key: &[u8]) -> (r: TursoRun)
        ensures
            r@ == (if self.error() is Some {
                Seq::empty()
            } else {
                turso_delete_steps(table@, key@)
            }),
    {
        let mut run = TursoRun::new();
        if self.err.is_some() {
            return run;
        }
        push_prepared(&mut run, Statement::Delete(table.name()), one_param(key));
        assert(run@ =~= turso_delete_steps(table@, key@));
        run
    }

    /// Takes note of how an operation ended: the first error stays.
    pub fn record(&mut self, outcome: Result<TursoOutput, StorageError>)
        ensures
            final(self).error() == crate::error::kept_error(old(self).error(), outcome),
            final(self).committed() == old(self).committed(),
    {
        if self.err.is_none() {
            match outcome {
                Ok(_) => {},
                Err(e) => {
                    self.err = Some(e);
                },
            }
        }
    }

    /// Commits the batch, or takes it back where an operation met an error. What the run returns
    /// goes to [`TursoKVDBBatch::finish`].
    pub fn commit(&mut self) -> (r: TursoRun)
        ensures
            r@ == turso_commit_steps(old(self).error() is Some),
            final(self).error() == old(self).error(),
            final(self).committed() == (old(self).committed() || old(self).error() is Some),
    {
        let mut run = TursoRun::new();
        if self.err.is_some() {
            self.committed = true;
            run.push(TursoAction::Execute { sql: Statement::Rollback }, OnError::Skip(0));
        } else {
            run.push(TursoAction::Execute { sql: Statement::Commit }, OnError::Return);
        }
        assert(run@ =~= turso_commit_steps(old(self).error() is Some));
        run
    }

    /// What committing the batch returns: the error that an operation met, else what came of the
    /// commit.
    pub fn finish(&mut self, outcome: Result<TursoOutput, StorageError>) -> (r: StorageResult<()>)
        ensures
            final(self).error() is None,
            match (old(self).error(), outcome) {
                (Some(e), _) => r == Err::<(), StorageError>(e) && final(self).committed()
                    == old(self).committed(),
                (None, Err(e)) => r == Err::<(), StorageError>(e) && final(self).committed()
                    == old(self).committed(),
                (None, Ok(_)) => r is Ok && final(self).committed(),
            },
    {
        match self.err.take() {
            Some(e) => Err(e),
            None => match outcome {
                Ok(_) => {
                    self.committed = true;
                    Ok(())
                },
                Err(e) => Err(e),
            },
        }
    }

    /// Takes back the transaction of a batch that was not committed.
    pub fn close(&self) -> (r: TursoRun)
        ensures
            r@ == (if self.committed() {
                Seq::empty()
            } else {
                turso_close_steps()
            }),
    {
        if self.committed {
            TursoRun::new()
        } else {
            close_run()
        }
    }
}

// TURSO KVDB SNAPSHOT
// ================================================================================================

/// Point-in-time read-only snapshot, in one transaction on a connection of its own.
#[derive(Debug, Clone, Copy)]
pub struct TursoKVDBSnapshot;

impl TursoKVDBSnapshot {
    /// The handle of the table `name`.
    pub fn table(&self, name: &str) -> (r: StorageResult<TursoTable>)
        ensures
            r is Ok <==> crate::schema::schema().contains(name@),
            r matches Ok(table) ==> table@ == name@,
            r matches Err(e) ==> crate::schema::is_unknown_table(e, name@),
    {
        TursoTable::new(name)
    }

    /// Reads `key` from `table` as the snapshot has it. The value is
    /// [`TursoOutput::into_value`] of what the run returns.
    pub fn get(&self, table: &TursoTable, key: &[u8]) -> (r: TursoRun)
        ensures
            r@ == turso_get_steps(table@, key@),
    {
        get_run(table, key)
    }

    /// Starts reading all entries of `table` as the snapshot has them. The entries come through
    /// [`crate::turso_row::TursoRowIter::new`] of what the run returns.
    pub fn iter(&self, table: TursoTable) -> (r: TursoRun)
        ensures
            r@ == turso_iter_steps(table@),
    {
        iter_run(&table)
    }

    /// Ends the snapshot's transaction, when the last handle on the snapshot goes out of scope.
    pub fn close(&self) -> (r: TursoRun)
        ensures
            r@ == turso_close_steps(),
    {
        close_run()
    }
}

} // verus!
