//! What the calls on turso, the texts in them, its replies and the results of the storage have to
//! do with each other, stated of the values themselves.

use vstd::prelude::*;

use crate::config::{DatabaseFile, DatabaseFileView, RocksDbConfig};
use crate::error::{BackendError, StorageError, StorageResult};
use crate::script::{OnError, PanicReason, Signal, Step, Verdict};
use crate::turso_kvdb::{TursoAction, TursoAnswer, TursoCall, TursoOutput, TursoReply};
use crate::turso_laws::{TursoEnd, TursoState};
use crate::turso_row::Cell;
use crate::turso_sql::{Sql, Statement};

verus! {

// CALLS
// ================================================================================================

/// What a call says is the very file, statement and parameters that it is made with.
pub proof fn law_turso_action_says_its_call(action: TursoAction)
    ensures
        (match action {
            TursoAction::BuildRuntime => action@ == TursoCall::BuildRuntime,
            TursoAction::Open { file: DatabaseFile::Given(path) } => action@ == TursoCall::Open {
                file: DatabaseFileView::Given(path),
            },
            TursoAction::Open { file: DatabaseFile::Inside(path, name) } => action@
                == TursoCall::Open { file: DatabaseFileView::Inside(path, name@) },
            TursoAction::Connect => action@ == TursoCall::Connect,
            TursoAction::Prepare { sql } => action@ == TursoCall::Prepare { sql: sql@ },
            TursoAction::ExecutePrepared { params } => (action@ matches TursoCall::ExecutePrepared {
                params: said,
            } && says_params(said, params)),
            TursoAction::QueryPrepared { params } => (action@ matches TursoCall::QueryPrepared {
                params: said,
            } && says_params(said, params)),
            TursoAction::Execute { sql } => action@ == TursoCall::Execute { sql: sql@ },
            TursoAction::ExecuteBatch { sql } => action@ == TursoCall::ExecuteBatch { sql: sql@ },
            TursoAction::Query { sql } => action@ == TursoCall::Query { sql: sql@ },
            TursoAction::FetchRow => action@ == TursoCall::FetchRow,
            TursoAction::DrainRow => action@ == TursoCall::DrainRow,
            TursoAction::CacheFlush => action@ == TursoCall::CacheFlush,
            TursoAction::CheckAutocommit => action@ == TursoCall::CheckAutocommit,
        }),
{
}

/// Whether `said` are the byte strings `params`, in order.
pub open spec fn says_params(said: Seq<Seq<u8>>, params: Vec<Vec<u8>>) -> bool {
    &&& said.len() == params@.len()
    &&& forall|i: int| 0 <= i < said.len() ==> #[trigger] said[i] == params@[i]@
}

/// What a statement says names the table that it was made for.
pub proof fn law_statement_says_its_table(statement: Statement)
    ensures
        match statement {
            Statement::CacheSize(n) => statement@ == Sql::CacheSize(n),
            Statement::Select(name) => statement@ == Sql::Select(name@),
            Statement::SelectAll(name) => statement@ == Sql::SelectAll(name@),
            Statement::Replace(name) => statement@ == Sql::Replace(name@),
            Statement::Delete(name) => statement@ == Sql::Delete(name@),
            _ => crate::turso_laws::named_table(statement@) is None,
        },
{
}

/// The only database that opening opens is the configured one: the file at the path, or, where the
/// path is a directory, the file `data.turso` in it.
pub proof fn law_turso_opens_the_configured_file(config: RocksDbConfig, path_is_dir: bool)
    ensures
        ({
            let steps = crate::turso_kvdb::turso_new_steps(config, path_is_dir);
            let file = if path_is_dir {
                DatabaseFileView::Inside(config.path, "data.turso"@)
            } else {
                DatabaseFileView::Given(config.path)
            };
            &&& steps.len() > 1
            &&& steps[1].action == TursoCall::Open { file }
            &&& forall|i: int|
                0 <= i < steps.len() && i != 1 ==> !((#[trigger] steps[i]).action is Open)
        }),
{
}

/// How many files may be open has no effect on opening, and the size of the cache has none but on
/// the setting of it.
pub proof fn law_turso_opening_goes_by_the_path(
    a: RocksDbConfig,
    b: RocksDbConfig,
    path_is_dir: bool,
    i: int,
)
    requires
        a.path == b.path,
        0 <= i < crate::turso_kvdb::turso_new_steps(a, path_is_dir).len(),
        a.cache_size == b.cache_size || i != 6,
    ensures
        crate::turso_kvdb::turso_new_steps(a, path_is_dir).len()
            == crate::turso_kvdb::turso_new_steps(b, path_is_dir).len(),
        crate::turso_kvdb::turso_new_steps(a, path_is_dir)[i]
            == crate::turso_kvdb::turso_new_steps(b, path_is_dir)[i],
{
}

/// Whether `call` executes, or starts the query of, the statement with this text.
pub open spec fn asks_for(call: TursoCall, text: Seq<char>) -> bool {
    match call {
        TursoCall::Prepare { sql } => sql.text() == text,
        TursoCall::Execute { sql } => sql.text() == text,
        TursoCall::Query { sql } => sql.text() == text,
        _ => false,
    }
}

/// Opening asks for the write-ahead log, for its syncing, for the cache and for the checkpoints,
/// in this order, and then creates the tables. The cache size it asks for is the negated number of
/// whole KiB in the configured number of bytes.
pub proof fn law_turso_opening_asks_for_its_settings(config: RocksDbConfig, path_is_dir: bool)
    ensures
        ({
            let steps = crate::turso_kvdb::turso_new_steps(config, path_is_dir);
            &&& steps.len() == 9
            &&& steps[0].action is BuildRuntime
            &&& steps[2].action is Connect
            &&& steps[3].action is Query && asks_for(
                steps[3].action,
                "PRAGMA journal_mode = WAL"@,
            )
            &&& steps[4].action is DrainRow
            &&& steps[5].action is Execute && asks_for(
                steps[5].action,
                "PRAGMA synchronous = NORMAL"@,
            )
            &&& steps[6].action matches TursoCall::Execute { sql: Sql::CacheSize(n) }
            &&& asks_for(
                steps[6].action,
                "PRAGMA cache_size = "@ + crate::decimal::decimal(n as int),
            )
            &&& config.cache_size <= i64::MAX ==> n <= 0 && -n * 1024 <= config.cache_size < (1 - n)
                * 1024
            &&& config.cache_size > i64::MAX ==> n >= 0 && n * 1024 <= 0x1_0000_0000_0000_0000
                - config.cache_size < (1 + n) * 1024
            &&& steps[7].action is Execute && asks_for(
                steps[7].action,
                "PRAGMA wal_autocheckpoint = 1000"@,
            )
            &&& steps[8].action == TursoCall::ExecuteBatch { sql: Sql::CreateTables }
        }),
{
}

/// A put prepares the statement that puts its first parameter into the key column and its second
/// into the value column of the table, and executes it with the key and the value.
pub proof fn law_turso_put_asks_for_the_entry(name: Seq<char>, key: Seq<u8>, value: Seq<u8>)
    ensures
        ({
            let steps = crate::turso_kvdb::turso_put_steps(name, key, value);
            &&& steps.len() == 2
            &&& steps[0].action is Prepare && asks_for(
                steps[0].action,
                "INSERT OR REPLACE INTO "@ + name + " (key, value) VALUES (?, ?)"@,
            )
            &&& steps[1].action matches TursoCall::ExecutePrepared { params }
            &&& params.len() == 2
            &&& params[0] == key
            &&& params[1] == value
        }),
{
}

/// A delete, on its own or in a batch, prepares the statement that removes the row of the table
/// whose key column is its parameter, and executes it with the key.
pub proof fn law_turso_delete_asks_for_the_key(name: Seq<char>, key: Seq<u8>)
    ensures
        ({
            let steps = crate::turso_kvdb::turso_delete_steps(name, key);
            &&& steps.len() == 2
            &&& steps[0].action is Prepare && asks_for(
                steps[0].action,
                "DELETE FROM "@ + name + " WHERE key = ?"@,
            )
            &&& steps[1].action matches TursoCall::ExecutePrepared { params }
            &&& params.len() == 1
            &&& params[0] == key
        }),
{
}

/// A read prepares the query for the value column of the row of the table whose key column is its
/// parameter, starts it with the key, and fetches one row.
pub proof fn law_turso_get_asks_for_the_value(name: Seq<char>, key: Seq<u8>)
    ensures
        ({
            let steps = crate::turso_kvdb::turso_get_steps(name, key);
            &&& steps.len() == 3
            &&& steps[0].action is Prepare && asks_for(
                steps[0].action,
                "SELECT value FROM "@ + name + " WHERE key = ?"@,
            )
            &&& steps[1].action matches TursoCall::QueryPrepared { params }
            &&& params.len() == 1
            &&& params[0] == key
            &&& steps[2].action is FetchRow
        }),
{
}

/// An iteration prepares the query for the key and the value column of every row of the table, in
/// ascending order of the keys, and starts it without parameters.
pub proof fn law_turso_iter_asks_for_all_entries_in_order(name: Seq<char>)
    ensures
        ({
            let steps = crate::turso_kvdb::turso_iter_steps(name);
            &&& steps.len() == 2
            &&& steps[0].action is Prepare && asks_for(
                steps[0].action,
                "SELECT key, value FROM "@ + name + " ORDER BY key"@,
            )
            &&& steps[1].action matches TursoCall::QueryPrepared { params }
            &&& params.len() == 0
        }),
{
}

/// The transactions of batches and snapshots are started, anchored, committed and taken back by
/// these statements, and a sync flushes the cache and asks for a full checkpoint.
pub proof fn law_turso_transactions_ask_for()
    ensures
        ({
            let batch = crate::turso_kvdb::turso_batch_steps();
            let commit = crate::turso_kvdb::turso_commit_steps(false);
            let back = crate::turso_kvdb::turso_commit_steps(true);
            let close = crate::turso_kvdb::turso_close_steps();
            let snapshot = crate::turso_kvdb::turso_snapshot_steps();
            let sync = crate::turso_kvdb::turso_sync_steps();
            &&& batch.len() == 1 && batch[0].action is Execute && asks_for(
                batch[0].action,
                "BEGIN DEFERRED"@,
            )
            &&& commit.len() == 1 && commit[0].action is Execute && asks_for(
                commit[0].action,
                "COMMIT"@,
            )
            &&& back.len() == 1 && back[0].action is Execute && asks_for(
                back[0].action,
                "ROLLBACK"@,
            )
            &&& close.len() == 2 && close[0].action is CheckAutocommit && close[1].action is Execute
                && asks_for(close[1].action, "ROLLBACK"@)
            &&& snapshot.len() == 4 && snapshot[0].action is Connect && snapshot[1].action is Execute
                && asks_for(snapshot[1].action, "BEGIN DEFERRED"@) && snapshot[2].action is Query
                && asks_for(snapshot[2].action, "SELECT 1 FROM sqlite_schema LIMIT 1"@)
                && snapshot[3].action is DrainRow
            &&& sync.len() == 3 && sync[0].action is CacheFlush && sync[1].action is Query
                && asks_for(sync[1].action, "PRAGMA wal_checkpoint(FULL)"@)
                && sync[2].action is DrainRow
        }),
{
}

/// Whether the error of every one of the calls `steps` is returned.
pub open spec fn returns_errors(steps: Seq<Step<TursoCall>>) -> bool {
    forall|i: int| 0 <= i < steps.len() ==> (#[trigger] steps[i]).on_error == OnError::Return
}

/// An operation that has a result returns the error of any of its calls: none is passed over, and
/// none makes it panic. Of opening, this holds of every call but those for the settings.
pub proof fn law_turso_errors_are_returned(
    config: RocksDbConfig,
    path_is_dir: bool,
    name: Seq<char>,
    key: Seq<u8>,
    value: Seq<u8>,
)
    ensures
        returns_errors(crate::turso_kvdb::turso_new_steps(config, path_is_dir).take(3)),
        returns_errors(crate::turso_kvdb::turso_new_steps(config, path_is_dir).skip(8)),
        returns_errors(crate::turso_kvdb::turso_delete_steps(name, key)),
        returns_errors(crate::turso_kvdb::turso_snapshot_steps()),
        returns_errors(crate::turso_kvdb::turso_sync_steps()),
        returns_errors(crate::turso_kvdb::turso_get_steps(name, key)),
        returns_errors(crate::turso_kvdb::turso_iter_steps(name)),
        returns_errors(crate::turso_kvdb::turso_put_steps(name, key, value)),
        returns_errors(crate::turso_kvdb::turso_commit_steps(false)),
{
}

/// Starting a batch panics where its transaction cannot be started, with the error.
pub proof fn law_turso_batch_start_panics(reply: TursoReply, e: StorageError)
    requires
        reply.failure() == Some(e),
    ensures
        crate::turso_laws::turso_end(crate::turso_kvdb::turso_batch_steps(), seq![reply]) == Some(
            TursoEnd::Panicked(PanicReason::TursoBegin, e),
        ),
{
}

/// Taking a transaction back reports no error: a rollback that fails is passed over, and so, with
/// the rollback, is a question for the transaction that fails.
pub proof fn law_turso_taking_back_reports_nothing()
    ensures
        ({
            let close = crate::turso_kvdb::turso_close_steps();
            let back = crate::turso_kvdb::turso_commit_steps(true);
            &&& crate::script::after(close, Signal::Fail).0.len() == 0
            &&& crate::script::after(close, Signal::Fail).1 == Verdict::Finished
            &&& crate::script::after(close.skip(1), Signal::Fail).0.len() == 0
            &&& crate::script::after(close.skip(1), Signal::Fail).1 == Verdict::Finished
            &&& crate::script::after(back, Signal::Fail).0.len() == 0
            &&& crate::script::after(back, Signal::Fail).1 == Verdict::Finished
        }),
{
}

// REPLIES
// ================================================================================================

/// A reply is a failure exactly where turso, or the runtime, returned an error, and the error of the
/// operation is that error. A row that is only drained is asked for again; a connection outside a
/// transaction leaves nothing to do; after any other reply the operation goes on.
pub proof fn law_turso_reply_is_taken(steps: Seq<Step<TursoCall>>, reply: TursoReply)
    requires
        steps.len() > 0,
    ensures
        reply.failure() == (match reply {
            TursoReply::Failed(e) => Some(StorageError::Backend(BackendError::Turso(e))),
            TursoReply::RuntimeFailed(e) => Some(StorageError::Backend(BackendError::Runtime(e))),
            _ => None,
        }),
        crate::turso_kvdb::turso_after(steps, reply) == crate::script::after(
            steps,
            match reply {
                TursoReply::Failed(_) => Signal::Fail,
                TursoReply::RuntimeFailed(_) => Signal::Fail,
                TursoReply::Autocommit(true) => Signal::Finish,
                TursoReply::Row(_) => if steps[0].action is DrainRow {
                    Signal::Repeat
                } else {
                    Signal::Advance
                },
                _ => Signal::Advance,
            },
        ),
{
}

/// What an operation returns says the columns of the row that the caller gets, or that there is
/// none.
pub proof fn law_turso_output_says_its_row(out: TursoOutput)
    ensures
        (match out {
            TursoOutput::Done => out@ == TursoAnswer::Done,
            TursoOutput::Row(None) => out@ == TursoAnswer::Row(None),
            TursoOutput::Row(Some(row)) => out@ == TursoAnswer::Row(
                Some(crate::turso_row::row_columns(row)),
            ),
        }),
{
}

/// A read returns the row that turso returned for the key, or that there is none.
pub proof fn law_turso_get_returns_the_row(name: Seq<char>, key: Seq<u8>, row: turso::Row)
    ensures
        ({
            let steps = crate::turso_kvdb::turso_get_steps(name, key);
            let done = TursoReply::Done;
            &&& crate::turso_laws::turso_end(steps, seq![done, done, TursoReply::Row(row)]) == Some(
                TursoEnd::Returned(TursoAnswer::Row(Some(crate::turso_row::row_columns(row)))),
            )
            &&& crate::turso_laws::turso_end(steps, seq![done, done, TursoReply::End]) == Some(
                TursoEnd::Returned(TursoAnswer::Row(None)),
            )
        }),
{
    let steps = crate::turso_kvdb::turso_get_steps(name, key);
    lemma_read_ends(steps, TursoReply::Row(row));
    lemma_read_ends(steps, TursoReply::End);
}

/// Three calls that succeed return what the third returned.
proof fn lemma_read_ends(steps: Seq<Step<TursoCall>>, last: TursoReply)
    requires
        steps.len() == 3,
        forall|i: int| 0 <= i < 3 ==> !((#[trigger] steps[i]).action is DrainRow),
        last.failure() is None,
        !(last is Autocommit),
    ensures
        crate::turso_laws::turso_end(steps, seq![TursoReply::Done, TursoReply::Done, last]) == Some(
            TursoEnd::Returned(last.output()),
        ),
{
    let done = TursoReply::Done;
    let one = steps.skip(1).skip(1);
    assert(one[0] == steps[2]);
    assert(seq![done, done, last].skip(1) =~= seq![done, last]);
    assert(seq![done, last].skip(1) =~= seq![last]);
    assert(crate::turso_laws::turso_end(one, seq![last]) == Some(
        TursoEnd::Returned(last.output()),
    ));
    assert(crate::turso_laws::turso_end(steps.skip(1), seq![done, last]) == Some(
        TursoEnd::Returned(last.output()),
    ));
}

/// A caller gets all bytes of the first column of the row that was read, no value where that column
/// does not hold bytes or there is no row, and the error of turso where the row has no column.
pub proof fn law_turso_value_is_the_first_column(
    r: StorageResult<Option<Vec<u8>>>,
    answer: TursoAnswer,
)
    requires
        crate::turso_kvdb::is_answered_value(r, answer),
    ensures
        match answer {
            TursoAnswer::Row(Some(columns)) => if columns.len() == 0 {
                r matches Err(StorageError::Backend(BackendError::Turso(e))) && e
                    == crate::turso_row::missing_column_error(0, 0)
            } else {
                match columns[0] {
                    Cell::Blob(bytes) => r matches Ok(Some(v)) && v@ == bytes,
                    _ => r matches Ok(None),
                }
            },
            _ => r matches Ok(None),
        },
{
}

/// A read returns to its caller the very value that its connection sees under the key, or that
/// there is none.
pub proof fn law_turso_get_returns_the_visible_value(
    s: TursoState,
    name: Seq<char>,
    key: Seq<u8>,
    replies: Seq<TursoReply>,
    out: TursoOutput,
    r: StorageResult<Option<Vec<u8>>>,
)
    requires
        s.visible().contains_key(name),
        crate::turso_laws::turso_replies(
            s,
            crate::turso_kvdb::turso_get_steps(name, key),
            replies,
        ),
        crate::turso_laws::turso_end(crate::turso_kvdb::turso_get_steps(name, key), replies) == Some(
            TursoEnd::Returned(out@),
        ),
        crate::turso_kvdb::is_answered_value(r, out@),
    ensures
        match crate::tables::lookup(s.visible(), name, key) {
            Some(value) => r matches Ok(Some(v)) && v@ == value,
            None => r matches Ok(None),
        },
{
    crate::turso_laws::law_turso_run_returns(
        s,
        crate::turso_kvdb::turso_get_steps(name, key),
        replies,
    );
    crate::turso_laws::law_turso_get(s, name, key);
}

} // verus!
