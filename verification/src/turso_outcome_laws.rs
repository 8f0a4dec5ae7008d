//! What every call of the turso storage comes to, whatever it is called with.
//!
//! Each law speaks of the outcome of a call, and says what that outcome asks turso for, what it does
//! on a database, or what the caller finds in it.

use vstd::prelude::*;

use crate::config::{DatabaseFileView, RocksDbConfig};
use crate::error::{BackendError, StorageError, StorageResult};
use crate::script::{OnError, Progress, Step};
use crate::tables::{Op, Tables};
use crate::turso_kvdb::{
    TursoCall, TursoKVDB, TursoKVDBBatch, TursoKVDBSnapshot, TursoOutput, TursoReply, TursoRun,
};
use crate::turso_laws::{Query, Ran, TursoState, Txn, Use};
use crate::turso_row::Cell;
use crate::turso_sql::Sql;
use crate::turso_table::TursoTable;

verus! {

// TURSO KVDB
// ================================================================================================

/// The tables in the file that the second of the calls `steps` opens.
pub open spec fn turso_opened(
    files: Map<DatabaseFileView, Tables>,
    steps: Seq<Step<TursoCall>>,
) -> Tables {
    match steps[1].action {
        TursoCall::Open { file } => crate::redb_outcome_laws::held(files, file),
        _ => Map::empty(),
    }
}

/// Opening opens the configured file and no other, creates every table in it, and keeps what the
/// file holds.
pub proof fn law_turso_new_outcome(
    config: RocksDbConfig,
    path_is_dir: bool,
    run: TursoRun,
    s: TursoState,
    files: Map<DatabaseFileView, Tables>,
)
    requires
        call_ensures(TursoKVDB::new, (config, path_is_dir), run),
        s.committed == turso_opened(files, run@),
    ensures
        run@ == crate::turso_kvdb::turso_new_steps(config, path_is_dir),
        ({
            let file = if path_is_dir {
                DatabaseFileView::Inside(config.path, "data.turso"@)
            } else {
                DatabaseFileView::Given(config.path)
            };
            let (t, end) = crate::turso_laws::turso_run(s, run@);
            &&& run@.len() > 1
            &&& run@[1].action == TursoCall::Open { file }
            &&& forall|i: int|
                0 <= i < run@.len() && i != 1 ==> !((#[trigger] run@[i]).action is Open)
            &&& end is Returned
            &&& t.ready()
            &&& t.committed == crate::tables::with_tables(
                crate::redb_outcome_laws::held(files, file),
                crate::schema::schema(),
            )
        }),
{
    crate::turso_call_laws::law_turso_opens_the_configured_file(config, path_is_dir);
    crate::turso_laws::law_turso_new(s, config, path_is_dir);
}

/// A delete asks turso to remove the row with its key from its table. Outside a batch the key is then
/// gone, and nothing else; in a batch the removal joins the batch.
pub proof fn law_turso_delete_outcome(
    db: &TursoKVDB,
    table: &TursoTable,
    key: &[u8],
    run: TursoRun,
    s: TursoState,
)
    requires
        call_ensures(TursoKVDB::delete, (db, table, key), run),
        s.txn is Auto || s.in_batch(),
        crate::tables::complete(s.visible()),
        crate::schema::schema().contains(table@),
    ensures
        crate::turso_call_laws::returns_errors(run@),
        asks(run@, "DELETE FROM "@ + table@ + " WHERE key = ?"@, seq![key@]),
        ({
            let (t, end) = crate::turso_laws::turso_run(s, run@);
            &&& end is Returned
            &&& s.txn is Auto ==> t.txn is Auto
            &&& !(s.txn is Auto) ==> t.committed == s.committed
            &&& forall|name: Seq<char>, k: Seq<u8>| #[trigger]
                crate::tables::lookup(t.visible(), name, k) == (if name == table@ && k == key@ {
                    None
                } else {
                    crate::tables::lookup(s.visible(), name, k)
                })
        }),
{
    if s.txn is Auto {
        crate::turso_laws::law_turso_delete(s, table@, key@);
    } else {
        crate::turso_laws::law_turso_delete_joins_batch(s, table@, key@);
    }
}

/// Whether `steps` prepare the statement with this text and execute it with these parameters.
pub open spec fn asks(
    steps: Seq<Step<TursoCall>>,
    text: Seq<char>,
    params: Seq<Seq<u8>>,
) -> bool {
    &&& steps.len() == 2
    &&& steps[0].action is Prepare
    &&& crate::turso_call_laws::asks_for(steps[0].action, text)
    &&& steps[1].action == TursoCall::ExecutePrepared { params }
}

/// A batch starts a transaction, without an error of its own and not committed. Where it cannot be
/// started it panics.
pub proof fn law_turso_batch_outcome(db: &TursoKVDB, r: (TursoRun, TursoKVDBBatch), s: TursoState)
    requires
        call_ensures(TursoKVDB::batch, (db,), r),
        s.txn is Auto,
    ensures
        r.1.error() is None,
        !r.1.committed(),
        r.0@.len() == 1,
        r.0@[0].on_error is Panic,
        r.0@[0].action is Execute,
        crate::turso_call_laws::asks_for(r.0@[0].action, "BEGIN DEFERRED"@),
        ({
            let (t, end) = crate::turso_laws::turso_run(s, r.0@);
            &&& end is Returned
            &&& t.in_batch()
            &&& t.visible() == s.committed
            &&& t.committed == s.committed
        }),
{
}

/// A snapshot sees what is committed when it starts.
pub proof fn law_turso_snapshot_outcome(
    db: &TursoKVDB,
    r: (TursoRun, TursoKVDBSnapshot),
    s: TursoState,
)
    requires
        call_ensures(TursoKVDB::snapshot, (db,), r),
    ensures
        crate::turso_call_laws::returns_errors(r.0@),
        r.0@ == crate::turso_kvdb::turso_snapshot_steps(),
        ({
            let (t, end) = crate::turso_laws::turso_run(s, r.0@);
            &&& end is Returned
            &&& t.txn == Txn::Reading(s.committed)
            &&& t.committed == s.committed
        }),
{
    crate::turso_laws::law_turso_snapshot(s);
}

/// A sync flushes the cache and runs a full checkpoint to its end.
pub proof fn law_turso_sync_outcome(db: &TursoKVDB, run: TursoRun, s: TursoState)
    requires
        call_ensures(TursoKVDB::sync, (db,), run),
        s.txn is Auto,
        !s.iterating,
    ensures
        crate::turso_call_laws::returns_errors(run@),
        run@.len() == 3,
        run@[0].action is CacheFlush,
        run@[1].action is Query,
        crate::turso_call_laws::asks_for(run@[1].action, "PRAGMA wal_checkpoint(FULL)"@),
        run@[2].action is DrainRow,
        ({
            let (t, end) = crate::turso_laws::turso_run(s, run@);
            &&& end is Returned
            &&& t.committed == s.committed
            &&& !s.others ==> t.flushed
        }),
{
    crate::turso_laws::law_turso_sync(s);
}

/// A read, on the database and in a snapshot alike, asks turso for the value in the row with its key
/// of its table, and returns the value that the connection sees there.
pub proof fn law_turso_get_outcome(
    db: &TursoKVDB,
    snapshot: &TursoKVDBSnapshot,
    table: &TursoTable,
    key: &[u8],
    run: TursoRun,
    taken: TursoRun,
    s: TursoState,
)
    requires
        call_ensures(TursoKVDB::get, (db, table, key), run),
        call_ensures(TursoKVDBSnapshot::get, (snapshot, table, key), taken),
        s.visible().contains_key(table@),
    ensures
        taken@ == run@,
        crate::turso_call_laws::returns_errors(run@),
        run@.len() == 3,
        run@[0].action is Prepare,
        crate::turso_call_laws::asks_for(
            run@[0].action,
            "SELECT value FROM "@ + table@ + " WHERE key = ?"@,
        ),
        run@[1].action == (TursoCall::QueryPrepared { params: seq![key@] }),
        run@[2].action is FetchRow,
        ({
            let (t, end) = crate::turso_laws::turso_run(s, run@);
            &&& end matches Ran::Returned(answer)
            &&& crate::turso_laws::answered_value(answer) == crate::tables::lookup(
                s.visible(),
                table@,
                key@,
            )
            &&& t.committed == s.committed
        }),
{
    crate::turso_laws::law_turso_get(s, table@, key@);
}

/// An iteration, on the database and in a snapshot alike, asks turso for the key and the value of
/// every row of its table in ascending order of the keys.
pub proof fn law_turso_iter_outcome(
    db: &TursoKVDB,
    snapshot: &TursoKVDBSnapshot,
    table: TursoTable,
    run: TursoRun,
    taken: TursoRun,
    s: TursoState,
)
    requires
        call_ensures(TursoKVDB::iter, (db, table), run),
        call_ensures(TursoKVDBSnapshot::iter, (snapshot, table), taken),
        s.visible().contains_key(table@),
    ensures
        taken@ == run@,
        crate::turso_call_laws::returns_errors(run@),
        run@.len() == 2,
        run@[0].action is Prepare,
        crate::turso_call_laws::asks_for(
            run@[0].action,
            "SELECT key, value FROM "@ + table@ + " ORDER BY key"@,
        ),
        run@[1].action == (TursoCall::QueryPrepared { params: Seq::empty() }),
        ({
            let (t, end) = crate::turso_laws::turso_run(s, run@);
            &&& end is Returned
            &&& t.query == Query::Started(Sql::SelectAll(table@), Seq::empty())
            &&& t.visible() == s.visible()
            &&& t.committed == s.committed
        }),
{
    crate::turso_laws::law_turso_iter(s, table@);
}

/// A table is found exactly under its own name, on the database and on a snapshot alike, and its
/// handle, and every clone of it, has that name. The error for any other name quotes the name.
pub proof fn law_turso_table_outcome(
    db: &TursoKVDB,
    snapshot: &TursoKVDBSnapshot,
    name: &str,
    found: StorageResult<TursoTable>,
    taken: StorageResult<TursoTable>,
    handle_name: &'static str,
    copy: TursoTable,
)
    requires
        call_ensures(TursoKVDB::table, (db, name), found),
        call_ensures(TursoKVDBSnapshot::table, (snapshot, name), taken),
        found matches Ok(table) ==> call_ensures(TursoTable::name, (&table,), handle_name)
            && call_ensures(TursoTable::clone, (&table,), copy),
    ensures
        found is Ok <==> crate::schema::schema().contains(name@),
        taken is Ok <==> crate::schema::schema().contains(name@),
        found matches Ok(table) ==> table@ == name@ && handle_name@ == name@ && copy@ == name@,
        taken matches Ok(table) ==> table@ == name@,
        found matches Err(e) ==> (e matches StorageError::Unsupported(text) && text@
            == "unknown table `"@ + name@ + "`"@),
        taken matches Err(e) ==> (e matches StorageError::Unsupported(text) && text@
            == "unknown table `"@ + name@ + "`"@),
{
}

// TURSO KVDB BATCH
// ================================================================================================

/// A put of a batch without an error asks turso to put its value under its key into its table, and
/// the connection then sees it; on a batch with an error it does nothing.
pub proof fn law_turso_put_outcome(
    batch: &TursoKVDBBatch,
    table: &TursoTable,
    key: &[u8],
    value: &[u8],
    run: TursoRun,
    s: TursoState,
)
    requires
        call_ensures(TursoKVDBBatch::put, (batch, table, key, value), run),
        s.in_batch(),
        crate::tables::complete(s.visible()),
        crate::schema::schema().contains(table@),
    ensures
        batch.error() is Some ==> run@.len() == 0,
        crate::turso_call_laws::returns_errors(run@),
        batch.error() is None ==> asks(
            run@,
            "INSERT OR REPLACE INTO "@ + table@ + " (key, value) VALUES (?, ?)"@,
            seq![key@, value@],
        ),
        batch.error() is None ==> ({
            let (t, end) = crate::turso_laws::turso_run(s, run@);
            &&& end is Returned
            &&& t.committed == s.committed
            &&& t.visible() == crate::tables::apply(s.visible(), Op::Put(table@, key@, value@))
        }),
{
    lemma_one_operation(s, Op::Put(table@, key@, value@));
}

/// A delete of a batch without an error asks turso to remove the row with its key from its table,
/// and the connection then does not see it; on a batch with an error it does nothing.
pub proof fn law_turso_batch_delete_outcome(
    batch: &TursoKVDBBatch,
    table: &TursoTable,
    key: &[u8],
    run: TursoRun,
    s: TursoState,
)
    requires
        call_ensures(TursoKVDBBatch::delete, (batch, table, key), run),
        s.in_batch(),
        crate::tables::complete(s.visible()),
        crate::schema::schema().contains(table@),
    ensures
        batch.error() is Some ==> run@.len() == 0,
        crate::turso_call_laws::returns_errors(run@),
        batch.error() is None ==> asks(
            run@,
            "DELETE FROM "@ + table@ + " WHERE key = ?"@,
            seq![key@],
        ),
        batch.error() is None ==> ({
            let (t, end) = crate::turso_laws::turso_run(s, run@);
            &&& end is Returned
            &&& t.committed == s.committed
            &&& t.visible() == crate::tables::apply(s.visible(), Op::Delete(table@, key@))
        }),
{
    lemma_one_operation(s, Op::Delete(table@, key@));
}

/// One operation of a batch.
proof fn lemma_one_operation(s: TursoState, op: Op)
    requires
        s.in_batch(),
        crate::tables::complete(s.visible()),
        crate::schema::schema().contains(op.table()),
    ensures
        ({
            let (t, end) = crate::turso_laws::turso_run(s, crate::turso_laws::turso_op_steps(op));
            &&& end is Returned
            &&& t.committed == s.committed
            &&& t.visible() == crate::tables::apply(s.visible(), op)
        }),
{
    let ops = seq![op];
    assert(ops.skip(1) =~= Seq::empty());
    assert(crate::turso_laws::turso_ops_steps(ops.skip(1)) =~= Seq::empty());
    assert(crate::turso_laws::turso_ops_steps(ops) =~= crate::turso_laws::turso_op_steps(op));
    let tables = crate::tables::apply(s.visible(), op);
    assert(crate::tables::apply_all(tables, ops.skip(1)) == tables);
    crate::turso_laws::law_turso_batch_operations(s, ops);
}

/// A batch takes note of an error exactly where it has none yet and the operation failed.
pub proof fn law_turso_record_outcome(
    batch: &mut TursoKVDBBatch,
    outcome: Result<TursoOutput, StorageError>,
)
    requires
        call_ensures(TursoKVDBBatch::record, (batch, outcome), ()),
    ensures
        final(batch).committed() == old(batch).committed(),
        old(batch).error() is Some ==> final(batch).error() == old(batch).error(),
        old(batch).error() is None ==> (match outcome {
            Ok(_) => final(batch).error() is None,
            Err(e) => final(batch).error() == Some(e),
        }),
{
}

/// Committing a batch asks turso to commit, and what its connection sees is then committed; a batch
/// with an error asks turso to take its transaction back, and nothing is committed.
pub proof fn law_turso_commit_outcome(batch: &mut TursoKVDBBatch, run: TursoRun, s: TursoState)
    requires
        call_ensures(TursoKVDBBatch::commit, (batch,), run),
        s.in_batch(),
    ensures
        final(batch).error() == old(batch).error(),
        old(batch).error() is Some ==> final(batch).committed(),
        old(batch).error() is None ==> final(batch).committed() == old(batch).committed(),
        run@.len() == 1,
        run@[0].action is Execute,
        crate::turso_call_laws::asks_for(
            run@[0].action,
            if old(batch).error() is Some {
                "ROLLBACK"@
            } else {
                "COMMIT"@
            },
        ),
        run@[0].on_error == (if old(batch).error() is Some {
            OnError::Skip(0)
        } else {
            OnError::Return
        }),
        ({
            let (t, end) = crate::turso_laws::turso_run(s, run@);
            &&& end is Returned
            &&& t.txn is Auto
            &&& t.committed == (if old(batch).error() is Some {
                s.committed
            } else {
                s.visible()
            })
        }),
{
    crate::turso_laws::law_turso_commit(s);
    crate::turso_laws::law_turso_failed_commit(s);
}

/// What committing returns is the error that the batch kept, else what came of the commit; only a
/// commit that succeeded makes the batch a committed one.
pub proof fn law_turso_finish_outcome(
    batch: &mut TursoKVDBBatch,
    outcome: Result<TursoOutput, StorageError>,
    r: StorageResult<()>,
)
    requires
        call_ensures(TursoKVDBBatch::finish, (batch, outcome), r),
    ensures
        old(batch).error() matches Some(e) ==> r == Err::<(), StorageError>(e),
        old(batch).error() is None ==> (match outcome {
            Ok(_) => r is Ok,
            Err(e) => r == Err::<(), StorageError>(e),
        }),
        r is Ok ==> final(batch).committed(),
        r is Err ==> final(batch).committed() == old(batch).committed(),
{
}

/// A batch that goes out of scope asks turso to take back a transaction that is still open, unless
/// it has been committed; then it asks for nothing. It commits nothing.
pub proof fn law_turso_batch_close_outcome(batch: &TursoKVDBBatch, run: TursoRun, s: TursoState)
    requires
        call_ensures(TursoKVDBBatch::close, (batch,), run),
    ensures
        batch.committed() ==> run@.len() == 0,
        !batch.committed() ==> run@ == crate::turso_kvdb::turso_close_steps(),
        !batch.committed() ==> crate::turso_laws::turso_run(s, run@).0.txn is Auto,
        crate::turso_laws::turso_run(s, run@).0.committed == s.committed,
{
    crate::turso_laws::law_turso_close(s);
}

/// A snapshot that goes out of scope asks turso to end its transaction, and commits nothing.
pub proof fn law_turso_snapshot_close_outcome(
    snapshot: &TursoKVDBSnapshot,
    run: TursoRun,
    s: TursoState,
)
    requires
        call_ensures(TursoKVDBSnapshot::close, (snapshot,), run),
    ensures
        run@ == crate::turso_kvdb::turso_close_steps(),
        crate::turso_laws::turso_run(s, run@).0.txn is Auto,
        crate::turso_laws::turso_run(s, run@).0.committed == s.committed,
{
    crate::turso_laws::law_turso_close(s);
}

/// What a batch puts and commits is what a read then returns.
pub proof fn law_turso_put_then_get(
    db: &TursoKVDB,
    begun: (TursoRun, TursoKVDBBatch),
    table: &TursoTable,
    key: &[u8],
    value: &[u8],
    put: TursoRun,
    get: TursoRun,
    s: TursoState,
)
    requires
        call_ensures(TursoKVDB::batch, (db,), begun),
        call_ensures(TursoKVDBBatch::put, (&begun.1, table, key, value), put),
        call_ensures(TursoKVDB::get, (db, table, key), get),
        s.txn is Auto,
        crate::tables::complete(s.committed),
        crate::schema::schema().contains(table@),
    ensures
        ({
            let commit = crate::turso_kvdb::turso_commit_steps(false);
            let done = crate::turso_laws::turso_run(s, begun.0@ + put@ + commit).0;
            &&& crate::turso_laws::turso_run(done, get@).1 matches Ran::Returned(answer)
            &&& crate::turso_laws::answered_value(answer) == Some(value@)
        }),
{
    let op = Op::Put(table@, key@, value@);
    let uses = seq![Use::Change(op)];
    let commit = crate::turso_kvdb::turso_commit_steps(false);
    assert(uses.skip(1) =~= Seq::empty());
    assert(crate::turso_laws::turso_uses_steps(uses.skip(1)) =~= Seq::empty());
    assert(crate::turso_laws::changes(uses.skip(1)) =~= Seq::empty());
    assert(crate::turso_laws::changes(uses) =~= seq![op]);
    assert(crate::turso_laws::turso_uses_steps(uses) =~= put@);
    assert(crate::turso_laws::turso_open_batch(uses) + commit =~= begun.0@ + put@ + commit);
    assert(seq![op].last() == op);
    assert(crate::tables::last_change(seq![op], table@, key@) == Some(op));
    crate::turso_laws::law_turso_read_your_writes(s, uses, table@, key@);
}

// RUNS
// ================================================================================================

/// The error that a reply brings.
pub open spec fn turso_error(reply: TursoReply) -> Option<StorageError> {
    match reply {
        TursoReply::Failed(e) => Some(StorageError::Backend(BackendError::Turso(e))),
        TursoReply::RuntimeFailed(e) => Some(StorageError::Backend(BackendError::Runtime(e))),
        _ => None,
    }
}

/// The last reply of a run decides what the run returns: the row that was fetched, and for an error,
/// by the call's own rule, that error, a panic with it, or nothing. Only a row that is drained is
/// asked for again.
pub proof fn law_turso_last_reply_is_returned(
    run: &mut TursoRun,
    reply: TursoReply,
    r: Progress<TursoOutput>,
)
    requires
        call_ensures(TursoRun::resume, (run, reply), r),
        old(run)@.len() == 1,
    ensures
        old(run)@[0].action is DrainRow && reply is Row ==> r is Continue && final(run)@
            == old(run)@,
        !(old(run)@[0].action is DrainRow && reply is Row) ==> final(run)@.len() == 0,
        reply is Done || reply is Autocommit ==> r == Progress::Finished(Ok(TursoOutput::Done)),
        reply is End ==> r == Progress::Finished(Ok(TursoOutput::Row(None))),
        reply matches TursoReply::Row(row) ==> (!(old(run)@[0].action is DrainRow) ==> r
            == Progress::Finished(Ok(TursoOutput::Row(Some(row))))),
        turso_error(reply) matches Some(e) ==> (match old(run)@[0].on_error {
            OnError::Return => r == Progress::<TursoOutput>::Finished(Err(e)),
            OnError::Panic(reason) => r == Progress::<TursoOutput>::Panic(reason, e),
            OnError::Skip(_) => r == Progress::Finished(Ok(TursoOutput::Done)),
        }),
{
}

/// A reply before the last: the run goes on with the next call, makes a draining call again, is over
/// where there is no transaction to take back, or ends with the error.
pub proof fn law_turso_earlier_reply_goes_on(
    run: &mut TursoRun,
    reply: TursoReply,
    r: Progress<TursoOutput>,
)
    requires
        call_ensures(TursoRun::resume, (run, reply), r),
        old(run)@.len() > 1,
    ensures
        old(run)@[0].action is DrainRow && reply is Row ==> r is Continue && final(run)@
            == old(run)@,
        reply == TursoReply::Autocommit(true) ==> r == Progress::Finished(Ok(TursoOutput::Done))
            && final(run)@.len() == 0,
        reply is Done || reply is End || reply == TursoReply::Autocommit(false) || (reply is Row && !(
        old(run)@[0].action is DrainRow)) ==> r is Continue && final(run)@ == old(run)@.subrange(
            1,
            old(run)@.len() as int,
        ),
        turso_error(reply) matches Some(e) ==> (old(run)@[0].on_error is Return ==> r
            == Progress::<TursoOutput>::Finished(Err(e)) && final(run)@.len() == 0),
        turso_error(reply) matches Some(e) ==> (old(run)@[0].on_error matches OnError::Panic(
            reason,
        ) ==> r == Progress::<TursoOutput>::Panic(reason, e) && final(run)@.len() == 0),
        turso_error(reply) is Some ==> (old(run)@[0].on_error matches OnError::Skip(n) ==> if 1 + n
            < old(run)@.len() {
            r is Continue && final(run)@ == old(run)@.subrange(1 + n, old(run)@.len() as int)
        } else {
            r == Progress::Finished(Ok(TursoOutput::Done)) && final(run)@.len() == 0
        }),
{
}

/// The value that a caller takes from a result is the first column of the row that was read.
pub proof fn law_turso_into_value_outcome(out: TursoOutput, r: StorageResult<Option<Vec<u8>>>)
    requires
        call_ensures(TursoOutput::into_value, (out,), r),
    ensures
        match out {
            TursoOutput::Row(Some(row)) => if crate::turso_row::row_columns(row).len() == 0 {
                r matches Err(StorageError::Backend(BackendError::Turso(e))) && e
                    == crate::turso_row::missing_column_error(0, 0)
            } else {
                match crate::turso_row::row_columns(row)[0] {
                    Cell::Blob(bytes) => r matches Ok(Some(v)) && v@ == bytes,
                    _ => r matches Ok(None),
                }
            },
            _ => r matches Ok(None),
        },
{
}

} // verus!
