//! What every call of the redb storage comes to, whatever it is called with.
//!
//! Each law speaks of the outcome of a call, and says what that outcome does on a database, or what
//! the caller finds in it.

use core::ops::Deref;
use vstd::prelude::*;

use crate::config::{DatabaseFileView, RocksDbConfig};
use crate::error::{BackendError, StorageError, StorageResult};
use crate::redb_bytes::RedbBytes;
use crate::redb_kvdb::{
    RedbAnswer, RedbCall, RedbFetched, RedbIter, RedbKVDB, RedbKVDBBatch, RedbKVDBSnapshot,
    RedbOutput, RedbReply, RedbRun,
};
use crate::redb_laws::{RedbState, RedbWrite};
use crate::redb_table::RedbTable;
use crate::script::{OnError, Progress, Step};
use crate::tables::{Op, Tables};

verus! {

// REDB KVDB
// ================================================================================================

/// Opening opens the configured file and no other, creates every table in it, and keeps what the
/// file holds.
pub proof fn law_redb_new_outcome(
    config: RocksDbConfig,
    path_is_dir: bool,
    run: RedbRun,
    s: RedbState,
    files: Map<DatabaseFileView, Tables>,
)
    requires
        call_ensures(RedbKVDB::new, (config, path_is_dir), run),
        s.kept() == redb_opened(files, run@),
    ensures
        ({
            let file = if path_is_dir {
                DatabaseFileView::Inside(config.path, "data.redb"@)
            } else {
                DatabaseFileView::Given(config.path)
            };
            &&& run@[0].action == RedbCall::Create { cache_size: config.cache_size, file }
            &&& crate::redb_call_laws::returns_errors(run@)
            &&& crate::redb_laws::redb_run(s, run@) matches Some((t, _))
            &&& t.ready()
            &&& t.durable == t.committed
            &&& t.committed == crate::tables::with_tables(
                held(files, file),
                crate::schema::schema(),
            )
        }),
{
    let empty = Seq::<u8>::empty();
    crate::redb_call_laws::law_redb_opens_the_configured_file(config, path_is_dir);
    crate::redb_call_laws::law_redb_errors_are_returned(
        config,
        path_is_dir,
        "leaves"@,
        empty,
        empty,
    );
    crate::redb_laws::law_redb_new(s, config, path_is_dir);
}

/// The tables in `file`; a file that does not exist has none.
pub open spec fn held(files: Map<DatabaseFileView, Tables>, file: DatabaseFileView) -> Tables {
    if files.contains_key(file) {
        files[file]
    } else {
        Map::empty()
    }
}

/// The tables in the file that the first of the calls `steps` opens.
pub open spec fn redb_opened(
    files: Map<DatabaseFileView, Tables>,
    steps: Seq<Step<RedbCall>>,
) -> Tables {
    match steps[0].action {
        RedbCall::Create { file, .. } => held(files, file),
        _ => Map::empty(),
    }
}

/// A delete removes its key from its table, and that only; it is committed and synced.
pub proof fn law_redb_delete_outcome(
    db: &RedbKVDB,
    table: &RedbTable,
    key: &[u8],
    run: RedbRun,
    s: RedbState,
)
    requires
        call_ensures(RedbKVDB::delete, (db, table, key), run),
        s.write is None,
    ensures
        crate::redb_call_laws::returns_errors(run@),
        crate::redb_laws::redb_run(s, run@) matches Some((t, _)) && t.durable == t.committed && (
        forall|name: Seq<char>, k: Seq<u8>| #[trigger]
            crate::tables::lookup(t.committed, name, k) == (if name == table@ && k == key@ {
                None
            } else {
                crate::tables::lookup(s.committed, name, k)
            })),
{
    crate::redb_laws::law_redb_delete(s, table@, key@);
}

/// A batch starts without an error; its transaction sees what is committed, and its commit will not
/// be synced. Where it cannot be started it panics.
pub proof fn law_redb_batch_outcome(db: &RedbKVDB, r: (RedbRun, RedbKVDBBatch), s: RedbState)
    requires
        call_ensures(RedbKVDB::batch, (db,), r),
        s.write is None,
    ensures
        r.1.error() is None,
        forall|i: int| 0 <= i < r.0@.len() ==> (#[trigger] r.0@[i]).on_error is Panic,
        r.0@ == crate::redb_kvdb::redb_batch_steps(),
        crate::redb_laws::redb_run(s, r.0@) matches Some((t, _)) && t.write == Some(
            RedbWrite { tables: s.committed, immediate: false },
        ) && t.dropped() == s.dropped(),
{
    let steps = crate::redb_kvdb::redb_batch_steps();
    let t = (crate::redb_laws::redb_perform(s, steps[0].action)->0).0;
    assert(steps.skip(1) =~= seq![steps[1]]);
    assert(crate::redb_laws::redb_run(t, seq![steps[1]]) == crate::redb_laws::redb_perform(
        t,
        steps[1].action,
    ));
}

/// A snapshot sees what is committed when it starts.
pub proof fn law_redb_snapshot_outcome(db: &RedbKVDB, r: (RedbRun, RedbKVDBSnapshot), s: RedbState)
    requires
        call_ensures(RedbKVDB::snapshot, (db,), r),
    ensures
        crate::redb_call_laws::returns_errors(r.0@),
        crate::redb_laws::redb_run(s, r.0@) matches Some((t, _)) && t.read == Some(s.committed)
            && t.dropped() == s.dropped(),
{
    crate::redb_laws::law_redb_snapshot(s);
}

/// A sync makes what is committed durable.
pub proof fn law_redb_sync_outcome(db: &RedbKVDB, run: RedbRun, s: RedbState)
    requires
        call_ensures(RedbKVDB::sync, (db,), run),
        s.write is None,
    ensures
        crate::redb_call_laws::returns_errors(run@),
        crate::redb_laws::redb_run(s, run@) matches Some((t, _)) && t.durable == s.committed
            && t.committed == s.committed,
{
    crate::redb_laws::law_redb_sync(s);
}

/// A read returns the value that is committed under its key in its table.
pub proof fn law_redb_get_outcome(
    db: &RedbKVDB,
    table: &RedbTable,
    key: &[u8],
    run: RedbRun,
    s: RedbState,
)
    requires
        call_ensures(RedbKVDB::get, (db, table, key), run),
        s.write is None,
        crate::tables::complete(s.committed),
        crate::schema::schema().contains(table@),
    ensures
        crate::redb_call_laws::returns_errors(run@),
        crate::redb_laws::redb_run(s, run@) matches Some((t, answer)) && answer
            == RedbAnswer::Value(crate::tables::lookup(s.committed, table@, key@)) && t.dropped()
            == s.dropped(),
{
    let read = crate::redb_kvdb::redb_read_steps(table@, key@);
    let begin = crate::redb_kvdb::redb_snapshot_steps();
    crate::redb_laws::law_redb_get(s, table@, key@);
    assert forall|i: int| 0 <= i < run@.len() implies (#[trigger] run@[i]).on_error
        == OnError::Return by {
        assert(run@[i] == (if i < begin.len() {
            begin[i]
        } else {
            read[i - begin.len()]
        }));
    }
}

/// A read in a snapshot returns the value that the snapshot has under its key in its table.
pub proof fn law_redb_snapshot_get_outcome(
    snapshot: &RedbKVDBSnapshot,
    table: &RedbTable,
    key: &[u8],
    run: RedbRun,
    s: RedbState,
    taken: Tables,
)
    requires
        call_ensures(RedbKVDBSnapshot::get, (snapshot, table, key), run),
        s.read == Some(taken),
        s.write is None,
        crate::tables::complete(taken),
        crate::schema::schema().contains(table@),
    ensures
        crate::redb_call_laws::returns_errors(run@),
        crate::redb_laws::redb_run(s, run@) matches Some((t, answer)) && answer
            == RedbAnswer::Value(crate::tables::lookup(taken, table@, key@)) && t.dropped()
            == s.dropped(),
{
    crate::redb_laws::law_redb_snapshot_get(s, taken, table@, key@);
}

/// An iteration goes through its table, as it is committed or as the snapshot has it.
pub proof fn law_redb_iter_outcome(
    db: &RedbKVDB,
    snapshot: &RedbKVDBSnapshot,
    table: RedbTable,
    own: RedbRun,
    taken_run: RedbRun,
    s: RedbState,
    taken: Tables,
)
    requires
        call_ensures(RedbKVDB::iter, (db, table), own),
        call_ensures(RedbKVDBSnapshot::iter, (snapshot, table), taken_run),
        s.write is None,
        s.read == Some(taken),
        crate::tables::complete(taken),
        crate::tables::complete(s.committed),
        crate::schema::schema().contains(table@),
    ensures
        crate::redb_laws::redb_run(s, own@) matches Some((t, _)) && t.open == Some(table@)
            && t.visible() == s.committed,
        own@.len() > 0 && own@.last().action is Range,
        crate::redb_laws::redb_run(s, taken_run@) matches Some((t, _)) && t.open == Some(table@)
            && t.visible() == taken,
        taken_run@.len() > 0 && taken_run@.last().action is Range,
{
    crate::redb_laws::law_redb_iter(s, taken, table@);
}

/// A table is found exactly under its own name, on the database and on a snapshot alike, and its
/// handle, and every clone of it, has that name. The error for any other name quotes the name.
pub proof fn law_redb_table_outcome(
    db: &RedbKVDB,
    snapshot: &RedbKVDBSnapshot,
    name: &str,
    found: StorageResult<RedbTable>,
    taken: StorageResult<RedbTable>,
    handle_name: &'static str,
    copy: RedbTable,
)
    requires
        call_ensures(RedbKVDB::table, (db, name), found),
        call_ensures(RedbKVDBSnapshot::table, (snapshot, name), taken),
        found matches Ok(table) ==> call_ensures(RedbTable::name, (&table,), handle_name)
            && call_ensures(RedbTable::clone, (&table,), copy),
    ensures
        found is Ok <==> crate::schema::schema().contains(name@),
        taken is Ok <==> crate::schema::schema().contains(name@),
        found matches Ok(table) ==> table@ == name@ && handle_name@ == name@ && copy@ == name@,
        taken matches Ok(table) ==> table@ == name@,
        found matches Err(e) ==> (e matches StorageError::Unsupported(text) && text@
            == "unknown table `"@ + name@ + "`"@),
        taken matches Err(e) ==> (e matches StorageError::Unsupported(text) && text@
            == "unknown table `"@ + name@ + "`"@),
{
}

// REDB KVDB BATCH
// ================================================================================================

/// A put of a batch without an error puts its value under its key in its table, in the batch's
/// transaction, and touches nothing else; on a batch with an error it does nothing.
pub proof fn law_redb_put_outcome(
    batch: &RedbKVDBBatch,
    table: &RedbTable,
    key: &[u8],
    value: &[u8],
    run: RedbRun,
    s: RedbState,
)
    requires
        call_ensures(RedbKVDBBatch::put, (batch, table, key, value), run),
        s.write is Some,
    ensures
        batch.error() is Some ==> run@.len() == 0,
        crate::redb_call_laws::returns_errors(run@),
        batch.error() is None ==> (crate::redb_laws::redb_run(s, run@) matches Some((t, _))
            && t.write == Some(
            RedbWrite {
                tables: crate::tables::apply(
                    (s.write->0).tables,
                    Op::Put(table@, key@, value@),
                ),
                ..s.write->0
            },
        ) && t.dropped() == s.dropped()),
{
    lemma_one_operation(s, Op::Put(table@, key@, value@));
}

/// A delete of a batch without an error removes its key from its table, in the batch's transaction,
/// and touches nothing else; on a batch with an error it does nothing.
pub proof fn law_redb_batch_delete_outcome(
    batch: &RedbKVDBBatch,
    table: &RedbTable,
    key: &[u8],
    run: RedbRun,
    s: RedbState,
)
    requires
        call_ensures(RedbKVDBBatch::delete, (batch, table, key), run),
        s.write is Some,
    ensures
        batch.error() is Some ==> run@.len() == 0,
        crate::redb_call_laws::returns_errors(run@),
        batch.error() is None ==> (crate::redb_laws::redb_run(s, run@) matches Some((t, _))
            && t.write == Some(
            RedbWrite {
                tables: crate::tables::apply((s.write->0).tables, Op::Delete(table@, key@)),
                ..s.write->0
            },
        ) && t.dropped() == s.dropped()),
{
    lemma_one_operation(s, Op::Delete(table@, key@));
}

/// The calls of one operation, as those of a run of operations.
proof fn lemma_one_operation(s: RedbState, op: Op)
    requires
        s.write is Some,
    ensures
        crate::redb_laws::redb_ops_steps(seq![op]) == crate::redb_laws::redb_op_steps(op),
        crate::tables::apply_all((s.write->0).tables, seq![op]) == crate::tables::apply(
            (s.write->0).tables,
            op,
        ),
        crate::redb_laws::redb_run(s, crate::redb_laws::redb_op_steps(op)) matches Some((t, _))
            && t.write == Some(
            RedbWrite {
                tables: crate::tables::apply((s.write->0).tables, op),
                ..s.write->0
            },
        ) && t.dropped() == s.dropped(),
{
    let ops = seq![op];
    assert(ops.skip(1) =~= Seq::empty());
    assert(crate::redb_laws::redb_ops_steps(ops.skip(1)) =~= Seq::empty());
    assert(crate::redb_laws::redb_ops_steps(ops) =~= crate::redb_laws::redb_op_steps(op));
    let tables = crate::tables::apply((s.write->0).tables, op);
    assert(crate::tables::apply_all(tables, ops.skip(1)) == tables);
    crate::redb_laws::law_redb_batch_operations(s, ops);
}

/// A batch takes note of an error exactly where it has none yet and the operation failed.
pub proof fn law_redb_record_outcome(
    batch: &mut RedbKVDBBatch,
    outcome: Result<RedbOutput, StorageError>,
)
    requires
        call_ensures(RedbKVDBBatch::record, (batch, outcome), ()),
    ensures
        old(batch).error() is Some ==> final(batch).error() == old(batch).error(),
        old(batch).error() is None ==> (match outcome {
            Ok(_) => final(batch).error() is None,
            Err(e) => final(batch).error() == Some(e),
        }),
{
}

/// Committing a batch returns its error, or commits what its transaction sees.
pub proof fn law_redb_commit_outcome(batch: RedbKVDBBatch, r: StorageResult<RedbRun>, s: RedbState)
    requires
        call_ensures(RedbKVDBBatch::commit, (batch,), r),
        s.write is Some,
    ensures
        match batch.error() {
            Some(e) => r == Err::<RedbRun, StorageError>(e),
            None => {
                &&& r is Ok
                &&& crate::redb_call_laws::returns_errors((r->Ok_0)@)
                &&& crate::redb_laws::redb_run(s, (r->Ok_0)@) matches Some((t, _))
                &&& t.committed == (s.write->0).tables
                &&& t.write is None
            },
        },
{
    let commit = crate::redb_kvdb::redb_commit_steps();
    assert(crate::redb_laws::redb_run(s, commit) == crate::redb_laws::redb_perform(
        s,
        commit[0].action,
    ));
}

/// What a batch puts and commits is what a read then returns.
pub proof fn law_redb_put_then_get(
    db: &RedbKVDB,
    begun: (RedbRun, RedbKVDBBatch),
    table: &RedbTable,
    key: &[u8],
    value: &[u8],
    put: RedbRun,
    commit: StorageResult<RedbRun>,
    get: RedbRun,
    s: RedbState,
)
    requires
        call_ensures(RedbKVDB::batch, (db,), begun),
        call_ensures(RedbKVDBBatch::put, (&begun.1, table, key, value), put),
        call_ensures(RedbKVDBBatch::commit, (begun.1,), commit),
        call_ensures(RedbKVDB::get, (db, table, key), get),
        s.write is None,
        crate::tables::complete(s.committed),
        crate::schema::schema().contains(table@),
    ensures
        commit is Ok,
        crate::redb_laws::redb_run(s, begun.0@ + put@ + (commit->Ok_0)@) matches Some((t, _))
            && crate::redb_laws::redb_run(t, get@) matches Some((_, answer)) && answer
            == RedbAnswer::Value(Some(value@)),
{
    let op = Op::Put(table@, key@, value@);
    let ops = seq![op];
    assert(ops.skip(1) =~= Seq::empty());
    assert(crate::redb_laws::redb_ops_steps(ops.skip(1)) =~= Seq::empty());
    assert(crate::redb_laws::redb_ops_steps(ops) =~= put@);
    assert(crate::redb_laws::redb_whole_batch(ops) =~= begun.0@ + put@ + (commit->Ok_0)@);
    assert(ops.last() == op);
    assert(crate::tables::last_change(ops, table@, key@) == Some(op));
    crate::redb_laws::law_redb_read_your_writes(s, ops, table@, key@);
    crate::redb_laws::law_redb_batch_commits(s, ops);
    crate::tables::law_changes_keep_tables(s.committed, ops);
    let t = (crate::redb_laws::redb_run(s, crate::redb_laws::redb_whole_batch(ops))->0).0;
    crate::redb_laws::law_redb_get(t, table@, key@);
}

// RUNS
// ================================================================================================

/// The last reply of a run decides what the run returns: the bytes that were read, all of them, and
/// for an error, by the call's own rule, that error, a panic with it, or nothing.
pub proof fn law_redb_last_reply_is_returned(
    run: &mut RedbRun,
    reply: RedbReply,
    r: Progress<RedbOutput>,
)
    requires
        call_ensures(RedbRun::resume, (run, reply), r),
        old(run)@.len() == 1,
    ensures
        final(run)@.len() == 0,
        reply is Done ==> r == Progress::Finished(Ok(RedbOutput::Done)),
        reply matches RedbReply::Value(None) ==> r == Progress::Finished(
            Ok(RedbOutput::Value(None)),
        ),
        reply matches RedbReply::Value(Some(v)) ==> (r matches Progress::Finished(
            Ok(RedbOutput::Value(Some(bytes))),
        ) && bytes@ == v@),
        redb_error(reply) matches Some(e) ==> (match old(run)@[0].on_error {
            OnError::Return => r == Progress::<RedbOutput>::Finished(Err(e)),
            OnError::Panic(reason) => r == Progress::<RedbOutput>::Panic(reason, e),
            OnError::Skip(_) => r == Progress::Finished(Ok(RedbOutput::Done)),
        }),
{
}

/// The error that a reply brings.
pub open spec fn redb_error(reply: RedbReply) -> Option<StorageError> {
    match reply {
        RedbReply::Done => None,
        RedbReply::Value(_) => None,
        RedbReply::DatabaseFailed(e) => Some(StorageError::Backend(BackendError::RedbDatabase(e))),
        RedbReply::TransactionFailed(e) => Some(
            StorageError::Backend(BackendError::RedbTransaction(e)),
        ),
        RedbReply::TableFailed(e) => Some(StorageError::Backend(BackendError::RedbTable(e))),
        RedbReply::StorageFailed(e) => Some(StorageError::Backend(BackendError::RedbStorage(e))),
        RedbReply::CommitFailed(e) => Some(StorageError::Backend(BackendError::RedbCommit(e))),
        RedbReply::DurabilityFailed(e) => Some(
            StorageError::Backend(BackendError::RedbDurability(e)),
        ),
    }
}

/// A reply before the last: the run goes on with the next call, or ends with the error.
pub proof fn law_redb_earlier_reply_goes_on(
    run: &mut RedbRun,
    reply: RedbReply,
    r: Progress<RedbOutput>,
)
    requires
        call_ensures(RedbRun::resume, (run, reply), r),
        old(run)@.len() > 1,
    ensures
        redb_error(reply) is None ==> r is Continue && final(run)@ == old(run)@.subrange(
            1,
            old(run)@.len() as int,
        ),
        redb_error(reply) matches Some(e) ==> (old(run)@[0].on_error is Return ==> r
            == Progress::<RedbOutput>::Finished(Err(e)) && final(run)@.len() == 0),
        redb_error(reply) matches Some(e) ==> (old(run)@[0].on_error matches OnError::Panic(reason)
            ==> r == Progress::<RedbOutput>::Panic(reason, e) && final(run)@.len() == 0),
{
}

/// The bytes that a caller takes from a result are those that a read found.
pub proof fn law_redb_into_value_outcome(out: RedbOutput, r: Option<RedbBytes>)
    requires
        call_ensures(RedbOutput::into_value, (out,), r),
    ensures
        match out {
            RedbOutput::Value(Some(bytes)) => r matches Some(b) && b@ == bytes@,
            _ => r is None,
        },
{
}

/// A byte container hands out the bytes that it was made of.
pub proof fn law_redb_bytes_are_kept(bytes: Vec<u8>, b: RedbBytes, d: &[u8])
    requires
        call_ensures(RedbBytes::new, (bytes,), b),
        call_ensures(RedbBytes::deref, (&b,), d),
    ensures
        d@ == bytes@,
{
}

// ITERATION
// ================================================================================================

/// An iteration reads its range exactly where the range could be started; else it hands out the
/// error.
pub proof fn law_redb_iter_starts(
    setup: Result<RedbOutput, StorageError>,
    it: RedbIter,
    reads: bool,
)
    requires
        call_ensures(RedbIter::new, (setup,), it),
        call_ensures(RedbIter::reads, (&it,), reads),
    ensures
        reads == (setup is Ok),
        match setup {
            Ok(_) => it is Reading,
            Err(e) => it == RedbIter::Failed(e),
        },
{
}

/// The next item of an iteration is what redb returned: a key with its value, whole and in that
/// order, an error, or the end.
pub proof fn law_redb_next_outcome(
    it: RedbIter,
    fetched: RedbFetched,
    r: (RedbIter, Option<StorageResult<(RedbBytes, RedbBytes)>>),
)
    requires
        call_ensures(RedbIter::next, (it, fetched), r),
    ensures
        match it {
            RedbIter::Reading => r.0 is Reading && (match fetched {
                None => r.1 is None,
                Some(Ok((k, v))) => r.1 matches Some(Ok((key, value))) && key@ == k@ && value@
                    == v@,
                Some(Err(e)) => r.1 == Some(
                    Err::<(RedbBytes, RedbBytes), StorageError>(
                        StorageError::Backend(BackendError::RedbStorage(e)),
                    ),
                ),
            }),
            RedbIter::Failed(e) => r.0 is Ended && r.1 == Some(
                Err::<(RedbBytes, RedbBytes), StorageError>(e),
            ),
            RedbIter::Ended => r.0 is Ended && r.1 is None,
        },
{
}

} // verus!
