//! The redb storage: which calls each operation makes on redb, and what it returns.

use redb::StorageError as RedbStorageError;
use vstd::prelude::*;

use crate::config::{DatabaseFile, DatabaseFileView, RocksDbConfig};
use crate::error::{BackendError, StorageError, StorageResult};
use crate::redb_bytes::RedbBytes;
use crate::redb_table::RedbTable;
use crate::schema::all_table_names;
use crate::script::{OnError, PanicReason, Progress, Script, Signal, Step, Verdict};

verus! {

/// The file name of a database whose configured path is a directory.
pub const REDB_FILE: &'static str = "data.redb";

// ACTIONS
// ================================================================================================

/// A call on redb.
#[derive(Debug)]
pub enum RedbAction {
    /// Open or create the database in `file`, with a cache of `cache_size` bytes.
    Create { cache_size: usize, file: DatabaseFile },
    /// Start a write transaction.
    BeginWrite,
    /// Start a read transaction.
    BeginRead,
    /// Set the durability of the write transaction to none: its commit is not synced.
    SetDurabilityNone,
    /// Open the table of this name in the running transaction.
    OpenTable { name: &'static str },
    /// Put `value` under `key` into the open table.
    Insert { key: Vec<u8>, value: Vec<u8> },
    /// Remove `key` from the open table.
    Remove { key: Vec<u8> },
    /// Read `key` from the open table.
    Get { key: Vec<u8> },
    /// Start reading all entries of the open table, in the order of the keys.
    Range,
    /// Commit the write transaction.
    Commit,
}

/// What a [`RedbAction`] says, over sequences.
pub enum RedbCall {
    Create { cache_size: usize, file: DatabaseFileView },
    BeginWrite,
    BeginRead,
    SetDurabilityNone,
    OpenTable { name: Seq<char> },
    Insert { key: Seq<u8>, value: Seq<u8> },
    Remove { key: Seq<u8> },
    Get { key: Seq<u8> },
    Range,
    Commit,
}

impl View for RedbAction {
    type V = RedbCall;

    open spec fn view(&self) -> RedbCall {
        match *self {
            RedbAction::Create { cache_size, file } => RedbCall::Create { cache_size, file: file@ },
            RedbAction::BeginWrite => RedbCall::BeginWrite,
            RedbAction::BeginRead => RedbCall::BeginRead,
            RedbAction::SetDurabilityNone => RedbCall::SetDurabilityNone,
            RedbAction::OpenTable { name } => RedbCall::OpenTable { name: name@ },
            RedbAction::Insert { key, value } => RedbCall::Insert { key: key@, value: value@ },
            RedbAction::Remove { key } => RedbCall::Remove { key: key@ },
            RedbAction::Get { key } => RedbCall::Get { key: key@ },
            RedbAction::Range => RedbCall::Range,
            RedbAction::Commit => RedbCall::Commit,
        }
    }
}

/// The answer of redb to a call.
#[derive(Debug)]
pub enum RedbReply {
    /// The call succeeded and returned nothing to pass on.
    Done,
    /// A read succeeded: the bytes under the key, if it is there.
    Value(Option<Vec<u8>>),
    /// The database could not be opened or created.
    DatabaseFailed(redb::DatabaseError),
    /// A transaction could not be started.
    TransactionFailed(redb::TransactionError),
    /// The table could not be opened.
    TableFailed(redb::TableError),
    /// A read or a write failed.
    StorageFailed(RedbStorageError),
    /// The commit failed.
    CommitFailed(redb::CommitError),
    /// The durability could not be set.
    DurabilityFailed(redb::SetDurabilityError),
}

impl RedbReply {
    /// The error of a failed call; `None` of a call that succeeded.
    pub open spec fn failure(self) -> Option<StorageError> {
        match self {
            RedbReply::Done => None,
            RedbReply::Value(_) => None,
            RedbReply::DatabaseFailed(e) => Some(
                StorageError::Backend(BackendError::RedbDatabase(e)),
            ),
            RedbReply::TransactionFailed(e) => Some(
                StorageError::Backend(BackendError::RedbTransaction(e)),
            ),
            RedbReply::TableFailed(e) => Some(StorageError::Backend(BackendError::RedbTable(e))),
            RedbReply::StorageFailed(e) => Some(
                StorageError::Backend(BackendError::RedbStorage(e)),
            ),
            RedbReply::CommitFailed(e) => Some(StorageError::Backend(BackendError::RedbCommit(e))),
            RedbReply::DurabilityFailed(e) => Some(
                StorageError::Backend(BackendError::RedbDurability(e)),
            ),
        }
    }

    /// What a call that succeeded returned.
    pub open spec fn output(self) -> RedbAnswer {
        match self {
            RedbReply::Value(Some(bytes)) => RedbAnswer::Value(Some(bytes@)),
            RedbReply::Value(None) => RedbAnswer::Value(None),
            _ => RedbAnswer::Done,
        }
    }

    /// What the call returned, or the error that it failed with.
    fn settle(self) -> (r: Result<RedbOutput, StorageError>)
        ensures
            match self.failure() {
                None => r matches Ok(out) && out@ == self.output(),
                Some(e) => r == Err::<RedbOutput, StorageError>(e),
            },
            match self {
                RedbReply::Done => r == Ok::<RedbOutput, StorageError>(RedbOutput::Done),
                RedbReply::Value(None) => r == Ok::<RedbOutput, StorageError>(
                    RedbOutput::Value(None),
                ),
                RedbReply::Value(Some(v)) => r matches Ok(RedbOutput::Value(Some(bytes)))
                    && bytes@ == v@,
                _ => r is Err,
            },
    {
        match self {
            RedbReply::Done => Ok(RedbOutput::Done),
            RedbReply::Value(None) => Ok(RedbOutput::Value(None)),
            RedbReply::Value(Some(bytes)) => Ok(RedbOutput::Value(Some(RedbBytes::new(bytes)))),
            RedbReply::DatabaseFailed(e) => Err(StorageError::from(e)),
            RedbReply::TransactionFailed(e) => Err(StorageError::from(e)),
            RedbReply::TableFailed(e) => Err(StorageError::from(e)),
            RedbReply::StorageFailed(e) => Err(StorageError::from(e)),
            RedbReply::CommitFailed(e) => Err(StorageError::from(e)),
            RedbReply::DurabilityFailed(e) => Err(
                StorageError::Backend(BackendError::RedbDurability(e)),
            ),
        }
    }
}

/// What an operation on redb returns.
#[derive(Debug)]
pub enum RedbOutput {
    /// Nothing.
    Done,
    /// The value that was read, if the key is there.
    Value(Option<RedbBytes>),
}

/// What a [`RedbOutput`] says, over sequences.
pub enum RedbAnswer {
    Done,
    Value(Option<Seq<u8>>),
}

impl RedbAnswer {
    /// The value that was read; `None` where nothing was.
    pub open spec fn value(self) -> Option<Seq<u8>> {
        match self {
            RedbAnswer::Done => None,
            RedbAnswer::Value(v) => v,
        }
    }
}

impl View for RedbOutput {
    type V = RedbAnswer;

    open spec fn view(&self) -> RedbAnswer {
        match *self {
            RedbOutput::Done => RedbAnswer::Done,
            RedbOutput::Value(None) => RedbAnswer::Value(None),
            RedbOutput::Value(Some(bytes)) => RedbAnswer::Value(Some(bytes@)),
        }
    }
}

impl RedbOutput {
    /// The value that was read; `None` where nothing was.
    pub fn into_value(self) -> (r: Option<RedbBytes>)
        ensures
            self@.value() is Some <==> r is Some,
            r matches Some(bytes) ==> Some(bytes@) == self@.value(),
            r == (match self {
                RedbOutput::Done => None,
                RedbOutput::Value(v) => v,
            }),
    {
        match self {
            RedbOutput::Done => None,
            RedbOutput::Value(v) => v,
        }
    }
}

// RUNS
// ================================================================================================

/// The calls of one operation on redb that are still to be made.
pub type RedbRun = Script<RedbAction>;

/// Where the operation with the calls `steps` left stands after `reply` to the first of them.
pub open spec fn redb_after(steps: Seq<Step<RedbCall>>, reply: RedbReply) -> (
    Seq<Step<RedbCall>>,
    Verdict,
) {
    crate::script::after(steps, if reply.failure() is Some { Signal::Fail } else { Signal::Advance })
}

impl Script<RedbAction> {
    /// Goes on after `reply` to the call of [`Script::action`].
    ///
    /// The first failing call ends the operation with its error, or makes it panic where it has
    /// no error to return; after the last call the operation returns what that call returned.
    pub fn resume(&mut self, reply: RedbReply) -> (r: Progress<RedbOutput>)
        ensures
            final(self)@ == redb_after(old(self)@, reply).0,
            match redb_after(old(self)@, reply).1 {
                Verdict::Continue => r is Continue,
                Verdict::Finished => r matches Progress::Finished(Ok(out)) && out@ == (
                if reply.failure() is Some {
                    RedbAnswer::Done
                } else {
                    reply.output()
                }),
                Verdict::Failed => r == Progress::<RedbOutput>::Finished(
                    Err(reply.failure()->0),
                ),
                Verdict::Panic(reason) => r == Progress::<RedbOutput>::Panic(
                    reason,
                    reply.failure()->0,
                ),
            },
            r matches Progress::Finished(Ok(out)) ==> match reply {
                RedbReply::Value(None) => out == RedbOutput::Value(None),
                RedbReply::Value(Some(v)) => out matches RedbOutput::Value(Some(bytes)) && bytes@
                    == v@,
                _ => out == RedbOutput::Done,
            },
    {
        match reply.settle() {
            Ok(out) => match self.signal(Signal::Advance) {
                Verdict::Continue => Progress::Continue,
                _ => Progress::Finished(Ok(out)),
            },
            Err(e) => match self.signal(Signal::Fail) {
                Verdict::Continue => Progress::Continue,
                Verdict::Finished => Progress::Finished(Ok(RedbOutput::Done)),
                Verdict::Failed => Progress::Finished(Err(e)),
                Verdict::Panic(reason) => Progress::Panic(reason, e),
            },
        }
    }
}

/// A step whose failure ends the operation with its error.
pub open spec fn must(call: RedbCall) -> Step<RedbCall> {
    Step { action: call, on_error: OnError::Return }
}

// REDB KVDB
// ================================================================================================

/// The calls that open a database and create all tables in it, in one transaction.
pub open spec fn redb_new_steps(config: RocksDbConfig, path_is_dir: bool) -> Seq<Step<RedbCall>> {
    seq![
        must(
            RedbCall::Create {
                cache_size: config.cache_size,
                file: crate::config::database_file(config.path, path_is_dir, REDB_FILE@),
            },
        ),
        must(RedbCall::BeginWrite),
    ] + crate::schema::schema().map_values(|n: Seq<char>| must(RedbCall::OpenTable { name: n }))
        + seq![must(RedbCall::Commit)]
}

/// The calls that remove `key` from the table `name`.
pub open spec fn redb_delete_steps(name: Seq<char>, key: Seq<u8>) -> Seq<Step<RedbCall>> {
    seq![
        must(RedbCall::BeginWrite),
        must(RedbCall::OpenTable { name }),
        must(RedbCall::Remove { key }),
        must(RedbCall::Commit),
    ]
}

/// The calls that start a batch. A batch cannot report their failure.
pub open spec fn redb_batch_steps() -> Seq<Step<RedbCall>> {
    seq![
        Step {
            action: RedbCall::BeginWrite,
            on_error: OnError::Panic(PanicReason::RedbBeginWrite),
        },
        Step {
            action: RedbCall::SetDurabilityNone,
            on_error: OnError::Panic(PanicReason::RedbSetDurability),
        },
    ]
}

/// The call that starts a snapshot.
pub open spec fn redb_snapshot_steps() -> Seq<Step<RedbCall>> {
    seq![must(RedbCall::BeginRead)]
}

/// The calls that sync every commit made so far: an empty transaction, committed with the
/// durability that a new transaction has.
pub open spec fn redb_sync_steps() -> Seq<Step<RedbCall>> {
    seq![must(RedbCall::BeginWrite), must(RedbCall::Commit)]
}

/// The calls that read `key` from the table `name` in a running transaction.
pub open spec fn redb_read_steps(name: Seq<char>, key: Seq<u8>) -> Seq<Step<RedbCall>> {
    seq![must(RedbCall::OpenTable { name }), must(RedbCall::Get { key })]
}

/// The calls that start reading all entries of the table `name` in a running transaction.
pub open spec fn redb_range_steps(name: Seq<char>) -> Seq<Step<RedbCall>> {
    seq![must(RedbCall::OpenTable { name }), must(RedbCall::Range)]
}

/// Redb-backed storage.
///
/// All nine tables are created when the database is opened, so a read never meets a table that
/// does not exist.
#[derive(Debug, Clone, Copy)]
pub struct RedbKVDB;

impl RedbKVDB {
    /// Opens or creates the database that `config` describes, and creates all tables in it.
    ///
    /// Redb keeps a database in one file: where the configured path is a directory, the file is
    /// [`REDB_FILE`] in it. `max_open_files` has no meaning for redb and is not used.
    pub fn new(config: RocksDbConfig, path_is_dir: bool) -> (r: RedbRun)
        ensures
            r@ == redb_new_steps(config, path_is_dir),
    {
        let mut run = RedbRun::new();
        let cache_size: usize = config.cache_size;
        let file = DatabaseFile::select(config.path, path_is_dir, REDB_FILE);
        run.push(RedbAction::Create { cache_size, file }, OnError::Return);
        run.push(RedbAction::BeginWrite, OnError::Return);
        let ghost opening = run@;
        let names = all_table_names();
        let ghost views = crate::schema::schema().map_values(
            |n: Seq<char>| must(RedbCall::OpenTable { name: n }),
        );
        let mut i: usize = 0;
        while i < 9
            invariant
                names@.map_values(|n: &'static str| n@) == crate::schema::schema(),
                views == crate::schema::schema().map_values(
                    |n: Seq<char>| must(RedbCall::OpenTable { name: n }),
                ),
                i <= 9,
                run@ == opening + views.take(i as int),
            decreases 9 - i,
        {
            assert(names@.map_values(|n: &'static str| n@)[i as int] == names@[i as int]@);
            run.push(RedbAction::OpenTable { name: names[i] }, OnError::Return);
            i = i + 1;
            assert(run@ =~= opening + views.take(i as int));
        }
        run.push(RedbAction::Commit, OnError::Return);
        assert(run@ =~= redb_new_steps(config, path_is_dir));
        run
    }

    /// Removes `key` from `table`, in a transaction of its own.
    pub fn delete(&self, table: &RedbTable, key: &[u8]) -> (r: RedbRun)
        ensures
            r@ == redb_delete_steps(table@, key@),
    {
        let mut run = RedbRun::new();
        run.push(RedbAction::BeginWrite, OnError::Return);
        run.push(RedbAction::OpenTable { name: table.name() }, OnError::Return);
        run.push(RedbAction::Remove { key: vstd::slice::slice_to_vec(key) }, OnError::Return);
        run.push(RedbAction::Commit, OnError::Return);
        assert(run@ =~= redb_delete_steps(table@, key@));
        run
    }

    /// Starts a batch, whose commit is not synced; [`RedbKVDB::sync`] does that later.
    pub fn batch(&self) -> (r: (RedbRun, RedbKVDBBatch))
        ensures
            r.0@ == redb_batch_steps(),
            r.1.error() is None,
    {
        let mut run = RedbRun::new();
        run.push(RedbAction::BeginWrite, OnError::Panic(PanicReason::RedbBeginWrite));
        run.push(RedbAction::SetDurabilityNone, OnError::Panic(PanicReason::RedbSetDurability));
        assert(run@ =~= redb_batch_steps());
        (run, RedbKVDBBatch { err: None })
    }

    /// Starts a snapshot of the database.
    pub fn snapshot(&self) -> (r: (RedbRun, RedbKVDBSnapshot))
        ensures
            r.0@ == redb_snapshot_steps(),
    {
        let mut run = RedbRun::new();
        run.push(RedbAction::BeginRead, OnError::Return);
        assert(run@ =~= redb_snapshot_steps());
        (run, RedbKVDBSnapshot)
    }

    /// Syncs every commit made so far.
    pub fn sync(&self) -> (r: RedbRun)
        ensures
            r@ == redb_sync_steps(),
    {
        let mut run = RedbRun::new();
        run.push(RedbAction::BeginWrite, OnError::Return);
        run.push(RedbAction::Commit, OnError::Return);
        assert(run@ =~= redb_sync_steps());
        run
    }

    /// The handle of the table `name`.
    pub fn table(&self, name: &str) -> (r: StorageResult<RedbTable>)
        ensures
            r is Ok <==> crate::schema::schema().contains(name@),
            r matches Ok(table) ==> table@ == name@,
            r matches Err(e) ==> crate::schema::is_unknown_table(e, name@),
    {
        RedbTable::new(name)
    }

    /// Reads `key` from `table`, in a transaction of its own. The value is
    /// [`RedbOutput::into_value`] of what the run returns.
    pub fn get(&self, table: &RedbTable, key: &[u8]) -> (r: RedbRun)
        ensures
            r@ == redb_snapshot_steps() + redb_read_steps(table@, key@),
    {
        let mut run = RedbRun::new();
        run.push(RedbAction::BeginRead, OnError::Return);
        push_read(&mut run, table, key);
        assert(run@ =~= redb_snapshot_steps() + redb_read_steps(table@, key@));
        run
    }

    /// Starts reading all entries of `table`, in a transaction of its own. The entries come
    /// through [`RedbIter::new`] of what the run returns.
    pub fn iter(&self, table: RedbTable) -> (r: RedbRun)
        ensures
            r@ == redb_snapshot_steps() + redb_range_steps(table@),
    {
        let mut run = RedbRun::new();
        run.push(RedbAction::BeginRead, OnError::Return);
        push_range(&mut run, &table);
        assert(run@ =~= redb_snapshot_steps() + redb_range_steps(table@));
        run
    }
}

/// Adds the calls that read `key` from `table`.
fn push_read(run: &mut RedbRun, table: &RedbTable, key: &[u8])
    ensures
        final(run)@ == old(run)@ + redb_read_steps(table@, key@),
{
    run.push(RedbAction::OpenTable { name: table.name() }, OnError::Return);
    run.push(RedbAction::Get { key: vstd::slice::slice_to_vec(key) }, OnError::Return);
    assert(run@ =~= old(run)@ + redb_read_steps(table@, key@));
}

/// Adds the calls that start reading all entries of `table`.
fn push_range(run: &mut RedbRun, table: &RedbTable)
    ensures
        final(run)@ == old(run)@ + redb_range_steps(table@),
{
    run.push(RedbAction::OpenTable { name: table.name() }, OnError::Return);
    run.push(RedbAction::Range, OnError::Return);
    assert(run@ =~= old(run)@ + redb_range_steps(table@));
}

// REDB KVDB BATCH
// ================================================================================================

/// The calls that put `value` under `key` in the table `name` in a running write transaction.
pub open spec fn redb_put_steps(name: Seq<char>, key: Seq<u8>, value: Seq<u8>) -> Seq<
    Step<RedbCall>,
> {
    seq![must(RedbCall::OpenTable { name }), must(RedbCall::Insert { key, value })]
}

/// The calls that remove `key` from the table `name` in a running write transaction.
pub open spec fn redb_remove_steps(name: Seq<char>, key: Seq<u8>) -> Seq<Step<RedbCall>> {
    seq![must(RedbCall::OpenTable { name }), must(RedbCall::Remove { key })]
}

/// The call that commits a batch.
pub open spec fn redb_commit_steps() -> Seq<Step<RedbCall>> {
    seq![must(RedbCall::Commit)]
}

/// Atomic batch of put and delete operations, in one write transaction.
///
/// Neither operation returns an error: the first error is kept, every later operation does
/// nothing, and [`RedbKVDBBatch::commit`] returns the error in place of committing. The
/// transaction of a batch that is not committed is to be dropped, which takes back its writes.
#[derive(Debug)]
pub struct RedbKVDBBatch {
    err: Option<StorageError>,
}

impl RedbKVDBBatch {
    /// The first error that an operation of the batch met.
    pub closed spec fn error(self) -> Option<StorageError> {
        self.err
    }

    /// Puts `value` under `key` in `table`. What the run returns goes to
    /// [`RedbKVDBBatch::record`].
    pub fn put(&self, table: &RedbTable, key: &[u8], value: &[u8]) -> (r: RedbRun)
        ensures
            r@ == (if self.error() is Some {
                Seq::empty()
            } else {
                redb_put_steps(table@, key@, value@)
            }),
    {
        let mut run = RedbRun::new();
        if self.err.is_some() {
            return run;
        }
        run.push(RedbAction::OpenTable { name: table.name() }, OnError::Return);
        run.push(
            RedbAction::Insert {
                key: vstd::slice::slice_to_vec(key),
                value: vstd::slice::slice_to_vec(value),
            },
            OnError::Return,
        );
        assert(run@ =~= redb_put_steps(table@, key@, value@));
        run
    }

    /// Removes `key` from `table`. What the run returns goes to [`RedbKVDBBatch::record`].
    pub fn delete(&self, table: &RedbTable, key: &[u8]) -> (r: RedbRun)
        ensures
            r@ == (if self.error() is Some {
                Seq::empty()
            } else {
                redb_remove_steps(table@, key@)
            }),
    {
        let mut run = RedbRun::new();
        if self.err.is_some() {
            return run;
        }
        run.push(RedbAction::OpenTable { name: table.name() }, OnError::Return);
        run.push(RedbAction::Remove { key: vstd::slice::slice_to_vec(key) }, OnError::Return);
        assert(run@ =~= redb_remove_steps(table@, key@));
        run
    }

    /// Takes note of how an operation ended: the first error stays.
    pub fn record(&mut self, outcome: Result<RedbOutput, StorageError>)
        ensures
            final(self).error() == crate::error::kept_error(old(self).error(), outcome),
    {
        if self.err.is_none() {
            match outcome {
                Ok(_) => {},
                Err(e) => {
                    self.err = Some(e);
                },
            }
        }
    }

    /// Commits the batch, or returns the error that one of its operations met.
    pub fn commit(self) -> (r: StorageResult<RedbRun>)
        ensures
            match self.error() {
                Some(e) => r == Err::<RedbRun, StorageError>(e),
                None => r matches Ok(run) && run@ == redb_commit_steps(),
            },
    {
        match self.err {
            Some(e) => Err(e),
            None => {
                let mut run = RedbRun::new();
                run.push(RedbAction::Commit, OnError::Return);
                assert(run@ =~= redb_commit_steps());
                Ok(run)
            },
        }
    }
}

// REDB KVDB SNAPSHOT
// ================================================================================================

/// Point-in-time read-only snapshot, in one read transaction.
#[derive(Debug, Clone, Copy)]
pub struct RedbKVDBSnapshot;

impl RedbKVDBSnapshot {
    /// The handle of the table `name`.
    pub fn table(&self, name: &str) -> (r: StorageResult<RedbTable>)
        ensures
            r is Ok <==> crate::schema::schema().contains(name@),
            r matches Ok(table) ==> table@ == name@,
            r matches Err(e) ==> crate::schema::is_unknown_table(e, name@),
    {
        RedbTable::new(name)
    }

    /// Reads `key` from `table` as the snapshot has it. The value is
    /// [`RedbOutput::into_value`] of what the run returns.
    pub fn get(&self, table: &RedbTable, key: &[u8]) -> (r: RedbRun)
        ensures
            r@ == redb_read_steps(table@, key@),
    {
        let mut run = RedbRun::new();
        push_read(&mut run, table, key);
        assert(run@ =~= redb_read_steps(table@, key@));
        run
    }

    /// Starts reading all entries of `table` as the snapshot has them. The entries come through
    /// [`RedbIter::new`] of what the run returns.
    pub fn iter(&self, table: RedbTable) -> (r: RedbRun)
        ensures
            r@ == redb_range_steps(table@),
    {
        let mut run = RedbRun::new();
        push_range(&mut run, &table);
        assert(run@ =~= redb_range_steps(table@));
        run
    }
}

// REDB ITERATOR
// ================================================================================================

/// The entries of a table, as an iteration hands them out.
#[derive(Debug)]
pub enum RedbIter {
    /// The entries come from the range that was started.
    Reading,
    /// The range could not be started; the error is the only item.
    Failed(StorageError),
    /// Nothing is left.
    Ended,
}

/// What redb returned for the next entry of a range.
pub type RedbFetched = Option<Result<(Vec<u8>, Vec<u8>), RedbStorageError>>;

/// An item of an iteration, over sequences.
pub enum RedbItem {
    /// There is no item.
    End,
    /// A key and its value.
    Pair(Seq<u8>, Seq<u8>),
    /// An error.
    Error(StorageError),
}

/// Whether `r` is the item `item`.
pub open spec fn is_redb_item(
    r: Option<StorageResult<(RedbBytes, RedbBytes)>>,
    item: RedbItem,
) -> bool {
    match item {
        RedbItem::End => r is None,
        RedbItem::Pair(k, v) => r matches Some(Ok((key, value))) && key@ == k && value@ == v,
        RedbItem::Error(e) => r == Some(Err::<(RedbBytes, RedbBytes), StorageError>(e)),
    }
}

impl RedbIter {
    /// The iteration after the next item.
    pub open spec fn after(self) -> RedbIter {
        match self {
            RedbIter::Reading => RedbIter::Reading,
            _ => RedbIter::Ended,
        }
    }

    /// The next item: what redb returned, the error that kept the range from starting, or
    /// nothing.
    pub open spec fn item(self, fetched: RedbFetched) -> RedbItem {
        match self {
            RedbIter::Reading => match fetched {
                None => RedbItem::End,
                Some(Ok((k, v))) => RedbItem::Pair(k@, v@),
                Some(Err(e)) => RedbItem::Error(
                    StorageError::Backend(BackendError::RedbStorage(e)),
                ),
            },
            RedbIter::Failed(e) => RedbItem::Error(e),
            RedbIter::Ended => RedbItem::End,
        }
    }
}

impl RedbIter {
    /// The iteration that follows the start of a range.
    pub fn new(setup: Result<RedbOutput, StorageError>) -> (r: Self)
        ensures
            r == (match setup {
                Ok(_) => RedbIter::Reading,
                Err(e) => RedbIter::Failed(e),
            }),
    {
        match setup {
            Ok(_) => RedbIter::Reading,
            Err(e) => RedbIter::Failed(e),
        }
    }

    /// Whether [`RedbIter::next`] needs the next entry of the range.
    pub fn reads(&self) -> (r: bool)
        ensures
            r == (*self is Reading),
    {
        match self {
            RedbIter::Reading => true,
            _ => false,
        }
    }

    /// The iteration after this item, and the item. `fetched` is the next entry of the range;
    /// where [`RedbIter::reads`] is false it is not looked at.
    pub fn next(self, fetched: RedbFetched) -> (r: (
        RedbIter,
        Option<StorageResult<(RedbBytes, RedbBytes)>>,
    ))
        ensures
            r.0 == self.after(),
            is_redb_item(r.1, self.item(fetched)),
            match self {
                RedbIter::Reading => match fetched {
                    None => r.1 is None,
                    Some(Ok((k, v))) => r.1 matches Some(Ok((key, value))) && key@ == k@ && value@
                        == v@,
                    Some(Err(e)) => r.1 == Some(
                        Err::<(RedbBytes, RedbBytes), StorageError>(
                            StorageError::Backend(BackendError::RedbStorage(e)),
                        ),
                    ),
                },
                RedbIter::Failed(e) => r.1 == Some(Err::<(RedbBytes, RedbBytes), StorageError>(e)),
                RedbIter::Ended => r.1 is None,
            },
    {
        match self {
            RedbIter::Reading => {
                let item = match fetched {
                    None => None,
                    Some(Ok((k, v))) => Some(Ok((RedbBytes::new(k), RedbBytes::new(v)))),
                    Some(Err(e)) => Some(Err(StorageError::from(e))),
                };
                (RedbIter::Reading, item)
            },
            RedbIter::Failed(e) => (RedbIter::Ended, Some(Err(e))),
            RedbIter::Ended => (RedbIter::Ended, None),
        }
    }
}

} // verus!
