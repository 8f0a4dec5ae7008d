//! What the calls on redb, its replies and the results of the storage have to do with each other,
//! stated of the values themselves.

use vstd::prelude::*;

use crate::config::{DatabaseFile, DatabaseFileView, RocksDbConfig};
use crate::error::{BackendError, StorageError, StorageResult};
use crate::redb_bytes::RedbBytes;
use crate::redb_kvdb::{
    RedbAction, RedbAnswer, RedbCall, RedbFetched, RedbIter, RedbOutput, RedbReply,
};
use crate::redb_laws::{RedbEnd, RedbState};
use crate::script::{OnError, PanicReason, Signal, Step};

verus! {

// CALLS
// ================================================================================================

/// What a call says is the very file, table, key and value that it is made with.
pub proof fn law_redb_action_says_its_call(action: RedbAction)
    ensures
        (match action {
            RedbAction::Create { cache_size, file: DatabaseFile::Given(path) } => action@
                == RedbCall::Create { cache_size, file: DatabaseFileView::Given(path) },
            RedbAction::Create { cache_size, file: DatabaseFile::Inside(path, name) } => action@
                == RedbCall::Create { cache_size, file: DatabaseFileView::Inside(path, name@) },
            RedbAction::BeginWrite => action@ == RedbCall::BeginWrite,
            RedbAction::BeginRead => action@ == RedbCall::BeginRead,
            RedbAction::SetDurabilityNone => action@ == RedbCall::SetDurabilityNone,
            RedbAction::OpenTable { name } => action@ == RedbCall::OpenTable { name: name@ },
            RedbAction::Insert { key, value } => action@ == RedbCall::Insert {
                key: key@,
                value: value@,
            },
            RedbAction::Remove { key } => action@ == RedbCall::Remove { key: key@ },
            RedbAction::Get { key } => action@ == RedbCall::Get { key: key@ },
            RedbAction::Range => action@ == RedbCall::Range,
            RedbAction::Commit => action@ == RedbCall::Commit,
        }),
{
}

/// The only database that opening opens is the configured one, with the configured cache: the file
/// at the path, or, where the path is a directory, the file `data.redb` in it.
pub proof fn law_redb_opens_the_configured_file(config: RocksDbConfig, path_is_dir: bool)
    ensures
        ({
            let steps = crate::redb_kvdb::redb_new_steps(config, path_is_dir);
            let file = if path_is_dir {
                DatabaseFileView::Inside(config.path, "data.redb"@)
            } else {
                DatabaseFileView::Given(config.path)
            };
            &&& steps.len() > 0
            &&& steps[0].action == RedbCall::Create { cache_size: config.cache_size, file }
            &&& forall|i: int| 0 < i < steps.len() ==> !((#[trigger] steps[i]).action is Create)
        }),
{
    let steps = crate::redb_kvdb::redb_new_steps(config, path_is_dir);
    let names = crate::schema::schema();
    assert forall|i: int| 0 < i < steps.len() implies !((#[trigger] steps[i]).action is Create) by {
        if 2 <= i < 2 + names.len() {
            assert(steps[i].action == RedbCall::OpenTable { name: names[i - 2] });
        }
    }
}

/// How many files may be open has no effect on opening.
pub proof fn law_redb_ignores_max_open_files(
    a: RocksDbConfig,
    b: RocksDbConfig,
    path_is_dir: bool,
)
    requires
        a.path == b.path,
        a.cache_size == b.cache_size,
    ensures
        crate::redb_kvdb::redb_new_steps(a, path_is_dir) == crate::redb_kvdb::redb_new_steps(
            b,
            path_is_dir,
        ),
{
}

/// Whether the error of every one of the calls `steps` is returned.
pub open spec fn returns_errors(steps: Seq<Step<RedbCall>>) -> bool {
    forall|i: int| 0 <= i < steps.len() ==> (#[trigger] steps[i]).on_error == OnError::Return
}

/// An operation that has a result returns the error of any of its calls: none is passed over, and
/// none makes it panic.
pub proof fn law_redb_errors_are_returned(
    config: RocksDbConfig,
    path_is_dir: bool,
    name: Seq<char>,
    key: Seq<u8>,
    value: Seq<u8>,
)
    ensures
        returns_errors(crate::redb_kvdb::redb_new_steps(config, path_is_dir)),
        returns_errors(crate::redb_kvdb::redb_delete_steps(name, key)),
        returns_errors(crate::redb_kvdb::redb_snapshot_steps()),
        returns_errors(crate::redb_kvdb::redb_sync_steps()),
        returns_errors(crate::redb_kvdb::redb_read_steps(name, key)),
        returns_errors(crate::redb_kvdb::redb_range_steps(name)),
        returns_errors(crate::redb_kvdb::redb_put_steps(name, key, value)),
        returns_errors(crate::redb_kvdb::redb_remove_steps(name, key)),
        returns_errors(crate::redb_kvdb::redb_commit_steps()),
{
    let steps = crate::redb_kvdb::redb_new_steps(config, path_is_dir);
    let names = crate::schema::schema();
    assert forall|i: int| 0 <= i < steps.len() implies (#[trigger] steps[i]).on_error
        == OnError::Return by {
        if 2 <= i < 2 + names.len() {
            assert(steps[i] == crate::redb_kvdb::must(RedbCall::OpenTable { name: names[i - 2] }));
        }
    }
}

/// Starting a batch panics where its transaction cannot be started, and where its durability cannot
/// be set: with the error, and with the reason that names the call.
pub proof fn law_redb_batch_start_panics(reply: RedbReply, e: StorageError)
    requires
        reply.failure() == Some(e),
    ensures
        crate::redb_laws::redb_end(crate::redb_kvdb::redb_batch_steps(), seq![reply]) == Some(
            RedbEnd::Panicked(PanicReason::RedbBeginWrite, e),
        ),
        crate::redb_laws::redb_end(
            crate::redb_kvdb::redb_batch_steps(),
            seq![RedbReply::Done, reply],
        ) == Some(RedbEnd::Panicked(PanicReason::RedbSetDurability, e)),
{
    let steps = crate::redb_kvdb::redb_batch_steps();
    crate::redb_laws::law_redb_first_error_ends(steps, seq![reply], e);
    crate::redb_laws::law_redb_first_error_ends(steps, seq![RedbReply::Done, reply], e);
}

// REPLIES
// ================================================================================================

/// A reply is a failure exactly where redb returned an error, and the error of the operation is
/// that error. After any other reply the operation goes on.
pub proof fn law_redb_reply_is_taken(steps: Seq<Step<RedbCall>>, reply: RedbReply)
    ensures
        reply.failure() == (match reply {
            RedbReply::Done => None,
            RedbReply::Value(_) => None,
            RedbReply::DatabaseFailed(e) => Some(
                StorageError::Backend(BackendError::RedbDatabase(e)),
            ),
            RedbReply::TransactionFailed(e) => Some(
                StorageError::Backend(BackendError::RedbTransaction(e)),
            ),
            RedbReply::TableFailed(e) => Some(StorageError::Backend(BackendError::RedbTable(e))),
            RedbReply::StorageFailed(e) => Some(
                StorageError::Backend(BackendError::RedbStorage(e)),
            ),
            RedbReply::CommitFailed(e) => Some(StorageError::Backend(BackendError::RedbCommit(e))),
            RedbReply::DurabilityFailed(e) => Some(
                StorageError::Backend(BackendError::RedbDurability(e)),
            ),
        }),
        crate::redb_kvdb::redb_after(steps, reply) == crate::script::after(
            steps,
            if reply is Done || reply is Value {
                Signal::Advance
            } else {
                Signal::Fail
            },
        ),
{
}

/// What an operation returns says the bytes that the caller gets, all of them, or that there are
/// none.
pub proof fn law_redb_output_says_its_bytes(out: RedbOutput)
    ensures
        (match out {
            RedbOutput::Done => out@ == RedbAnswer::Done && out@.value() is None,
            RedbOutput::Value(None) => out@ == RedbAnswer::Value(None) && out@.value() is None,
            RedbOutput::Value(Some(bytes)) => out@ == RedbAnswer::Value(Some(bytes@))
                && out@.value() == Some(bytes@),
        }),
{
}

/// The bytes that redb returns for the key are the bytes that a read returns, on the database and in
/// a snapshot: all of them, for every value. A key that is not there has none.
pub proof fn law_redb_get_hands_out_the_bytes(name: Seq<char>, key: Seq<u8>, v: Vec<u8>)
    ensures
        ({
            let own = crate::redb_kvdb::redb_snapshot_steps() + crate::redb_kvdb::redb_read_steps(
                name,
                key,
            );
            let taken = crate::redb_kvdb::redb_read_steps(name, key);
            let found = RedbReply::Value(Some(v));
            let absent = RedbReply::Value(None);
            let done = RedbReply::Done;
            &&& crate::redb_laws::redb_end(own, seq![done, done, found]) == Some(
                RedbEnd::Returned(RedbAnswer::Value(Some(v@))),
            )
            &&& crate::redb_laws::redb_end(own, seq![done, done, absent]) == Some(
                RedbEnd::Returned(RedbAnswer::Value(None)),
            )
            &&& crate::redb_laws::redb_end(taken, seq![done, found]) == Some(
                RedbEnd::Returned(RedbAnswer::Value(Some(v@))),
            )
            &&& crate::redb_laws::redb_end(taken, seq![done, absent]) == Some(
                RedbEnd::Returned(RedbAnswer::Value(None)),
            )
        }),
{
    let own = crate::redb_kvdb::redb_snapshot_steps() + crate::redb_kvdb::redb_read_steps(name, key);
    let taken = crate::redb_kvdb::redb_read_steps(name, key);
    let done = RedbReply::Done;
    assert(own.skip(1) =~= taken);
    lemma_read_ends(taken, RedbReply::Value(Some(v)));
    lemma_read_ends(taken, RedbReply::Value(None));
    assert(seq![done, done, RedbReply::Value(Some(v))].skip(1) =~= seq![
        done,
        RedbReply::Value(Some(v)),
    ]);
    assert(seq![done, done, RedbReply::Value(None)].skip(1) =~= seq![
        done,
        RedbReply::Value(None),
    ]);
}

/// Two calls that succeed return what the second returned.
proof fn lemma_read_ends(steps: Seq<Step<RedbCall>>, last: RedbReply)
    requires
        steps.len() == 2,
        last.failure() is None,
    ensures
        crate::redb_laws::redb_end(steps, seq![RedbReply::Done, last]) == Some(
            RedbEnd::Returned(last.output()),
        ),
{
    let replies = seq![RedbReply::Done, last];
    assert(replies.skip(1) =~= seq![last]);
    assert(crate::redb_laws::redb_end(steps.skip(1), seq![last]) == Some(
        RedbEnd::Returned(last.output()),
    ));
}

/// A read returns to its caller the very value that is committed under the key, or that there is
/// none.
pub proof fn law_redb_get_returns_the_committed_value(
    s: RedbState,
    name: Seq<char>,
    key: Seq<u8>,
    replies: Seq<RedbReply>,
    out: RedbOutput,
)
    requires
        s.write is None,
        crate::tables::complete(s.committed),
        crate::schema::schema().contains(name),
        crate::redb_laws::redb_replies(
            s,
            crate::redb_kvdb::redb_snapshot_steps() + crate::redb_kvdb::redb_read_steps(name, key),
            replies,
        ),
        crate::redb_laws::redb_end(
            crate::redb_kvdb::redb_snapshot_steps() + crate::redb_kvdb::redb_read_steps(name, key),
            replies,
        ) == Some(RedbEnd::Returned(out@)),
    ensures
        match crate::tables::lookup(s.committed, name, key) {
            Some(value) => out matches RedbOutput::Value(Some(bytes)) && bytes@ == value,
            None => out matches RedbOutput::Value(None),
        },
{
    let steps = crate::redb_kvdb::redb_snapshot_steps() + crate::redb_kvdb::redb_read_steps(
        name,
        key,
    );
    crate::redb_laws::law_redb_run_returns(s, steps, replies);
    crate::redb_laws::law_redb_get(s, name, key);
    law_redb_output_says_its_bytes(out);
}

// ITERATION
// ================================================================================================

/// An iteration hands out what redb returned: the key and its value, whole and in that order, the
/// error, or the end. One whose range could not be started hands out that error and is over.
pub proof fn law_redb_iteration_hands_out_what_came(
    r: Option<StorageResult<(RedbBytes, RedbBytes)>>,
    it: RedbIter,
    fetched: RedbFetched,
)
    requires
        crate::redb_kvdb::is_redb_item(r, it.item(fetched)),
    ensures
        match it {
            RedbIter::Reading => it.after() is Reading && match fetched {
                None => r is None,
                Some(Ok((k, v))) => r matches Some(Ok((key, value))) && key@ == k@ && value@ == v@,
                Some(Err(e)) => r == Some(
                    Err::<(RedbBytes, RedbBytes), StorageError>(
                        StorageError::Backend(BackendError::RedbStorage(e)),
                    ),
                ),
            },
            RedbIter::Failed(e) => it.after() is Ended && r == Some(
                Err::<(RedbBytes, RedbBytes), StorageError>(e),
            ),
            RedbIter::Ended => it.after() is Ended && r is None,
        },
{
}

} // verus!
