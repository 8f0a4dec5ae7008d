//! The error type that every storage call returns, and the conversions into it.

use redb::StorageError as RedbStorageError;
use vstd::prelude::*;

verus! {

/// `redb::DatabaseError`, carried through as an opaque value.
#[verifier::external_type_specification]
#[verifier::external_body]
pub struct ExRedbDatabaseError(redb::DatabaseError);

/// `redb::TransactionError`, carried through as an opaque value.
#[verifier::external_type_specification]
#[verifier::external_body]
pub struct ExRedbTransactionError(redb::TransactionError);

/// `redb::TableError`, carried through as an opaque value.
#[verifier::external_type_specification]
#[verifier::external_body]
pub struct ExRedbTableError(redb::TableError);

/// `redb::StorageError`, carried through as an opaque value.
#[verifier::external_type_specification]
#[verifier::external_body]
pub struct ExRedbStorageError(RedbStorageError);

/// `redb::CommitError`, carried through as an opaque value.
#[verifier::external_type_specification]
#[verifier::external_body]
pub struct ExRedbCommitError(redb::CommitError);

/// `redb::SetDurabilityError`, carried through as an opaque value.
#[verifier::external_type_specification]
#[verifier::external_body]
pub struct ExRedbSetDurabilityError(redb::SetDurabilityError);

/// `turso::Error`, carried through as an opaque value.
#[verifier::external_type_specification]
#[verifier::external_body]
pub struct ExTursoError(turso::Error);

/// `std::io::Error`, carried through as an opaque value.
#[verifier::external_type_specification]
#[verifier::external_body]
pub struct ExIoError(std::io::Error);

/// What a storage engine reported when one of its calls failed.
#[derive(Debug)]
pub enum BackendError {
    /// A redb database could not be opened or created.
    RedbDatabase(redb::DatabaseError),
    /// A redb transaction could not be started.
    RedbTransaction(redb::TransactionError),
    /// A redb table could not be opened.
    RedbTable(redb::TableError),
    /// A redb read or write failed.
    RedbStorage(RedbStorageError),
    /// A redb transaction could not be committed.
    RedbCommit(redb::CommitError),
    /// The durability of a redb transaction could not be set.
    RedbDurability(redb::SetDurabilityError),
    /// A turso call failed.
    Turso(turso::Error),
    /// The runtime that drives turso could not be built.
    Runtime(std::io::Error),
}

/// The error of every storage call.
#[derive(Debug)]
pub enum StorageError {
    /// The storage engine failed.
    Backend(BackendError),
    /// The request is one that this storage cannot serve.
    Unsupported(String),
}

/// The result of a storage call.
pub type StorageResult<T> = Result<T, StorageError>;

impl From<redb::DatabaseError> for StorageError {
    fn from(e: redb::DatabaseError) -> (r: Self) {
        StorageError::Backend(BackendError::RedbDatabase(e))
    }
}

impl vstd::std_specs::convert::FromSpecImpl<redb::DatabaseError> for StorageError {
    open spec fn obeys_from_spec() -> bool {
        true
    }

    open spec fn from_spec(e: redb::DatabaseError) -> Self {
        StorageError::Backend(BackendError::RedbDatabase(e))
    }
}

impl From<redb::TransactionError> for StorageError {
    fn from(e: redb::TransactionError) -> (r: Self) {
        StorageError::Backend(BackendError::RedbTransaction(e))
    }
}

impl vstd::std_specs::convert::FromSpecImpl<redb::TransactionError> for StorageError {
    open spec fn obeys_from_spec() -> bool {
        true
    }

    open spec fn from_spec(e: redb::TransactionError) -> Self {
        StorageError::Backend(BackendError::RedbTransaction(e))
    }
}

impl From<redb::TableError> for StorageError {
    fn from(e: redb::TableError) -> (r: Self) {
        StorageError::Backend(BackendError::RedbTable(e))
    }
}

impl vstd::std_specs::convert::FromSpecImpl<redb::TableError> for StorageError {
    open spec fn obeys_from_spec() -> bool {
        true
    }

    open spec fn from_spec(e: redb::TableError) -> Self {
        StorageError::Backend(BackendError::RedbTable(e))
    }
}

impl From<RedbStorageError> for StorageError {
    fn from(e: RedbStorageError) -> (r: Self) {
        StorageError::Backend(BackendError::RedbStorage(e))
    }
}

impl vstd::std_specs::convert::FromSpecImpl<RedbStorageError> for StorageError {
    open spec fn obeys_from_spec() -> bool {
        true
    }

    open spec fn from_spec(e: RedbStorageError) -> Self {
        StorageError::Backend(BackendError::RedbStorage(e))
    }
}

impl From<redb::CommitError> for StorageError {
    fn from(e: redb::CommitError) -> (r: Self) {
        StorageError::Backend(BackendError::RedbCommit(e))
    }
}

impl vstd::std_specs::convert::FromSpecImpl<redb::CommitError> for StorageError {
    open spec fn obeys_from_spec() -> bool {
        true
    }

    open spec fn from_spec(e: redb::CommitError) -> Self {
        StorageError::Backend(BackendError::RedbCommit(e))
    }
}

impl From<turso::Error> for StorageError {
    fn from(e: turso::Error) -> (r: Self) {
        StorageError::Backend(BackendError::Turso(e))
    }
}

impl vstd::std_specs::convert::FromSpecImpl<turso::Error> for StorageError {
    open spec fn obeys_from_spec() -> bool {
        true
    }

    open spec fn from_spec(e: turso::Error) -> Self {
        StorageError::Backend(BackendError::Turso(e))
    }
}

/// The error that a batch keeps after an operation ended with `outcome`: the first one stays.
pub open spec fn kept_error<T>(
    kept: Option<StorageError>,
    outcome: Result<T, StorageError>,
) -> Option<StorageError> {
    match (kept, outcome) {
        (None, Err(e)) => Some(e),
        _ => kept,
    }
}

/// The error that a batch keeps after its operations ended with `outcomes`, the first one first.
pub open spec fn kept_of_all<T>(
    kept: Option<StorageError>,
    outcomes: Seq<Result<T, StorageError>>,
) -> Option<StorageError>
    decreases outcomes.len(),
{
    if outcomes.len() == 0 {
        kept
    } else {
        kept_of_all(kept_error(kept, outcomes[0]), outcomes.skip(1))
    }
}

/// Once a batch has met an error it keeps that one, whatever comes later.
pub proof fn law_kept_error_stays<T>(e: StorageError, outcomes: Seq<Result<T, StorageError>>)
    ensures
        kept_of_all(Some(e), outcomes) == Some(e),
    decreases outcomes.len(),
{
    if outcomes.len() > 0 {
        law_kept_error_stays(e, outcomes.skip(1));
    }
}

/// The error that a batch keeps is that of the first operation that failed: `outcomes[first]`.
pub proof fn law_first_error_is_kept<T>(outcomes: Seq<Result<T, StorageError>>, first: int)
    requires
        0 <= first < outcomes.len(),
        outcomes[first] is Err,
        forall|i: int| 0 <= i < first ==> #[trigger] outcomes[i] is Ok,
    ensures
        kept_of_all(None, outcomes) == Some(outcomes[first]->Err_0),
    decreases outcomes.len(),
{
    if first == 0 {
        law_kept_error_stays(outcomes[0]->Err_0, outcomes.skip(1));
    } else {
        assert(outcomes[0] is Ok);
        assert forall|i: int| 0 <= i < first - 1 implies #[trigger] outcomes.skip(1)[i] is Ok by {
            assert(outcomes[i + 1] is Ok);
        }
        law_first_error_is_kept(outcomes.skip(1), first - 1);
    }
}

/// A batch none of whose operations failed has no error to keep.
pub proof fn law_no_error_is_kept<T>(outcomes: Seq<Result<T, StorageError>>)
    requires
        forall|i: int| 0 <= i < outcomes.len() ==> #[trigger] outcomes[i] is Ok,
    ensures
        kept_of_all(None, outcomes) is None,
    decreases outcomes.len(),
{
    if outcomes.len() > 0 {
        assert(outcomes[0] is Ok);
        assert forall|i: int| 0 <= i < outcomes.skip(1).len() implies #[trigger] outcomes.skip(
            1,
        )[i] is Ok by {
            assert(outcomes[i + 1] is Ok);
        }
        law_no_error_is_kept(outcomes.skip(1));
    }
}

} // verus!
