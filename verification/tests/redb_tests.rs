use std::path::PathBuf;
use std::sync::{Arc, Mutex};

use redb::backends::InMemoryBackend;
use redb::{
    Database, Durability, ReadTransaction, ReadableDatabase, StorageBackend, TableDefinition,
    WriteTransaction,
};
use smt_kvdb::config::{DatabaseFile, RocksDbConfig};
use smt_kvdb::error::{BackendError, StorageError, StorageResult};
use smt_kvdb::redb_kvdb::{
    RedbAction, RedbIter, RedbKVDB, RedbKVDBBatch, RedbKVDBSnapshot, RedbOutput, RedbReply,
    RedbRun,
};
use smt_kvdb::script::{PanicReason, Progress};

/// Performs scripts on a redb database in memory.
struct Session<'a> {
    db: &'a Database,
    write: Option<WriteTransaction>,
    read: Option<ReadTransaction>,
    open: Option<&'static str>,
    range: Option<redb::Range<'static, &'static [u8], &'static [u8]>>,
}

fn definition(name: &'static str) -> TableDefinition<'static, &'static [u8], &'static [u8]> {
    TableDefinition::new(name)
}

impl<'a> Session<'a> {
    fn new(db: &'a Database) -> Self {
        Session { db, write: None, read: None, open: None, range: None }
    }

    fn perform(&mut self, action: &RedbAction) -> RedbReply {
        match action {
            RedbAction::Create { .. } => RedbReply::Done,
            RedbAction::BeginWrite => match self.db.begin_write() {
                Ok(txn) => {
                    self.write = Some(txn);
                    RedbReply::Done
                },
                Err(e) => RedbReply::TransactionFailed(e),
            },
            RedbAction::BeginRead => match self.db.begin_read() {
                Ok(txn) => {
                    self.read = Some(txn);
                    RedbReply::Done
                },
                Err(e) => RedbReply::TransactionFailed(e),
            },
            RedbAction::SetDurabilityNone => {
                match self.write.as_mut().unwrap().set_durability(Durability::None) {
                    Ok(()) => RedbReply::Done,
                    Err(e) => RedbReply::DurabilityFailed(e),
                }
            },
            RedbAction::OpenTable { name } => {
                let opened = match (&self.write, &self.read) {
                    (Some(txn), _) => txn.open_table(definition(name)).map(|_| ()),
                    (None, Some(txn)) => txn.open_table(definition(name)).map(|_| ()),
                    (None, None) => panic!("no transaction"),
                };
                match opened {
                    Ok(()) => {
                        self.open = Some(name);
                        RedbReply::Done
                    },
                    Err(e) => RedbReply::TableFailed(e),
                }
            },
            RedbAction::Insert { key, value } => {
                let txn = self.write.as_ref().unwrap();
                let mut table = txn.open_table(definition(self.open.unwrap())).unwrap();
                let done = table.insert(key.as_slice(), value.as_slice()).map(|_| ());
                match done {
                    Ok(()) => RedbReply::Done,
                    Err(e) => RedbReply::StorageFailed(e),
                }
            },
            RedbAction::Remove { key } => {
                let txn = self.write.as_ref().unwrap();
                let mut table = txn.open_table(definition(self.open.unwrap())).unwrap();
                let done = table.remove(key.as_slice()).map(|_| ());
                match done {
                    Ok(()) => RedbReply::Done,
                    Err(e) => RedbReply::StorageFailed(e),
                }
            },
            RedbAction::Get { key } => {
                let txn = self.read.as_ref().unwrap();
                let table = txn.open_table(definition(self.open.unwrap())).unwrap();
                match table.get(key.as_slice()) {
                    Ok(found) => RedbReply::Value(found.map(|g| g.value().to_vec())),
                    Err(e) => RedbReply::StorageFailed(e),
                }
            },
            RedbAction::Range => {
                let txn = self.read.as_ref().unwrap();
                let table = txn.open_table(definition(self.open.unwrap())).unwrap();
                match table.range::<&[u8]>(..) {
                    Ok(range) => {
                        self.range = Some(range);
                        RedbReply::Done
                    },
                    Err(e) => RedbReply::StorageFailed(e),
                }
            },
            RedbAction::Commit => match self.write.take().unwrap().commit() {
                Ok(()) => RedbReply::Done,
                Err(e) => RedbReply::CommitFailed(e),
            },
        }
    }

    fn drive(&mut self, mut run: RedbRun) -> StorageResult<RedbOutput> {
        while let Some(action) = run.action() {
            let reply = self.perform(action);
            match run.resume(reply) {
                Progress::Continue => {},
                Progress::Finished(result) => return result,
                Progress::Panic(reason, e) => panic!("{}: {e:?}", reason.message()),
            }
        }
        Ok(RedbOutput::Done)
    }
}

fn config(path: &str) -> RocksDbConfig {
    RocksDbConfig { path: PathBuf::from(path), cache_size: 1 << 20, max_open_files: 512 }
}

fn open() -> Database {
    let db = Database::builder().create_with_backend(InMemoryBackend::new()).unwrap();
    Session::new(&db).drive(RedbKVDB::new(config("db"), false)).unwrap();
    db
}

/// A disk whose bytes outlive the database on it.
#[derive(Debug, Clone)]
struct Disk(Arc<Mutex<Vec<u8>>>);

impl Disk {
    fn holding(bytes: Vec<u8>) -> Self {
        Disk(Arc::new(Mutex::new(bytes)))
    }

    /// The disk as a crash at this moment leaves it.
    fn after_crash(&self) -> Disk {
        Disk::holding(self.0.lock().unwrap().clone())
    }

    fn open(&self) -> Database {
        let db = Database::builder().create_with_backend(self.clone()).unwrap();
        Session::new(&db).drive(RedbKVDB::new(config("db"), false)).unwrap();
        db
    }
}

impl StorageBackend for Disk {
    fn len(&self) -> Result<u64, std::io::Error> {
        Ok(self.0.lock().unwrap().len() as u64)
    }

    fn read(&self, offset: u64, out: &mut [u8]) -> Result<(), std::io::Error> {
        let start = offset as usize;
        out.copy_from_slice(&self.0.lock().unwrap()[start..start + out.len()]);
        Ok(())
    }

    fn set_len(&self, len: u64) -> Result<(), std::io::Error> {
        self.0.lock().unwrap().resize(len as usize, 0);
        Ok(())
    }

    fn sync_data(&self) -> Result<(), std::io::Error> {
        Ok(())
    }

    fn write(&self, offset: u64, data: &[u8]) -> Result<(), std::io::Error> {
        let start = offset as usize;
        self.0.lock().unwrap()[start..start + data.len()].copy_from_slice(data);
        Ok(())
    }
}

fn get(db: &Database, name: &str, key: &[u8]) -> Option<Vec<u8>> {
    let table = RedbKVDB.table(name).unwrap();
    let out = Session::new(db).drive(RedbKVDB.get(&table, key)).unwrap();
    out.into_value().map(|bytes| {
        assert_eq!(bytes.as_ref(), &*bytes);
        bytes.to_vec()
    })
}

fn put(session: &mut Session, batch: &mut RedbKVDBBatch, name: &str, key: &[u8], value: &[u8]) {
    let table = RedbKVDB.table(name).unwrap();
    let outcome = session.drive(batch.put(&table, key, value));
    batch.record(outcome);
}

fn remove(session: &mut Session, batch: &mut RedbKVDBBatch, name: &str, key: &[u8]) {
    let table = RedbKVDB.table(name).unwrap();
    let outcome = session.drive(batch.delete(&table, key));
    batch.record(outcome);
}

fn begin<'a>(db: &'a Database) -> (Session<'a>, RedbKVDBBatch) {
    let mut session = Session::new(db);
    let (run, batch) = RedbKVDB.batch();
    session.drive(run).unwrap();
    (session, batch)
}

fn entries(session: &mut Session, run: RedbRun) -> Vec<(Vec<u8>, Vec<u8>)> {
    let mut it = RedbIter::new(session.drive(run));
    let mut found = Vec::new();
    loop {
        assert!(it.reads());
        let fetched = session
            .range
            .as_mut()
            .unwrap()
            .next()
            .map(|r| r.map(|(k, v)| (k.value().to_vec(), v.value().to_vec())));
        let (next, item) = it.next(fetched);
        it = next;
        match item {
            Some(Ok((k, v))) => found.push((k.to_vec(), v.to_vec())),
            Some(Err(e)) => panic!("{e:?}"),
            None => return found,
        }
    }
}

fn sample_error() -> redb::StorageError {
    redb::StorageError::ValueTooLarge(7)
}

#[test]
fn redb_opening_creates_every_table() {
    let db = open();
    for name in smt_kvdb::schema::all_table_names() {
        assert_eq!(get(&db, name, b"k"), None);
    }
}

#[test]
fn redb_reading_without_the_tables_fails() {
    let db = Database::builder().create_with_backend(InMemoryBackend::new()).unwrap();
    let table = RedbKVDB.table("leaves").unwrap();
    match Session::new(&db).drive(RedbKVDB.get(&table, b"k")) {
        Err(StorageError::Backend(BackendError::RedbTable(
            redb::TableError::TableDoesNotExist(name),
        ))) => assert_eq!(name, "leaves"),
        other => panic!("unexpected {other:?}"),
    }
}

#[test]
fn closing_in_order_keeps_every_commit() {
    let disk = Disk::holding(Vec::new());
    let db = disk.open();
    let (mut session, mut batch) = begin(&db);
    put(&mut session, &mut batch, "leaves", b"a", b"1");
    session.drive(batch.commit().unwrap()).unwrap();
    drop(session);
    drop(db);
    assert_eq!(get(&disk.open(), "leaves", b"a"), Some(b"1".to_vec()));
}

#[test]
fn a_crash_keeps_what_was_synced() {
    let disk = Disk::holding(Vec::new());
    let db = disk.open();
    let (mut session, mut batch) = begin(&db);
    put(&mut session, &mut batch, "leaves", b"a", b"1");
    session.drive(batch.commit().unwrap()).unwrap();
    Session::new(&db).drive(RedbKVDB.sync()).unwrap();
    let (mut session, mut batch) = begin(&db);
    put(&mut session, &mut batch, "leaves", b"a", b"2");
    session.drive(batch.commit().unwrap()).unwrap();
    assert_eq!(get(&db, "leaves", b"a"), Some(b"2".to_vec()));
    let unsynced = disk.after_crash();
    assert_eq!(get(&unsynced.open(), "leaves", b"a"), Some(b"1".to_vec()));
    Session::new(&db).drive(RedbKVDB.sync()).unwrap();
    let synced = disk.after_crash();
    assert_eq!(get(&synced.open(), "leaves", b"a"), Some(b"2".to_vec()));
}

#[test]
fn opening_again_keeps_entries() {
    let db = open();
    let (mut session, mut batch) = begin(&db);
    put(&mut session, &mut batch, "leaves", b"k", b"v");
    session.drive(batch.commit().unwrap()).unwrap();
    Session::new(&db).drive(RedbKVDB::new(config("db"), false)).unwrap();
    assert_eq!(get(&db, "leaves", b"k"), Some(b"v".to_vec()));
}

#[test]
fn redb_committed_batch_is_read_back() {
    let db = open();
    let (mut session, mut batch) = begin(&db);
    put(&mut session, &mut batch, "leaves", b"a", b"1");
    put(&mut session, &mut batch, "leaves", b"b", b"2");
    put(&mut session, &mut batch, "leaves", b"a", b"3");
    remove(&mut session, &mut batch, "leaves", b"b");
    put(&mut session, &mut batch, "st16", b"a", b"4");
    remove(&mut session, &mut batch, "metadata", b"absent");
    assert_eq!(get(&db, "leaves", b"a"), None);
    session.drive(batch.commit().unwrap()).unwrap();
    assert_eq!(get(&db, "leaves", b"a"), Some(b"3".to_vec()));
    assert_eq!(get(&db, "leaves", b"b"), None);
    assert_eq!(get(&db, "st16", b"a"), Some(b"4".to_vec()));
    assert_eq!(get(&db, "st24", b"a"), None);
    Session::new(&db).drive(RedbKVDB.sync()).unwrap();
    assert_eq!(get(&db, "leaves", b"a"), Some(b"3".to_vec()));
}

#[test]
fn dropped_batch_changes_nothing() {
    let db = open();
    {
        let (mut session, mut batch) = begin(&db);
        put(&mut session, &mut batch, "leaves", b"a", b"1");
    }
    assert_eq!(get(&db, "leaves", b"a"), None);
}

#[test]
fn redb_delete_removes_the_key_only() {
    let db = open();
    let (mut session, mut batch) = begin(&db);
    put(&mut session, &mut batch, "leaves", b"a", b"1");
    put(&mut session, &mut batch, "leaves", b"b", b"2");
    session.drive(batch.commit().unwrap()).unwrap();
    let table = RedbKVDB.table("leaves").unwrap();
    Session::new(&db).drive(RedbKVDB.delete(&table, b"a")).unwrap();
    Session::new(&db).drive(RedbKVDB.delete(&table, b"absent")).unwrap();
    assert_eq!(get(&db, "leaves", b"a"), None);
    assert_eq!(get(&db, "leaves", b"b"), Some(b"2".to_vec()));
}

#[test]
fn redb_snapshot_keeps_its_view() {
    let db = open();
    let (mut session, mut batch) = begin(&db);
    put(&mut session, &mut batch, "leaves", b"a", b"1");
    session.drive(batch.commit().unwrap()).unwrap();

    let mut reader = Session::new(&db);
    let (run, snapshot) = RedbKVDB.snapshot();
    reader.drive(run).unwrap();
    let (mut session, mut batch) = begin(&db);
    put(&mut session, &mut batch, "leaves", b"a", b"2");
    put(&mut session, &mut batch, "leaves", b"b", b"3");
    session.drive(batch.commit().unwrap()).unwrap();

    let table = snapshot.table("leaves").unwrap();
    let out = reader.drive(snapshot.get(&table, b"a")).unwrap();
    assert_eq!(&**out.into_value().as_ref().unwrap(), b"1");
    assert!(reader.drive(snapshot.get(&table, b"b")).unwrap().into_value().is_none());
    assert_eq!(
        entries(&mut reader, snapshot.iter(table)),
        vec![(b"a".to_vec(), b"1".to_vec())]
    );
    assert_eq!(get(&db, "leaves", b"a"), Some(b"2".to_vec()));
}

#[test]
fn redb_iteration_is_in_key_order() {
    let db = open();
    let (mut session, mut batch) = begin(&db);
    for (k, v) in [(&b"b"[..], b"1"), (&b"a"[..], b"2"), (&b"ab"[..], b"3"), (&b""[..], b"4")] {
        put(&mut session, &mut batch, "st56", k, v);
    }
    session.drive(batch.commit().unwrap()).unwrap();
    let table = RedbKVDB.table("st56").unwrap();
    let found = entries(&mut Session::new(&db), RedbKVDB.iter(table.clone()));
    assert_eq!(
        found,
        vec![
            (b"".to_vec(), b"4".to_vec()),
            (b"a".to_vec(), b"2".to_vec()),
            (b"ab".to_vec(), b"3".to_vec()),
            (b"b".to_vec(), b"1".to_vec()),
        ]
    );
}

#[test]
fn redb_failed_iteration_has_one_item() {
    let it = RedbIter::new(Err(StorageError::from(sample_error())));
    assert!(!it.reads());
    let (it, item) = it.next(Some(Ok((vec![1], vec![2]))));
    assert!(matches!(
        item,
        Some(Err(StorageError::Backend(BackendError::RedbStorage(
            redb::StorageError::ValueTooLarge(7)
        ))))
    ));
    assert!(!it.reads());
    let (it, item) = it.next(Some(Ok((vec![1], vec![2]))));
    assert!(item.is_none());
    assert!(matches!(it, RedbIter::Ended));
}

#[test]
fn iteration_hands_errors_on_and_goes_on() {
    let it = RedbIter::new(Ok(RedbOutput::Done));
    let (it, item) = it.next(Some(Err(sample_error())));
    assert!(matches!(item, Some(Err(StorageError::Backend(BackendError::RedbStorage(_))))));
    let (it, item) = it.next(Some(Ok((vec![1], vec![2]))));
    let (k, v) = item.unwrap().unwrap();
    assert_eq!((&*k, &*v), (&[1u8][..], &[2u8][..]));
    let (it, item) = it.next(None);
    assert!(item.is_none());
    assert!(it.reads());
}

#[test]
fn first_error_of_a_batch_stays() {
    let table = RedbKVDB.table("leaves").unwrap();
    let (_, mut batch) = RedbKVDB.batch();
    assert!(batch.put(&table, b"k", b"v").action().is_some());
    batch.record(Ok(RedbOutput::Done));
    batch.record(Err(StorageError::Unsupported("first".to_string())));
    batch.record(Err(StorageError::Unsupported("second".to_string())));
    batch.record(Ok(RedbOutput::Done));
    assert!(batch.put(&table, b"k", b"v").action().is_none());
    assert!(batch.delete(&table, b"k").action().is_none());
    match batch.commit() {
        Err(StorageError::Unsupported(text)) => assert_eq!(text, "first"),
        other => panic!("unexpected {other:?}"),
    }
}

#[test]
fn failing_put_ends_at_the_failing_call() {
    let table = RedbKVDB.table("leaves").unwrap();
    let (_, batch) = RedbKVDB.batch();
    let mut run = batch.put(&table, b"k", b"v");
    assert!(matches!(run.action(), Some(RedbAction::OpenTable { name: "leaves" })));
    assert!(matches!(run.resume(RedbReply::Done), Progress::Continue));
    match run.action() {
        Some(RedbAction::Insert { key, value }) => {
            assert_eq!((key.as_slice(), value.as_slice()), (&b"k"[..], &b"v"[..]));
        },
        other => panic!("unexpected {other:?}"),
    }
    assert!(matches!(
        run.resume(RedbReply::StorageFailed(sample_error())),
        Progress::Finished(Err(StorageError::Backend(BackendError::RedbStorage(_))))
    ));
    assert!(run.action().is_none());
}

#[test]
fn every_redb_error_is_passed_on() {
    let table = RedbKVDB.table("leaves").unwrap();
    let replies = vec![
        RedbReply::DatabaseFailed(redb::DatabaseError::DatabaseAlreadyOpen),
        RedbReply::TransactionFailed(redb::TransactionError::Storage(sample_error())),
        RedbReply::TableFailed(redb::TableError::TableDoesNotExist("t".to_string())),
        RedbReply::StorageFailed(sample_error()),
        RedbReply::CommitFailed(redb::CommitError::Storage(sample_error())),
        RedbReply::DurabilityFailed(redb::SetDurabilityError::PersistentSavepointModified),
    ];
    let mut shown = Vec::new();
    for reply in replies {
        let mut run = RedbKVDB.delete(&table, b"k");
        match run.resume(reply) {
            Progress::Finished(Err(StorageError::Backend(e))) => shown.push(format!("{e:?}")),
            other => panic!("unexpected {other:?}"),
        }
        assert!(run.action().is_none());
    }
    assert_eq!(
        shown,
        vec![
            "RedbDatabase(DatabaseAlreadyOpen)",
            "RedbTransaction(Storage(ValueTooLarge(7)))",
            "RedbTable(TableDoesNotExist(\"t\"))",
            "RedbStorage(ValueTooLarge(7))",
            "RedbCommit(Storage(ValueTooLarge(7)))",
            "RedbDurability(PersistentSavepointModified)",
        ]
    );
}

#[test]
fn redb_batch_that_cannot_start_panics() {
    let (mut run, _) = RedbKVDB.batch();
    let failed = RedbReply::TransactionFailed(redb::TransactionError::Storage(sample_error()));
    match run.resume(failed) {
        Progress::Panic(reason, StorageError::Backend(BackendError::RedbTransaction(_))) => {
            assert_eq!(reason, PanicReason::RedbBeginWrite);
            assert_eq!(
                reason.message(),
                "redb begin_write failed; this should not happen with serialized SMT writes"
            );
        },
        other => panic!("unexpected {other:?}"),
    }
    let (mut run, _) = RedbKVDB.batch();
    assert!(matches!(run.resume(RedbReply::Done), Progress::Continue));
    assert!(matches!(run.action(), Some(RedbAction::SetDurabilityNone)));
    let failed =
        RedbReply::DurabilityFailed(redb::SetDurabilityError::PersistentSavepointModified);
    match run.resume(failed) {
        Progress::Panic(reason, _) => {
            assert_eq!(reason.message(), "set_durability before any write cannot fail");
        },
        other => panic!("unexpected {other:?}"),
    }
}

#[test]
fn redb_file_is_put_into_a_directory() {
    let run = RedbKVDB::new(config("some/dir"), true);
    match run.action() {
        Some(RedbAction::Create { cache_size, file: DatabaseFile::Inside(dir, name) }) => {
            assert_eq!(*cache_size, 1 << 20);
            assert_eq!(dir, &PathBuf::from("some/dir"));
            assert_eq!(*name, "data.redb");
        },
        other => panic!("unexpected {other:?}"),
    }
    let run = RedbKVDB::new(config("some/file"), false);
    match run.action() {
        Some(RedbAction::Create { file: DatabaseFile::Given(path), .. }) => {
            assert_eq!(path, &PathBuf::from("some/file"));
        },
        other => panic!("unexpected {other:?}"),
    }
}

#[test]
fn opening_makes_its_calls_in_order() {
    let mut run = RedbKVDB::new(config("db"), false);
    let mut names = Vec::new();
    let mut calls = 0;
    loop {
        if let Some(RedbAction::OpenTable { name }) = run.action() {
            names.push(*name);
        }
        calls += 1;
        match run.resume(RedbReply::Done) {
            Progress::Continue => {},
            Progress::Finished(Ok(_)) => break,
            other => panic!("unexpected {other:?}"),
        }
    }
    assert_eq!(calls, 12);
    assert_eq!(names, smt_kvdb::schema::all_table_names());
}

#[test]
fn syncing_is_an_empty_commit() {
    let mut run = RedbKVDB.sync();
    assert!(matches!(run.action(), Some(RedbAction::BeginWrite)));
    assert!(matches!(run.resume(RedbReply::Done), Progress::Continue));
    assert!(matches!(run.action(), Some(RedbAction::Commit)));
    assert!(matches!(run.resume(RedbReply::Done), Progress::Finished(Ok(RedbOutput::Done))));
}

#[test]
fn snapshot_reads_in_its_own_transaction() {
    let table = RedbKVDBSnapshot.table("leaves").unwrap();
    let mut run = RedbKVDBSnapshot.get(&table, b"k");
    assert!(matches!(run.action(), Some(RedbAction::OpenTable { name: "leaves" })));
    assert!(matches!(run.resume(RedbReply::Done), Progress::Continue));
    assert!(matches!(run.action(), Some(RedbAction::Get { .. })));
    match run.resume(RedbReply::Value(Some(vec![1, 2]))) {
        Progress::Finished(Ok(out)) => assert_eq!(&*out.into_value().unwrap(), &[1u8, 2][..]),
        other => panic!("unexpected {other:?}"),
    }
}

#[test]
fn bytes_show_as_a_tuple() {
    let bytes = smt_kvdb::redb_bytes::RedbBytes::new(vec![1, 2, 3]);
    assert_eq!(format!("{bytes:?}"), "RedbBytes([1, 2, 3])");
}
