use std::path::PathBuf;

use smt_kvdb::config::{DatabaseFile, RocksDbConfig};
use smt_kvdb::error::{BackendError, StorageError, StorageResult};
use smt_kvdb::script::{PanicReason, Progress};
use smt_kvdb::turso_kvdb::{
    TursoAction, TursoKVDB, TursoKVDBBatch, TursoKVDBSnapshot, TursoOutput, TursoReply, TursoRun,
};
use smt_kvdb::turso_row::{entry_of, row_entry, row_value, value_of, Column, TursoRowIter};
use smt_kvdb::turso_sql::Statement;
use tokio::runtime::{Builder, Runtime};
use turso::params::Params;
use turso::Value;

/// Performs scripts on a turso database in memory.
struct Session<'a> {
    store: &'a Store,
    conn: turso::Connection,
    stmt: Option<turso::Statement>,
    rows: Option<turso::Rows>,
    performed: Vec<String>,
}

struct Store {
    rt: Runtime,
    db: turso::Database,
}

fn params(values: &[Vec<u8>]) -> Params {
    if values.is_empty() {
        Params::None
    } else {
        Params::Positional(values.iter().map(|v| Value::Blob(v.clone())).collect())
    }
}

impl<'a> Session<'a> {
    fn new(store: &'a Store) -> Self {
        let conn = store.db.connect().unwrap();
        Session { store, conn, stmt: None, rows: None, performed: Vec::new() }
    }

    fn done<T>(result: Result<T, turso::Error>) -> TursoReply {
        match result {
            Ok(_) => TursoReply::Done,
            Err(e) => TursoReply::Failed(e),
        }
    }

    fn perform(&mut self, action: &TursoAction) -> TursoReply {
        let rt = &self.store.rt;
        match action {
            TursoAction::BuildRuntime => TursoReply::Done,
            TursoAction::Open { .. } => TursoReply::Done,
            TursoAction::Connect => match self.store.db.connect() {
                Ok(conn) => {
                    self.conn = conn;
                    TursoReply::Done
                },
                Err(e) => TursoReply::Failed(e),
            },
            TursoAction::Prepare { sql } => {
                match rt.block_on(self.conn.prepare_cached(sql.text())) {
                    Ok(stmt) => {
                        self.stmt = Some(stmt);
                        TursoReply::Done
                    },
                    Err(e) => TursoReply::Failed(e),
                }
            },
            TursoAction::ExecutePrepared { params: values } => {
                Self::done(rt.block_on(self.stmt.as_mut().unwrap().execute(params(values))))
            },
            TursoAction::QueryPrepared { params: values } => {
                match rt.block_on(self.stmt.as_mut().unwrap().query(params(values))) {
                    Ok(rows) => {
                        self.rows = Some(rows);
                        TursoReply::Done
                    },
                    Err(e) => TursoReply::Failed(e),
                }
            },
            TursoAction::Execute { sql } => {
                self.performed.push(sql.text());
                Self::done(rt.block_on(self.conn.execute(sql.text(), ())))
            },
            TursoAction::ExecuteBatch { sql } => {
                Self::done(rt.block_on(self.conn.execute_batch(sql.text())))
            },
            TursoAction::Query { sql } => {
                match rt.block_on(self.conn.query(sql.text(), ())) {
                    Ok(rows) => {
                        self.rows = Some(rows);
                        TursoReply::Done
                    },
                    Err(e) => TursoReply::Failed(e),
                }
            },
            TursoAction::FetchRow | TursoAction::DrainRow => match self.fetch() {
                Ok(Some(row)) => TursoReply::Row(row),
                Ok(None) => TursoReply::End,
                Err(e) => TursoReply::Failed(e),
            },
            TursoAction::CacheFlush => Self::done(self.conn.cacheflush()),
            TursoAction::CheckAutocommit => match self.conn.is_autocommit() {
                Ok(outside) => TursoReply::Autocommit(outside),
                Err(e) => TursoReply::Failed(e),
            },
        }
    }

    fn fetch(&mut self) -> Result<Option<turso::Row>, turso::Error> {
        self.store.rt.block_on(self.rows.as_mut().unwrap().next())
    }

    fn drive(&mut self, mut run: TursoRun) -> StorageResult<TursoOutput> {
        let mut result = Ok(TursoOutput::Done);
        while let Some(action) = run.action() {
            let reply = self.perform(action);
            match run.resume(reply) {
                Progress::Continue => {},
                Progress::Finished(outcome) => result = outcome,
                Progress::Panic(reason, e) => panic!("{}: {e:?}", reason.message()),
            }
        }
        self.stmt = None;
        result
    }
}

fn config(path: &str) -> RocksDbConfig {
    RocksDbConfig { path: PathBuf::from(path), cache_size: 64 << 20, max_open_files: 512 }
}

fn empty_store() -> Store {
    let rt = Builder::new_current_thread().build().unwrap();
    let db = rt.block_on(turso::Builder::new_local(":memory:").build()).unwrap();
    Store { rt, db }
}

fn get(session: &mut Session, name: &str, key: &[u8]) -> Option<Vec<u8>> {
    let table = TursoKVDB.table(name).unwrap();
    let out = session.drive(TursoKVDB.get(&table, key)).unwrap();
    let value = out.into_value().unwrap();
    session.rows = None;
    value
}

fn begin(session: &mut Session) -> TursoKVDBBatch {
    let (run, batch) = TursoKVDB.batch();
    session.drive(run).unwrap();
    batch
}

fn put(session: &mut Session, batch: &mut TursoKVDBBatch, name: &str, key: &[u8], value: &[u8]) {
    let table = TursoKVDB.table(name).unwrap();
    let outcome = session.drive(batch.put(&table, key, value));
    batch.record(outcome);
}

fn remove(session: &mut Session, batch: &mut TursoKVDBBatch, name: &str, key: &[u8]) {
    let table = TursoKVDB.table(name).unwrap();
    let outcome = session.drive(batch.delete(&table, key));
    batch.record(outcome);
}

fn commit(session: &mut Session, mut batch: TursoKVDBBatch) -> StorageResult<()> {
    let outcome = session.drive(batch.commit());
    let result = batch.finish(outcome);
    session.drive(batch.close()).unwrap();
    result
}

fn entries(session: &mut Session, run: TursoRun) -> Vec<(Vec<u8>, Vec<u8>)> {
    let mut it = TursoRowIter::new(session.drive(run));
    let mut found = Vec::new();
    while it.reads() {
        let fetched = session.fetch();
        let (next, item) = it.next(fetched);
        it = next;
        match item {
            Some(Ok(pair)) => found.push(pair),
            Some(Err(e)) => panic!("{e:?}"),
            None => {},
        }
    }
    session.rows = None;
    found
}

fn row_of(store: &Store, sql: &str) -> turso::Row {
    let conn = store.db.connect().unwrap();
    store.rt.block_on(async {
        let mut rows = conn.query(sql, ()).await.unwrap();
        rows.next().await.unwrap().unwrap()
    })
}

fn misuse() -> turso::Error {
    turso::Error::Misuse("m".to_string())
}

#[test]
fn turso_opening_creates_every_table() {
    let store = empty_store();
    let mut session = Session::new(&store);
    session.drive(TursoKVDB::new(config("db"), false)).unwrap();
    for name in smt_kvdb::schema::all_table_names() {
        assert_eq!(get(&mut session, name, b"k"), None);
    }
    session.drive(TursoKVDB::new(config("db"), false)).unwrap();
    assert_eq!(get(&mut session, "leaves", b"k"), None);
}

#[test]
fn turso_reading_without_the_tables_fails() {
    let store = empty_store();
    let mut session = Session::new(&store);
    let table = TursoKVDB.table("leaves").unwrap();
    assert!(matches!(
        session.drive(TursoKVDB.get(&table, b"k")),
        Err(StorageError::Backend(BackendError::Turso(_)))
    ));
}

#[test]
fn turso_committed_batch_is_read_back() {
    let store = empty_store();
    let mut session = Session::new(&store);
    session.drive(TursoKVDB::new(config("db"), false)).unwrap();
    let mut batch = begin(&mut session);
    put(&mut session, &mut batch, "leaves", b"a", b"1");
    put(&mut session, &mut batch, "leaves", b"b", b"2");
    put(&mut session, &mut batch, "leaves", b"a", b"3");
    remove(&mut session, &mut batch, "leaves", b"b");
    put(&mut session, &mut batch, "st16", b"a", b"4");
    // The open batch shows on its connection.
    assert_eq!(get(&mut session, "leaves", b"a"), Some(b"3".to_vec()));
    assert_eq!(get(&mut session, "leaves", b"b"), None);
    commit(&mut session, batch).unwrap();
    assert_eq!(get(&mut session, "leaves", b"a"), Some(b"3".to_vec()));
    assert_eq!(get(&mut session, "leaves", b"b"), None);
    assert_eq!(get(&mut session, "st16", b"a"), Some(b"4".to_vec()));
    assert_eq!(get(&mut session, "st24", b"a"), None);
    session.drive(TursoKVDB.sync()).unwrap();
    assert_eq!(get(&mut session, "leaves", b"a"), Some(b"3".to_vec()));
}

#[test]
fn reads_and_deletes_may_come_between() {
    let store = empty_store();
    let mut session = Session::new(&store);
    let mut other = Session::new(&store);
    session.drive(TursoKVDB::new(config("db"), false)).unwrap();
    let mut batch = begin(&mut session);
    put(&mut session, &mut batch, "leaves", b"a", b"1");
    put(&mut session, &mut batch, "leaves", b"b", b"2");
    commit(&mut session, batch).unwrap();
    let mut batch = begin(&mut session);
    // A batch may read before it writes.
    assert_eq!(get(&mut session, "leaves", b"a"), Some(b"1".to_vec()));
    let leaves = TursoKVDB.table("leaves").unwrap();
    assert_eq!(entries(&mut session, TursoKVDB.iter(leaves.clone())).len(), 2);
    put(&mut session, &mut batch, "leaves", b"a", b"3");
    assert_eq!(get(&mut session, "leaves", b"a"), Some(b"3".to_vec()));
    // A delete of the storage joins the batch.
    session.drive(TursoKVDB.delete(&leaves, b"b")).unwrap();
    put(&mut session, &mut batch, "leaves", b"c", b"4");
    assert_eq!(
        entries(&mut session, TursoKVDB.iter(leaves.clone())),
        vec![(b"a".to_vec(), b"3".to_vec()), (b"c".to_vec(), b"4".to_vec())]
    );
    assert_eq!(get(&mut other, "leaves", b"b"), Some(b"2".to_vec()));
    commit(&mut session, batch).unwrap();
    assert_eq!(get(&mut other, "leaves", b"a"), Some(b"3".to_vec()));
    assert_eq!(get(&mut other, "leaves", b"b"), None);
    assert_eq!(get(&mut other, "leaves", b"c"), Some(b"4".to_vec()));
}

#[test]
fn iteration_is_run_at_its_first_row() {
    let store = empty_store();
    let mut session = Session::new(&store);
    session.drive(TursoKVDB::new(config("db"), false)).unwrap();
    let mut writer = Session::new(&store);
    let mut batch = begin(&mut writer);
    put(&mut writer, &mut batch, "leaves", b"a", b"1");
    commit(&mut writer, batch).unwrap();
    let leaves = TursoKVDB.table("leaves").unwrap();
    session.drive(TursoKVDB.batch().0).unwrap();
    let started = session.drive(TursoKVDB.iter(leaves.clone()));
    // The transaction has no view of the tables yet, so it still sees this commit.
    let mut batch = begin(&mut writer);
    put(&mut writer, &mut batch, "leaves", b"b", b"2");
    commit(&mut writer, batch).unwrap();
    let mut it = TursoRowIter::new(started);
    let mut keys = Vec::new();
    while it.reads() {
        let (next, item) = it.next(session.fetch());
        it = next;
        if let Some(pair) = item {
            keys.push(pair.unwrap().0);
        }
    }
    session.rows = None;
    assert_eq!(keys, vec![b"a".to_vec(), b"b".to_vec()]);
    // With the first row it has taken its view.
    let mut batch = begin(&mut writer);
    put(&mut writer, &mut batch, "leaves", b"c", b"3");
    commit(&mut writer, batch).unwrap();
    assert_eq!(get(&mut session, "leaves", b"c"), None);
}

#[test]
fn syncing_beside_an_open_snapshot_succeeds() {
    let store = empty_store();
    let mut session = Session::new(&store);
    session.drive(TursoKVDB::new(config("db"), false)).unwrap();
    let mut batch = begin(&mut session);
    put(&mut session, &mut batch, "leaves", b"a", b"1");
    commit(&mut session, batch).unwrap();
    let (run, snapshot) = TursoKVDB.snapshot();
    let mut reader = Session::new(&store);
    reader.drive(run).unwrap();
    let mut batch = begin(&mut session);
    put(&mut session, &mut batch, "leaves", b"a", b"2");
    commit(&mut session, batch).unwrap();
    session.drive(TursoKVDB.sync()).unwrap();
    assert_eq!(get(&mut session, "leaves", b"a"), Some(b"2".to_vec()));
    assert_eq!(get(&mut reader, "leaves", b"a"), Some(b"1".to_vec()));
    reader.drive(snapshot.close()).unwrap();
    session.drive(TursoKVDB.sync()).unwrap();
}

#[test]
fn syncing_during_a_batch_or_an_iteration_fails() {
    let store = empty_store();
    let mut session = Session::new(&store);
    session.drive(TursoKVDB::new(config("db"), false)).unwrap();
    let mut batch = begin(&mut session);
    put(&mut session, &mut batch, "leaves", b"a", b"1");
    put(&mut session, &mut batch, "leaves", b"b", b"2");
    assert!(session.drive(TursoKVDB.sync()).is_err());
    session.rows = None;
    commit(&mut session, batch).unwrap();
    let leaves = TursoKVDB.table("leaves").unwrap();
    session.drive(TursoKVDB.iter(leaves)).unwrap();
    assert!(session.fetch().unwrap().is_some());
    let in_progress = session.rows.take();
    assert!(session.drive(TursoKVDB.sync()).is_err());
    session.rows = None;
    drop(in_progress);
    session.drive(TursoKVDB.sync()).unwrap();
}

#[test]
fn dropped_batch_takes_a_joined_delete_back() {
    let store = empty_store();
    let mut session = Session::new(&store);
    session.drive(TursoKVDB::new(config("db"), false)).unwrap();
    let mut batch = begin(&mut session);
    put(&mut session, &mut batch, "leaves", b"a", b"1");
    commit(&mut session, batch).unwrap();
    let batch = begin(&mut session);
    let leaves = TursoKVDB.table("leaves").unwrap();
    session.drive(TursoKVDB.delete(&leaves, b"a")).unwrap();
    assert_eq!(get(&mut session, "leaves", b"a"), None);
    session.drive(batch.close()).unwrap();
    assert_eq!(get(&mut session, "leaves", b"a"), Some(b"1".to_vec()));
}

#[test]
fn failed_batch_is_taken_back() {
    let store = empty_store();
    let mut session = Session::new(&store);
    session.drive(TursoKVDB::new(config("db"), false)).unwrap();
    let mut batch = begin(&mut session);
    put(&mut session, &mut batch, "leaves", b"a", b"1");
    batch.record(Err(StorageError::Unsupported("first".to_string())));
    put(&mut session, &mut batch, "leaves", b"b", b"2");
    batch.record(Err(StorageError::Unsupported("second".to_string())));
    match commit(&mut session, batch) {
        Err(StorageError::Unsupported(text)) => assert_eq!(text, "first"),
        other => panic!("unexpected {other:?}"),
    }
    assert_eq!(get(&mut session, "leaves", b"a"), None);
    assert_eq!(get(&mut session, "leaves", b"b"), None);
}

#[test]
fn dropped_batch_is_taken_back() {
    let store = empty_store();
    let mut session = Session::new(&store);
    session.drive(TursoKVDB::new(config("db"), false)).unwrap();
    let mut batch = begin(&mut session);
    put(&mut session, &mut batch, "leaves", b"a", b"1");
    session.performed.clear();
    session.drive(batch.close()).unwrap();
    assert_eq!(session.performed, vec!["ROLLBACK"]);
    assert_eq!(get(&mut session, "leaves", b"a"), None);
    // There is no transaction left, so nothing more is taken back.
    session.performed.clear();
    session.drive(batch.close()).unwrap();
    assert!(session.performed.is_empty());
}

#[test]
fn turso_delete_removes_the_key_only() {
    let store = empty_store();
    let mut session = Session::new(&store);
    session.drive(TursoKVDB::new(config("db"), false)).unwrap();
    let mut batch = begin(&mut session);
    put(&mut session, &mut batch, "leaves", b"a", b"1");
    put(&mut session, &mut batch, "leaves", b"b", b"2");
    commit(&mut session, batch).unwrap();
    let table = TursoKVDB.table("leaves").unwrap();
    session.drive(TursoKVDB.delete(&table, b"a")).unwrap();
    session.drive(TursoKVDB.delete(&table, b"absent")).unwrap();
    assert_eq!(get(&mut session, "leaves", b"a"), None);
    assert_eq!(get(&mut session, "leaves", b"b"), Some(b"2".to_vec()));
}

#[test]
fn turso_snapshot_keeps_its_view() {
    let store = empty_store();
    let mut session = Session::new(&store);
    session.drive(TursoKVDB::new(config("db"), false)).unwrap();
    let mut batch = begin(&mut session);
    put(&mut session, &mut batch, "leaves", b"a", b"1");
    commit(&mut session, batch).unwrap();

    let mut reader = Session::new(&store);
    let (run, snapshot) = TursoKVDB.snapshot();
    reader.drive(run).unwrap();
    reader.rows = None;
    let mut batch = begin(&mut session);
    put(&mut session, &mut batch, "leaves", b"a", b"2");
    put(&mut session, &mut batch, "leaves", b"b", b"3");
    commit(&mut session, batch).unwrap();

    let table = snapshot.table("leaves").unwrap();
    let out = reader.drive(snapshot.get(&table, b"a")).unwrap();
    assert_eq!(out.into_value().unwrap(), Some(b"1".to_vec()));
    reader.rows = None;
    let out = reader.drive(snapshot.get(&table, b"b")).unwrap();
    assert_eq!(out.into_value().unwrap(), None);
    reader.rows = None;
    assert_eq!(
        entries(&mut reader, snapshot.iter(table)),
        vec![(b"a".to_vec(), b"1".to_vec())]
    );
    reader.drive(snapshot.close()).unwrap();
    assert_eq!(get(&mut session, "leaves", b"a"), Some(b"2".to_vec()));
}

#[test]
fn turso_iteration_is_in_key_order() {
    let store = empty_store();
    let mut session = Session::new(&store);
    session.drive(TursoKVDB::new(config("db"), false)).unwrap();
    let mut batch = begin(&mut session);
    for (k, v) in [(&b"b"[..], b"1"), (&b"a"[..], b"2"), (&b"ab"[..], b"3"), (&b""[..], b"4")] {
        put(&mut session, &mut batch, "st56", k, v);
    }
    commit(&mut session, batch).unwrap();
    let table = TursoKVDB.table("st56").unwrap();
    assert_eq!(
        entries(&mut session, TursoKVDB.iter(table.clone())),
        vec![
            (b"".to_vec(), b"4".to_vec()),
            (b"a".to_vec(), b"2".to_vec()),
            (b"ab".to_vec(), b"3".to_vec()),
            (b"b".to_vec(), b"1".to_vec()),
        ]
    );
}

#[test]
fn rows_are_decoded() {
    let store = empty_store();
    let row = row_of(&store, "SELECT x'0102', x'03'");
    assert_eq!(row_entry(&row).unwrap(), (vec![1, 2], vec![3]));
    assert_eq!(row_value(Some(row)).unwrap(), Some(vec![1, 2]));
    assert_eq!(row_value(None).unwrap(), None);
    for sql in ["SELECT 1, x'03'", "SELECT NULL, x'03'", "SELECT 'a', 1", "SELECT 1.5, 2"] {
        let row = row_of(&store, sql);
        match row_entry(&row) {
            Err(StorageError::Unsupported(text)) => assert_eq!(text, "non-blob key"),
            other => panic!("unexpected {other:?}"),
        }
        assert_eq!(row_value(Some(row)).unwrap(), None);
    }
    for sql in ["SELECT x'01', 1", "SELECT x'01', NULL", "SELECT x'01', 'a'", "SELECT x'01', 1.5"] {
        match row_entry(&row_of(&store, sql)) {
            Err(StorageError::Unsupported(text)) => assert_eq!(text, "non-blob value"),
            other => panic!("unexpected {other:?}"),
        }
    }
}

#[test]
fn a_missing_column_is_an_error() {
    let store = empty_store();
    for _ in 0..2 {
        match row_entry(&row_of(&store, "SELECT x'01'")) {
            Err(StorageError::Backend(BackendError::Turso(turso::Error::Misuse(text)))) => {
                assert_eq!(text, "column index 1 out of bounds (row has 1 columns)");
            },
            other => panic!("{other:?}"),
        }
    }
    assert!(matches!(
        row_entry(&row_of(&store, "SELECT 1")),
        Err(StorageError::Unsupported(_))
    ));
}

#[test]
fn columns_are_taken_as_values() {
    assert_eq!(value_of(Ok(Column::Blob(vec![7]))).unwrap(), Some(vec![7]));
    assert_eq!(value_of(Ok(Column::Null)).unwrap(), None);
    assert_eq!(value_of(Ok(Column::Integer(1))).unwrap(), None);
    assert_eq!(value_of(Ok(Column::Real)).unwrap(), None);
    assert_eq!(value_of(Ok(Column::Text("t".to_string()))).unwrap(), None);
    assert!(matches!(
        value_of(Err(misuse())),
        Err(StorageError::Backend(BackendError::Turso(turso::Error::Misuse(_))))
    ));
}

#[test]
fn columns_are_taken_as_entries() {
    let blob = |b: u8| Ok(Column::Blob(vec![b]));
    assert_eq!(entry_of(blob(1), blob(2)).unwrap(), (vec![1], vec![2]));
    assert!(matches!(
        entry_of(Err(misuse()), blob(2)),
        Err(StorageError::Backend(BackendError::Turso(_)))
    ));
    assert!(matches!(
        entry_of(blob(1), Err(misuse())),
        Err(StorageError::Backend(BackendError::Turso(_)))
    ));
    assert!(matches!(
        entry_of(Ok(Column::Null), Err(misuse())),
        Err(StorageError::Unsupported(_))
    ));
}

#[test]
fn iteration_ends_with_the_rows() {
    let store = empty_store();
    let it = TursoRowIter::new(Ok(()));
    let (it, item) = it.next(Ok(Some(row_of(&store, "SELECT 1, 2"))));
    assert!(matches!(item, Some(Err(StorageError::Unsupported(_)))));
    assert!(it.reads());
    let (it, item) = it.next(Ok(Some(row_of(&store, "SELECT x'01', x'02'"))));
    assert_eq!(item.unwrap().unwrap(), (vec![1], vec![2]));
    let (it, item) = it.next(Ok(None));
    assert!(item.is_none());
    assert!(!it.reads());
    let (_, item) = it.next(Ok(Some(row_of(&store, "SELECT x'01', x'02'"))));
    assert!(item.is_none());
}

#[test]
fn iteration_ends_with_an_error_of_the_query() {
    let it = TursoRowIter::new(Ok(()));
    let (it, item) = it.next(Err(misuse()));
    assert!(matches!(item, Some(Err(StorageError::Backend(BackendError::Turso(_))))));
    assert!(!it.reads());
    let (_, item) = it.next(Err(misuse()));
    assert!(item.is_none());
}

#[test]
fn turso_failed_iteration_has_one_item() {
    let it = TursoRowIter::new(Err::<(), _>(StorageError::from(misuse())));
    assert!(!it.reads());
    let (it, item) = it.next(Ok(None));
    assert!(matches!(item, Some(Err(StorageError::Backend(BackendError::Turso(_))))));
    let (it, item) = it.next(Ok(None));
    assert!(item.is_none());
    assert!(matches!(it, TursoRowIter::Ended));
}

#[test]
fn a_failing_commit_leaves_the_batch_to_close() {
    let (_, mut batch) = TursoKVDB.batch();
    let mut run = batch.commit();
    assert!(matches!(run.action(), Some(TursoAction::Execute { sql: Statement::Commit })));
    let outcome = match run.resume(TursoReply::Failed(misuse())) {
        Progress::Finished(outcome) => outcome,
        other => panic!("unexpected {other:?}"),
    };
    assert!(matches!(
        batch.finish(outcome),
        Err(StorageError::Backend(BackendError::Turso(_)))
    ));
    let mut run = batch.close();
    assert!(matches!(run.action(), Some(TursoAction::CheckAutocommit)));
    assert!(matches!(run.resume(TursoReply::Autocommit(false)), Progress::Continue));
    assert!(matches!(run.action(), Some(TursoAction::Execute { sql: Statement::Rollback })));
    assert!(matches!(
        run.resume(TursoReply::Failed(misuse())),
        Progress::Finished(Ok(TursoOutput::Done))
    ));
}

#[test]
fn closing_does_nothing_outside_a_transaction() {
    for reply in [TursoReply::Autocommit(true), TursoReply::Failed(misuse())] {
        let mut run = TursoKVDBSnapshot.close();
        assert!(matches!(run.resume(reply), Progress::Finished(Ok(TursoOutput::Done))));
        assert!(run.action().is_none());
    }
}

#[test]
fn a_committed_batch_has_nothing_to_close() {
    let (_, mut batch) = TursoKVDB.batch();
    let _ = batch.commit();
    assert!(batch.finish(Ok(TursoOutput::Done)).is_ok());
    assert!(batch.close().action().is_none());
}

#[test]
fn turso_batch_that_cannot_start_panics() {
    let (mut run, _) = TursoKVDB.batch();
    match run.resume(TursoReply::Failed(misuse())) {
        Progress::Panic(reason, StorageError::Backend(BackendError::Turso(_))) => {
            assert_eq!(reason, PanicReason::TursoBegin);
            assert_eq!(
                reason.message(),
                "BEGIN DEFERRED failed; cannot propagate error from batch() per trait"
            );
        },
        other => panic!("unexpected {other:?}"),
    }
}

#[test]
fn settings_that_fail_are_passed_over() {
    let mut run = TursoKVDB::new(config("db"), false);
    let mut texts = Vec::new();
    let mut drained = 0;
    loop {
        let reply = match run.action().unwrap() {
            TursoAction::Query { sql } | TursoAction::Execute { sql } => {
                texts.push(sql.text());
                TursoReply::Failed(misuse())
            },
            TursoAction::DrainRow => {
                drained += 1;
                TursoReply::End
            },
            _ => TursoReply::Done,
        };
        match run.resume(reply) {
            Progress::Continue => {},
            Progress::Finished(Ok(_)) => break,
            other => panic!("unexpected {other:?}"),
        }
    }
    assert_eq!(drained, 0);
    assert_eq!(
        texts,
        vec![
            "PRAGMA journal_mode = WAL",
            "PRAGMA synchronous = NORMAL",
            "PRAGMA cache_size = -65536",
            "PRAGMA wal_autocheckpoint = 1000",
        ]
    );
}

#[test]
fn opening_fails_where_it_has_to() {
    let mut run = TursoKVDB::new(config("db"), false);
    let failed = std::io::Error::new(std::io::ErrorKind::Other, "no runtime");
    assert!(matches!(
        run.resume(TursoReply::RuntimeFailed(failed)),
        Progress::Finished(Err(StorageError::Backend(BackendError::Runtime(_))))
    ));
    let mut run = TursoKVDB::new(config("db"), false);
    assert!(matches!(run.resume(TursoReply::Done), Progress::Continue));
    assert!(matches!(
        run.resume(TursoReply::Failed(misuse())),
        Progress::Finished(Err(StorageError::Backend(BackendError::Turso(_))))
    ));
}

#[test]
fn rows_are_drained_to_the_end() {
    let store = empty_store();
    let mut run = TursoKVDB.sync();
    assert!(matches!(run.action(), Some(TursoAction::CacheFlush)));
    assert!(matches!(run.resume(TursoReply::Done), Progress::Continue));
    assert!(matches!(run.action(), Some(TursoAction::Query { sql: Statement::Checkpoint })));
    assert!(matches!(run.resume(TursoReply::Done), Progress::Continue));
    for _ in 0..3 {
        assert!(matches!(run.action(), Some(TursoAction::DrainRow)));
        let row = row_of(&store, "SELECT 1");
        assert!(matches!(run.resume(TursoReply::Row(row)), Progress::Continue));
    }
    assert!(matches!(run.resume(TursoReply::End), Progress::Finished(Ok(_))));
}

#[test]
fn turso_file_is_put_into_a_directory() {
    let mut run = TursoKVDB::new(config("some/dir"), true);
    let _ = run.resume(TursoReply::Done);
    match run.action() {
        Some(TursoAction::Open { file: DatabaseFile::Inside(dir, name) }) => {
            assert_eq!(dir, &PathBuf::from("some/dir"));
            assert_eq!(*name, "data.turso");
        },
        other => panic!("unexpected {other:?}"),
    }
}
